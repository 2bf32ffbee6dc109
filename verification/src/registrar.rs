//! Service registrar: the multi-step asynchronous bring-up sequence.
//!
//! Registration advances one confirmation event at a time: app
//! registered, service created and started, the two characteristics
//! added, then the configuration descriptor added, after which the
//! service is ready. Every step checks the event's service handle
//! against the tracked one, so stale events of a superseded
//! registration are ignored. Deletion events clear the corresponding
//! handles and may arrive at any time.

use vstd::prelude::*;

use crate::state::ServerState;
use crate::types::{
    AdvConfig, AttrHandle, AttrPermissions, CharProperties, CharacteristicDef, Command,
    DescriptorDef, GattInterface, ServiceId, Uuid, CCCD_UUID, CHARACTERISTIC_MAX_LEN,
    IND_CHARACTERISTIC_UUID, RECV_CHARACTERISTIC_UUID, SERVICE_NUM_HANDLES, SERVICE_UUID,
};

verus! {

/// Name the peripheral advertises.
pub open spec fn spec_device_name() -> Seq<char> {
    "ESP32"@
}

/// Advertising payload: name and transmit power included, general
/// discoverability flags, and the service identity.
pub open spec fn adv_config() -> AdvConfig {
    AdvConfig {
        include_name: true,
        include_tx_power: true,
        flag: 2,
        service_uuid: Some(Uuid::Long(SERVICE_UUID)),
    }
}

/// Identity under which the one primary service is created.
pub open spec fn service_identity() -> ServiceId {
    ServiceId { uuid: Uuid::Long(SERVICE_UUID), inst_id: 0, is_primary: true }
}

/// The write-only characteristic clients send data to, answered by the
/// application itself.
pub open spec fn recv_characteristic() -> CharacteristicDef {
    CharacteristicDef {
        uuid: Uuid::Long(RECV_CHARACTERISTIC_UUID),
        permissions: AttrPermissions { read: false, write: true },
        properties: CharProperties { write: true, indicate: false },
        max_len: CHARACTERISTIC_MAX_LEN,
        response_by_app: true,
    }
}

/// The indicate-only characteristic subscribed clients receive data on.
pub open spec fn ind_characteristic() -> CharacteristicDef {
    CharacteristicDef {
        uuid: Uuid::Long(IND_CHARACTERISTIC_UUID),
        permissions: AttrPermissions { read: true, write: true },
        properties: CharProperties { write: false, indicate: true },
        max_len: CHARACTERISTIC_MAX_LEN,
        response_by_app: true,
    }
}

/// The client characteristic configuration descriptor, readable and
/// writable by clients.
pub open spec fn cccd_descriptor() -> DescriptorDef {
    DescriptorDef {
        uuid: Uuid::Short(CCCD_UUID),
        permissions: AttrPermissions { read: true, write: true },
    }
}

impl ServerState {
    /// App registration confirmed: record the interface handle, then
    /// ask the stack to configure advertising and create the service
    /// with its fixed attribute-count budget.
    pub fn create_service(&mut self, gatt_if: GattInterface) -> (cmds: Vec<Command>)
        requires
            old(self).wf(),
        ensures
            final(self).wf(),
            *final(self) == (ServerState { gatt_if: Some(gatt_if), ..*old(self) }),
            cmds@.len() == 3,
            (cmds@[0] matches Command::SetDeviceName { name } && name@ == spec_device_name()),
            cmds@[1] == (Command::ConfigureAdvertising { config: adv_config() }),
            cmds@[2] == (Command::CreateService {
                gatt_if,
                service: service_identity(),
                num_handles: SERVICE_NUM_HANDLES,
            }),
    {
        self.gatt_if = Some(gatt_if);
        let mut cmds: Vec<Command> = Vec::new();
        cmds.push(Command::SetDeviceName { name: "ESP32".to_owned() });
        cmds.push(
            Command::ConfigureAdvertising {
                config: AdvConfig {
                    include_name: true,
                    include_tx_power: true,
                    flag: 2,
                    service_uuid: Some(Uuid::Long(SERVICE_UUID)),
                },
            },
        );
        cmds.push(
            Command::CreateService {
                gatt_if,
                service: ServiceId { uuid: Uuid::Long(SERVICE_UUID), inst_id: 0, is_primary: true },
                num_handles: SERVICE_NUM_HANDLES,
            },
        );
        cmds
    }

    /// Service creation confirmed: record the service handle, then ask
    /// the stack to start the service and add both characteristics.
    pub fn configure_and_start_service(&mut self, service_handle: AttrHandle) -> (cmds: Vec<
        Command,
    >)
        requires
            old(self).wf(),
        ensures
            final(self).wf(),
            *final(self) == (ServerState { service_handle: Some(service_handle), ..*old(self) }),
            cmds@.len() == 3,
            cmds@[0] == (Command::StartService { service_handle }),
            cmds@[1] == (Command::AddCharacteristic {
                service_handle,
                characteristic: recv_characteristic(),
            }),
            cmds@[2] == (Command::AddCharacteristic {
                service_handle,
                characteristic: ind_characteristic(),
            }),
    {
        self.service_handle = Some(service_handle);
        let mut cmds: Vec<Command> = Vec::new();
        cmds.push(Command::StartService { service_handle });
        let mut more = self.add_characteristics(service_handle);
        cmds.append(&mut more);
        cmds
    }

    /// The requests that add the two characteristics to the service.
    pub fn add_characteristics(&self, service_handle: AttrHandle) -> (cmds: Vec<Command>)
        ensures
            cmds@.len() == 2,
            cmds@[0] == (Command::AddCharacteristic {
                service_handle,
                characteristic: recv_characteristic(),
            }),
            cmds@[1] == (Command::AddCharacteristic {
                service_handle,
                characteristic: ind_characteristic(),
            }),
    {
        let mut cmds: Vec<Command> = Vec::new();
        cmds.push(
            Command::AddCharacteristic {
                service_handle,
                characteristic: CharacteristicDef {
                    uuid: Uuid::Long(RECV_CHARACTERISTIC_UUID),
                    permissions: AttrPermissions { read: false, write: true },
                    properties: CharProperties { write: true, indicate: false },
                    max_len: CHARACTERISTIC_MAX_LEN,
                    response_by_app: true,
                },
            },
        );
        cmds.push(
            Command::AddCharacteristic {
                service_handle,
                characteristic: CharacteristicDef {
                    uuid: Uuid::Long(IND_CHARACTERISTIC_UUID),
                    permissions: AttrPermissions { read: true, write: true },
                    properties: CharProperties { write: false, indicate: true },
                    max_len: CHARACTERISTIC_MAX_LEN,
                    response_by_app: true,
                },
            },
        );
        cmds
    }

    /// A characteristic was added: record its handle if the event
    /// belongs to the tracked service, and for the indicate
    /// characteristic also request the configuration descriptor.
    pub fn register_characteristic(
        &mut self,
        service_handle: AttrHandle,
        attr_handle: AttrHandle,
        char_uuid: Uuid,
    ) -> (cmds: Vec<Command>)
        requires
            old(self).wf(),
        ensures
            final(self).wf(),
            old(self).service_handle != Some(service_handle) ==> *final(self) == *old(self)
                && cmds@.len() == 0,
            old(self).service_handle == Some(service_handle) ==> {
                &&& char_uuid == recv_characteristic().uuid ==> *final(self) == (ServerState {
                    recv_handle: Some(attr_handle),
                    ..*old(self)
                }) && cmds@.len() == 0
                &&& char_uuid == ind_characteristic().uuid ==> *final(self) == (ServerState {
                    ind_handle: Some(attr_handle),
                    ..*old(self)
                }) && cmds@.len() == 1 && cmds@[0] == (Command::AddDescriptor {
                    service_handle,
                    descriptor: cccd_descriptor(),
                })
                &&& char_uuid != recv_characteristic().uuid && char_uuid
                    != ind_characteristic().uuid ==> *final(self) == *old(self) && cmds@.len() == 0
            },
    {
        let tracked_matches = match self.service_handle {
            Some(h) => h == service_handle,
            None => false,
        };
        let mut cmds: Vec<Command> = Vec::new();
        if !tracked_matches {
            return cmds;
        }
        if char_uuid == Uuid::Long(RECV_CHARACTERISTIC_UUID) {
            self.recv_handle = Some(attr_handle);
        } else if char_uuid == Uuid::Long(IND_CHARACTERISTIC_UUID) {
            self.ind_handle = Some(attr_handle);
            cmds.push(
                Command::AddDescriptor {
                    service_handle,
                    descriptor: DescriptorDef {
                        uuid: Uuid::Short(CCCD_UUID),
                        permissions: AttrPermissions { read: true, write: true },
                    },
                },
            );
        }
        cmds
    }

    /// A descriptor was added: when it is the configuration descriptor
    /// of the tracked service, record its handle — registration is
    /// then complete.
    pub fn register_cccd_descriptor(
        &mut self,
        service_handle: AttrHandle,
        attr_handle: AttrHandle,
        descr_uuid: Uuid,
    )
        requires
            old(self).wf(),
        ensures
            final(self).wf(),
            descr_uuid == cccd_descriptor().uuid && old(self).service_handle == Some(
                service_handle,
            ) ==> *final(self) == (ServerState { ind_cccd_handle: Some(attr_handle), ..*old(self) }),
            !(descr_uuid == cccd_descriptor().uuid && old(self).service_handle == Some(
                service_handle,
            )) ==> *final(self) == *old(self),
    {
        let tracked_matches = match self.service_handle {
            Some(h) => h == service_handle,
            None => false,
        };
        if descr_uuid == Uuid::Short(CCCD_UUID) && tracked_matches {
            self.ind_cccd_handle = Some(attr_handle);
        }
    }

    /// The service was deleted: forget the attribute handles that
    /// belonged to it. Harmless if they are already clear.
    pub fn delete_service(&mut self, service_handle: AttrHandle)
        requires
            old(self).wf(),
        ensures
            final(self).wf(),
            old(self).service_handle == Some(service_handle) ==> *final(self) == (ServerState {
                recv_handle: None,
                ind_handle: None,
                ind_cccd_handle: None,
                ..*old(self)
            }),
            old(self).service_handle != Some(service_handle) ==> *final(self) == *old(self),
    {
        let tracked_matches = match self.service_handle {
            Some(h) => h == service_handle,
            None => false,
        };
        if tracked_matches {
            self.recv_handle = None;
            self.ind_handle = None;
            self.ind_cccd_handle = None;
        }
    }

    /// The app was unregistered: forget the interface and service
    /// handles. Harmless if they are already clear.
    pub fn unregister_service(&mut self, service_handle: AttrHandle)
        requires
            old(self).wf(),
        ensures
            final(self).wf(),
            old(self).service_handle == Some(service_handle) ==> *final(self) == (ServerState {
                gatt_if: None,
                service_handle: None,
                ..*old(self)
            }),
            old(self).service_handle != Some(service_handle) ==> *final(self) == *old(self),
    {
        let tracked_matches = match self.service_handle {
            Some(h) => h == service_handle,
            None => false,
        };
        if tracked_matches {
            self.gatt_if = None;
            self.service_handle = None;
        }
    }
}

} // verus!
