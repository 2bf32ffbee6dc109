//! Event dispatch: one entry point per event plane.
//!
//! Events arrive in order from the stack's two planes and are applied
//! to the one shared state record; each produces the commands the
//! driver must perform and the notifications owed to the application.
//! A non-success outcome code aborts its event before any state
//! changes.

use vstd::prelude::*;

use crate::connections::{conn_index_of, peer_index_of};
use crate::registrar::{
    adv_config, cccd_descriptor, ind_characteristic, recv_characteristic, service_identity,
    spec_device_name,
};
use crate::state::ServerState;
use crate::status::{check_bt_status, check_gatt_status};
use crate::types::{
    Command, ConnId, Connection, GapEvent, GattInterface, GattServerEvent, Notification,
    PeerAddr, ServerError,
    ServerOutput, APP_ID, BT_STATUS_SUCCESS, CONN_LATENCY, CONN_MAX_INTERVAL, CONN_MIN_INTERVAL,
    CONN_TIMEOUT, GATT_STATUS_OK, RESPONSE_MAX_LEN, SERVICE_NUM_HANDLES,
};
use crate::writes::{cccd_payload_ok, is_subscribe_value};

verus! {

/// Handle an event of the advertising / connection-parameter plane:
/// once advertising is configured successfully, start advertising.
pub fn on_gap_event(event: &GapEvent) -> (r: Result<Vec<Command>, ServerError>)
    ensures
        *event matches GapEvent::AdvertisingConfigured { status } ==> {
            &&& status == BT_STATUS_SUCCESS ==> (r matches Ok(cmds) && cmds@.len() == 1
                && cmds@[0] == Command::StartAdvertising)
            &&& status != BT_STATUS_SUCCESS ==> r == Err::<Vec<Command>, ServerError>(
                ServerError::OperationFailed { code: status },
            )
        },
        *event is Other ==> (r matches Ok(cmds) && cmds@.len() == 0),
{
    match event {
        GapEvent::AdvertisingConfigured { status } => {
            if let Err(e) = check_bt_status(*status) {
                return Err(e);
            }
            let mut cmds: Vec<Command> = Vec::new();
            cmds.push(Command::StartAdvertising);
            Ok(cmds)
        },
        GapEvent::Other => Ok(Vec::new()),
    }
}

impl ServerState {
    /// A peer connected: admit it if the table has room; for an
    /// admitted peer, request its connection parameters. Admission at
    /// capacity is declined with the table untouched.
    pub fn create_conn(&mut self, conn_id: ConnId, addr: PeerAddr) -> (cmds: Vec<Command>)
        requires
            old(self).wf(),
        ensures
            final(self).wf(),
            *final(self) == (ServerState { connections: final(self).connections, ..*old(self) }),
            final(self).connections.cap() == old(self).connections.cap(),
            old(self).connections@.len() < old(self).connections.cap() ==> {
                &&& final(self).connections@ == old(self).connections@.push(
                    Connection { peer: addr, conn_id, subscribed: false, mtu: None },
                )
                &&& cmds@.len() == 1
                &&& cmds@[0] == (Command::SetConnectionParams {
                    peer: addr,
                    min_interval: CONN_MIN_INTERVAL,
                    max_interval: CONN_MAX_INTERVAL,
                    latency: CONN_LATENCY,
                    timeout: CONN_TIMEOUT,
                })
            },
            old(self).connections@.len() >= old(self).connections.cap() ==> *final(self) == *old(self) && cmds@.len() == 0,
    {
        let admitted = self.connections.on_connected(addr, conn_id);
        let mut cmds: Vec<Command> = Vec::new();
        if admitted {
            cmds.push(
                Command::SetConnectionParams {
                    peer: addr,
                    min_interval: CONN_MIN_INTERVAL,
                    max_interval: CONN_MAX_INTERVAL,
                    latency: CONN_LATENCY,
                    timeout: CONN_TIMEOUT,
                },
            );
        }
        cmds
    }

    /// A peer disconnected: drop its entry, if it still has one.
    /// Exactly the first entry with that identity goes away; every
    /// other entry is still present afterwards.
    pub fn delete_conn(&mut self, addr: PeerAddr)
        requires
            old(self).wf(),
        ensures
            final(self).wf(),
            *final(self) == (ServerState { connections: final(self).connections, ..*old(self) }),
            final(self).connections.cap() == old(self).connections.cap(),
            ({
                let s = old(self).connections@;
                let i = peer_index_of(s, addr);
                &&& i < 0 ==> *final(self) == *old(self)
                &&& i >= 0 ==> {
                    &&& final(self).connections@ == s.update(i, s.last()).drop_last()
                    &&& final(self).connections@.len() == s.len() - 1
                    &&& forall|j: int|
                        0 <= j < s.len() && j != i ==> exists|k: int|
                            0 <= k < final(self).connections@.len()
                                && #[trigger] final(self).connections@[k] == #[trigger] s[j]
                }
            }),
    {
        self.connections.on_disconnected(addr);
    }

    /// The MTU of a connection was negotiated: record it; no-op if the
    /// connection has already dropped.
    pub fn register_conn_mtu(&mut self, conn_id: ConnId, mtu: u16)
        requires
            old(self).wf(),
        ensures
            final(self).wf(),
            *final(self) == (ServerState { connections: final(self).connections, ..*old(self) }),
            final(self).connections.cap() == old(self).connections.cap(),
            ({
                let s = old(self).connections@;
                let i = conn_index_of(s, conn_id);
                &&& i < 0 ==> *final(self) == *old(self)
                &&& i >= 0 ==> final(self).connections@ == s.update(
                    i,
                    Connection { mtu: Some(mtu), ..s[i] },
                )
            }),
    {
        self.connections.on_mtu(conn_id, mtu);
    }

    /// Handle one event of the GATT server plane.
    ///
    /// Lifecycle events advance or rewind the registration sequence;
    /// connection events maintain the table; writes are interpreted
    /// and answered; a confirmation clears the indication slot. Every
    /// status-carrying event is translated first, and a failure aborts
    /// that event with the state unchanged.
    pub fn on_gatts_event(&mut self, gatt_if: GattInterface, event: &GattServerEvent) -> (r:
        Result<ServerOutput, ServerError>)
        requires
            old(self).wf(),
        ensures
            final(self).wf(),
            final(self).connections.cap() == old(self).connections.cap(),
            match *event {
                GattServerEvent::AppRegistered { status, app_id } => {
                    &&& status != GATT_STATUS_OK ==> r == Err::<ServerOutput, ServerError>(
                        ServerError::OperationFailed { code: status },
                    ) && *final(self) == *old(self)
                    &&& status == GATT_STATUS_OK && app_id != APP_ID ==> *final(self) == *old(self)
                        && (r matches Ok(out) && out.commands@.len() == 0
                        && out.notifications@.len() == 0)
                    &&& status == GATT_STATUS_OK && app_id == APP_ID ==> {
                        &&& *final(self) == (ServerState { gatt_if: Some(gatt_if), ..*old(self) })
                        &&& (r matches Ok(out) && out.notifications@.len() == 0
                            && out.commands@.len() == 3 && (out.commands@[0] matches
                        Command::SetDeviceName { name } && name@ == spec_device_name())
                            && out.commands@[1] == (Command::ConfigureAdvertising {
                            config: adv_config(),
                        }) && out.commands@[2] == (Command::CreateService {
                            gatt_if,
                            service: service_identity(),
                            num_handles: SERVICE_NUM_HANDLES,
                        }))
                    }
                },
                GattServerEvent::ServiceCreated { status, service_handle } => {
                    &&& status != GATT_STATUS_OK ==> r == Err::<ServerOutput, ServerError>(
                        ServerError::OperationFailed { code: status },
                    ) && *final(self) == *old(self)
                    &&& status == GATT_STATUS_OK ==> {
                        &&& *final(self) == (ServerState {
                            service_handle: Some(service_handle),
                            ..*old(self)
                        })
                        &&& (r matches Ok(out) && out.notifications@.len() == 0
                            && out.commands@.len() == 3 && out.commands@[0] == (
                        Command::StartService { service_handle }) && out.commands@[1] == (
                        Command::AddCharacteristic {
                            service_handle,
                            characteristic: recv_characteristic(),
                        }) && out.commands@[2] == (Command::AddCharacteristic {
                            service_handle,
                            characteristic: ind_characteristic(),
                        }))
                    }
                },
                GattServerEvent::CharacteristicAdded { status, attr_handle, service_handle, char_uuid } => {
                    &&& status != GATT_STATUS_OK ==> r == Err::<ServerOutput, ServerError>(
                        ServerError::OperationFailed { code: status },
                    ) && *final(self) == *old(self)
                    &&& status == GATT_STATUS_OK ==> {
                        &&& old(self).service_handle != Some(service_handle) ==> *final(self)
                            == *old(self) && (r matches Ok(out) && out.commands@.len() == 0
                            && out.notifications@.len() == 0)
                        &&& old(self).service_handle == Some(service_handle) ==> {
                            &&& char_uuid == recv_characteristic().uuid ==> *final(self)
                                == (ServerState { recv_handle: Some(attr_handle), ..*old(self) })
                                && (r matches Ok(out) && out.commands@.len() == 0
                                && out.notifications@.len() == 0)
                            &&& char_uuid == ind_characteristic().uuid ==> *final(self)
                                == (ServerState { ind_handle: Some(attr_handle), ..*old(self) })
                                && (r matches Ok(out) && out.notifications@.len() == 0
                                && out.commands@.len() == 1 && out.commands@[0] == (
                            Command::AddDescriptor {
                                service_handle,
                                descriptor: cccd_descriptor(),
                            }))
                            &&& char_uuid != recv_characteristic().uuid && char_uuid
                                != ind_characteristic().uuid ==> *final(self) == *old(self) && (
                            r matches Ok(out) && out.commands@.len() == 0
                                && out.notifications@.len() == 0)
                        }
                    }
                },
                GattServerEvent::DescriptorAdded { status, attr_handle, service_handle, descr_uuid } => {
                    &&& status != GATT_STATUS_OK ==> r == Err::<ServerOutput, ServerError>(
                        ServerError::OperationFailed { code: status },
                    ) && *final(self) == *old(self)
                    &&& status == GATT_STATUS_OK ==> (r matches Ok(out) && out.commands@.len() == 0
                        && out.notifications@.len() == 0) && {
                        &&& descr_uuid == cccd_descriptor().uuid && old(self).service_handle
                            == Some(service_handle) ==> *final(self) == (ServerState {
                            ind_cccd_handle: Some(attr_handle),
                            ..*old(self)
                        })
                        &&& !(descr_uuid == cccd_descriptor().uuid && old(self).service_handle
                            == Some(service_handle)) ==> *final(self) == *old(self)
                    }
                },
                GattServerEvent::ServiceDeleted { status, service_handle } => {
                    &&& status != GATT_STATUS_OK ==> r == Err::<ServerOutput, ServerError>(
                        ServerError::OperationFailed { code: status },
                    ) && *final(self) == *old(self)
                    &&& status == GATT_STATUS_OK ==> (r matches Ok(out) && out.commands@.len() == 0
                        && out.notifications@.len() == 0) && {
                        &&& old(self).service_handle == Some(service_handle) ==> *final(self)
                            == (ServerState {
                            recv_handle: None,
                            ind_handle: None,
                            ind_cccd_handle: None,
                            ..*old(self)
                        })
                        &&& old(self).service_handle != Some(service_handle) ==> *final(self)
                            == *old(self)
                    }
                },
                GattServerEvent::ServiceUnregistered { status, service_handle } => {
                    &&& status != GATT_STATUS_OK ==> r == Err::<ServerOutput, ServerError>(
                        ServerError::OperationFailed { code: status },
                    ) && *final(self) == *old(self)
                    &&& status == GATT_STATUS_OK ==> (r matches Ok(out) && out.commands@.len() == 0
                        && out.notifications@.len() == 0) && {
                        &&& old(self).service_handle == Some(service_handle) ==> *final(self)
                            == (ServerState {
                            gatt_if: None,
                            service_handle: None,
                            ..*old(self)
                        })
                        &&& old(self).service_handle != Some(service_handle) ==> *final(self)
                            == *old(self)
                    }
                },
                GattServerEvent::MtuChanged { conn_id, mtu } => {
                    &&& (r matches Ok(out) && out.commands@.len() == 0 && out.notifications@.len()
                        == 0)
                    &&& ({
                        let s = old(self).connections@;
                        let i = conn_index_of(s, conn_id);
                        &&& i < 0 ==> *final(self) == *old(self)
                        &&& i >= 0 ==> *final(self) == (ServerState {
                            connections: final(self).connections,
                            ..*old(self)
                        }) && final(self).connections@ == s.update(
                            i,
                            Connection { mtu: Some(mtu), ..s[i] },
                        )
                    })
                },
                GattServerEvent::PeerConnected { conn_id, addr } => {
                    &&& *final(self) == (ServerState {
                        connections: final(self).connections,
                        ..*old(self)
                    })
                    &&& old(self).connections@.len() < old(self).connections.cap() ==> {
                        &&& final(self).connections@ == old(self).connections@.push(
                            Connection { peer: addr, conn_id, subscribed: false, mtu: None },
                        )
                        &&& (r matches Ok(out) && out.notifications@.len() == 0
                            && out.commands@.len() == 1 && out.commands@[0] == (
                        Command::SetConnectionParams {
                            peer: addr,
                            min_interval: CONN_MIN_INTERVAL,
                            max_interval: CONN_MAX_INTERVAL,
                            latency: CONN_LATENCY,
                            timeout: CONN_TIMEOUT,
                        }))
                    }
                    &&& old(self).connections@.len() >= old(self).connections.cap() ==> *final(self) == *old(self) && (r matches Ok(out) && out.commands@.len() == 0
                        && out.notifications@.len() == 0)
                },
                GattServerEvent::PeerDisconnected { addr } => {
                    &&& (r matches Ok(out) && out.commands@.len() == 0 && out.notifications@.len()
                        == 0)
                    &&& ({
                        let s = old(self).connections@;
                        let i = peer_index_of(s, addr);
                        &&& i < 0 ==> *final(self) == *old(self)
                        &&& i >= 0 ==> *final(self) == (ServerState {
                            connections: final(self).connections,
                            ..*old(self)
                        }) && final(self).connections@ == s.update(i, s.last()).drop_last()
                            && final(self).connections@.len() == s.len() - 1
                    })
                },
                GattServerEvent::Write { conn_id, trans_id, addr, handle, offset, need_rsp, is_prep, value } => {
                    let s = old(self).connections@;
                    let i = conn_index_of(s, conn_id);
                    let cccd = old(self).ind_cccd_handle == Some(handle);
                    let recv = old(self).recv_handle == Some(handle);
                    let handled = i >= 0 && (cccd || recv);
                    &&& *final(self) == (ServerState {
                        connections: final(self).connections,
                        response: final(self).response,
                        ..*old(self)
                    })
                    // When the write was ours and a response was asked for, a
                    // prepared value too large for the buffer is the one error.
                    &&& handled && need_rsp && is_prep && value@.len() > RESPONSE_MAX_LEN ==> r
                        == Err::<ServerOutput, ServerError>(ServerError::MalformedResponse)
                    &&& !(handled && need_rsp && is_prep && value@.len() > RESPONSE_MAX_LEN) ==> r
                        is Ok
                    // Effect on the connection table and the notification owed.
                    &&& i < 0 || (!cccd && !recv) ==> final(self).connections == old(self).connections && (r matches Ok(out) && out.notifications@.len() == 0)
                    &&& i >= 0 && cccd ==> {
                        if cccd_payload_ok(offset, value@) && is_subscribe_value(value@)
                            && !s[i].subscribed {
                            &&& final(self).connections@ == s.update(
                                i,
                                Connection { subscribed: true, ..s[i] },
                            )
                            &&& r matches Ok(out) ==> out.notifications@ == seq![
                                Notification::Subscribed { peer: s[i].peer },
                            ]
                        } else if cccd_payload_ok(offset, value@) && !is_subscribe_value(value@)
                            && s[i].subscribed {
                            &&& final(self).connections@ == s.update(
                                i,
                                Connection { subscribed: false, ..s[i] },
                            )
                            &&& r matches Ok(out) ==> out.notifications@ == seq![
                                Notification::Unsubscribed { peer: s[i].peer },
                            ]
                        } else {
                            final(self).connections == old(self).connections && (r matches Ok(out)
                                ==> out.notifications@.len() == 0)
                        }
                    }
                    &&& i >= 0 && !cccd && recv ==> final(self).connections == old(self).connections && (r matches Ok(out) ==> out.notifications@ == seq![
                        Notification::Received { peer: addr, offset, mtu: s[i].mtu },
                    ])
                    // Effect on the response buffer and the response command.
                    &&& handled && need_rsp && is_prep && value@.len() <= RESPONSE_MAX_LEN ==> {
                        &&& final(self).response.attr_handle == handle
                        &&& final(self).response.auth_req == 0
                        &&& final(self).response.offset == offset
                        &&& final(self).response.value@ == value@
                        &&& (r matches Ok(out) && out.commands@.len() == 1 && (out.commands@[0]
                        matches Command::SendResponse {
                            gatt_if: g,
                            conn_id: c,
                            trans_id: t,
                            status,
                            response,
                        } && g == gatt_if && c == conn_id && t == trans_id && status
                            == GATT_STATUS_OK && (response matches Some(rd) && rd.attr_handle
                            == handle && rd.auth_req == 0 && rd.offset == offset && rd.value@
                            == value@)))
                    }
                    &&& handled && need_rsp && !is_prep ==> final(self).response == old(self).response && (r matches Ok(out) && out.commands@.len() == 1
                        && out.commands@[0] == (Command::SendResponse {
                        gatt_if,
                        conn_id,
                        trans_id,
                        status: GATT_STATUS_OK,
                        response: None,
                    }))
                    &&& !handled || !need_rsp ==> final(self).response == old(self).response && (
                    r matches Ok(out) ==> out.commands@.len() == 0)
                },
                GattServerEvent::Confirm { status } => {
                    &&& status != GATT_STATUS_OK ==> r == Err::<ServerOutput, ServerError>(
                        ServerError::OperationFailed { code: status },
                    ) && *final(self) == *old(self)
                    &&& status == GATT_STATUS_OK && old(self).ind_pending is Some ==> *final(self)
                        == (ServerState { ind_pending: None, ..*old(self) }) && (r matches Ok(out)
                        && out.commands@.len() == 0 && out.notifications@.len() == 0)
                    &&& status == GATT_STATUS_OK && old(self).ind_pending is None ==> r == Err::<
                        ServerOutput,
                        ServerError,
                    >(ServerError::UnexpectedConfirmation) && *final(self) == *old(self)
                },
            },
    {
        match event {
            GattServerEvent::AppRegistered { status, app_id } => {
                if let Err(e) = check_gatt_status(*status) {
                    return Err(e);
                }
                if *app_id == APP_ID {
                    let commands = self.create_service(gatt_if);
                    Ok(ServerOutput { commands, notifications: Vec::new() })
                } else {
                    Ok(ServerOutput { commands: Vec::new(), notifications: Vec::new() })
                }
            },
            GattServerEvent::ServiceCreated { status, service_handle } => {
                if let Err(e) = check_gatt_status(*status) {
                    return Err(e);
                }
                let commands = self.configure_and_start_service(*service_handle);
                Ok(ServerOutput { commands, notifications: Vec::new() })
            },
            GattServerEvent::CharacteristicAdded { status, attr_handle, service_handle, char_uuid } => {
                if let Err(e) = check_gatt_status(*status) {
                    return Err(e);
                }
                let commands = self.register_characteristic(*service_handle, *attr_handle, *char_uuid);
                Ok(ServerOutput { commands, notifications: Vec::new() })
            },
            GattServerEvent::DescriptorAdded { status, attr_handle, service_handle, descr_uuid } => {
                if let Err(e) = check_gatt_status(*status) {
                    return Err(e);
                }
                self.register_cccd_descriptor(*service_handle, *attr_handle, *descr_uuid);
                Ok(ServerOutput { commands: Vec::new(), notifications: Vec::new() })
            },
            GattServerEvent::ServiceDeleted { status, service_handle } => {
                if let Err(e) = check_gatt_status(*status) {
                    return Err(e);
                }
                self.delete_service(*service_handle);
                Ok(ServerOutput { commands: Vec::new(), notifications: Vec::new() })
            },
            GattServerEvent::ServiceUnregistered { status, service_handle } => {
                if let Err(e) = check_gatt_status(*status) {
                    return Err(e);
                }
                self.unregister_service(*service_handle);
                Ok(ServerOutput { commands: Vec::new(), notifications: Vec::new() })
            },
            GattServerEvent::MtuChanged { conn_id, mtu } => {
                self.register_conn_mtu(*conn_id, *mtu);
                Ok(ServerOutput { commands: Vec::new(), notifications: Vec::new() })
            },
            GattServerEvent::PeerConnected { conn_id, addr } => {
                let commands = self.create_conn(*conn_id, *addr);
                Ok(ServerOutput { commands, notifications: Vec::new() })
            },
            GattServerEvent::PeerDisconnected { addr } => {
                self.delete_conn(*addr);
                Ok(ServerOutput { commands: Vec::new(), notifications: Vec::new() })
            },
            GattServerEvent::Write { conn_id, trans_id, addr, handle, offset, need_rsp, is_prep, value } => {
                let outcome = self.handle_write(*conn_id, *addr, *handle, *offset, value);
                let mut commands: Vec<Command> = Vec::new();
                let mut notifications: Vec<Notification> = Vec::new();
                if let Some(n) = outcome.note {
                    notifications.push(n);
                }
                if outcome.handled {
                    match self.send_write_response(
                        gatt_if,
                        *conn_id,
                        *trans_id,
                        *handle,
                        *offset,
                        *need_rsp,
                        *is_prep,
                        value,
                    ) {
                        Err(e) => {
                            return Err(e);
                        },
                        Ok(Some(cmd)) => {
                            commands.push(cmd);
                        },
                        Ok(None) => {},
                    }
                }
                Ok(ServerOutput { commands, notifications })
            },
            GattServerEvent::Confirm { status } => {
                if let Err(e) = check_gatt_status(*status) {
                    return Err(e);
                }
                if let Err(e) = self.confirm_indication() {
                    return Err(e);
                }
                Ok(ServerOutput { commands: Vec::new(), notifications: Vec::new() })
            },
        }
    }
}

} // verus!
