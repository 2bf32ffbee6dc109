//! Plain data vocabulary of the session: identifiers, protocol
//! constants, events consumed from the stack and commands issued back.

use vstd::prelude::*;

verus! {

/// Stack-assigned attribute identifier, learned through confirmation events.
pub type AttrHandle = u16;

/// Identifier of the registered GATT application interface.
pub type GattInterface = u8;

/// Per-link connection identifier.
pub type ConnId = u16;

/// Identifier of one attribute transaction (used when answering writes).
pub type TransferId = u32;

/// Application identity under which the GATT app registers.
pub const APP_ID: u16 = 0;

/// Raw outcome code meaning success on the generic-access control plane.
pub const BT_STATUS_SUCCESS: u8 = 0;

/// Raw outcome code meaning success on the attribute-protocol plane.
pub const GATT_STATUS_OK: u8 = 0;

/// 128-bit identity of the one primary service.
pub const SERVICE_UUID: u128 = 0xad91b201734740479e173bed82d75f9d;

/// The write-only characteristic on which clients send us data.
pub const RECV_CHARACTERISTIC_UUID: u128 = 0xb6fccb5087be44f3ae22f85485ea42c4;

/// The indicate-only characteristic on which subscribed clients receive data.
pub const IND_CHARACTERISTIC_UUID: u128 = 0x503de214868246c4828fd59144da41be;

/// Well-known 16-bit identity of the client characteristic configuration descriptor.
pub const CCCD_UUID: u16 = 0x2902;

/// Byte-length ceiling of each characteristic value.
pub const CHARACTERISTIC_MAX_LEN: u16 = 200;

/// Attribute-count budget requested when the service is created.
pub const SERVICE_NUM_HANDLES: u16 = 8;

/// Largest value the reusable write-response buffer accepts.
pub const RESPONSE_MAX_LEN: usize = 600;

/// Little-endian 16-bit descriptor value that turns indications on;
/// any other value turns them off.
pub const CCCD_SUBSCRIBE: u16 = 2;

/// Connection-parameter request issued for each admitted peer:
/// interval window, slave latency and supervision timeout.
pub const CONN_MIN_INTERVAL: u16 = 10;

pub const CONN_MAX_INTERVAL: u16 = 20;

pub const CONN_LATENCY: u16 = 0;

pub const CONN_TIMEOUT: u16 = 400;

/// Peer device address: six octets packed into the low 48 bits.
#[derive(Clone, Copy, PartialEq, Eq, Structural, Debug)]
pub struct PeerAddr(pub u64);

/// A 16-bit or 128-bit attribute identity.
#[derive(Clone, Copy, PartialEq, Eq, Structural, Debug)]
pub enum Uuid {
    Short(u16),
    Long(u128),
}

/// Access permissions requested for an attribute.
#[derive(Clone, Copy, PartialEq, Eq, Structural, Debug)]
pub struct AttrPermissions {
    pub read: bool,
    pub write: bool,
}

/// Declared capabilities of a characteristic.
#[derive(Clone, Copy, PartialEq, Eq, Structural, Debug)]
pub struct CharProperties {
    pub write: bool,
    pub indicate: bool,
}

/// Everything the stack needs to add one characteristic.
#[derive(Clone, Copy, PartialEq, Eq, Structural, Debug)]
pub struct CharacteristicDef {
    pub uuid: Uuid,
    pub permissions: AttrPermissions,
    pub properties: CharProperties,
    pub max_len: u16,
    /// The application, not the stack, answers writes to it.
    pub response_by_app: bool,
}

/// Everything the stack needs to add one descriptor.
#[derive(Clone, Copy, PartialEq, Eq, Structural, Debug)]
pub struct DescriptorDef {
    pub uuid: Uuid,
    pub permissions: AttrPermissions,
}

/// Identity under which the service is created.
#[derive(Clone, Copy, PartialEq, Eq, Structural, Debug)]
pub struct ServiceId {
    pub uuid: Uuid,
    pub inst_id: u8,
    pub is_primary: bool,
}

/// Advertising payload configuration.
#[derive(Clone, Copy, PartialEq, Eq, Debug)]
pub struct AdvConfig {
    pub include_name: bool,
    pub include_tx_power: bool,
    pub flag: u8,
    pub service_uuid: Option<Uuid>,
}

/// One entry of the connection table.
#[derive(Clone, Copy, PartialEq, Eq, Debug)]
pub struct Connection {
    pub peer: PeerAddr,
    pub conn_id: ConnId,
    pub subscribed: bool,
    pub mtu: Option<u16>,
}

/// The reusable buffer a prepared-write response is staged into.
#[derive(Clone, PartialEq, Eq, Debug)]
pub struct ResponseData {
    pub attr_handle: AttrHandle,
    pub auth_req: u8,
    pub offset: u16,
    pub value: Vec<u8>,
}

/// Session-level failures that callers must observe.
#[derive(Clone, Copy, PartialEq, Eq, Structural, Debug)]
pub enum ServerError {
    /// A stack outcome code other than success; aborts the operation it answered.
    OperationFailed { code: u8 },
    /// The write-response buffer could not hold the staged value.
    MalformedResponse,
    /// A confirmation arrived while no indication was awaiting one:
    /// the controller and the stack have desynchronized, which is fatal.
    UnexpectedConfirmation,
}

/// A command the session asks the driver to perform against the stack.
#[derive(Clone, PartialEq, Eq, Debug)]
pub enum Command {
    SetDeviceName { name: String },
    ConfigureAdvertising { config: AdvConfig },
    StartAdvertising,
    CreateService { gatt_if: GattInterface, service: ServiceId, num_handles: u16 },
    StartService { service_handle: AttrHandle },
    AddCharacteristic { service_handle: AttrHandle, characteristic: CharacteristicDef },
    AddDescriptor { service_handle: AttrHandle, descriptor: DescriptorDef },
    SendIndication { gatt_if: GattInterface, conn_id: ConnId, attr_handle: AttrHandle },
    SendResponse {
        gatt_if: GattInterface,
        conn_id: ConnId,
        trans_id: TransferId,
        status: u8,
        response: Option<ResponseData>,
    },
    SetConnectionParams {
        peer: PeerAddr,
        min_interval: u16,
        max_interval: u16,
        latency: u16,
        timeout: u16,
    },
}

/// A fact the session reports to the application code above it.
#[derive(Clone, Copy, PartialEq, Eq, Structural, Debug)]
pub enum Notification {
    /// A peer turned indications on.
    Subscribed { peer: PeerAddr },
    /// A peer turned indications off.
    Unsubscribed { peer: PeerAddr },
    /// A peer wrote to the receive characteristic; the bytes are the
    /// value of the write event this answers.
    Received { peer: PeerAddr, offset: u16, mtu: Option<u16> },
}

/// An event from the advertising / connection-parameter plane.
#[derive(Clone, Copy, PartialEq, Eq, Structural, Debug)]
pub enum GapEvent {
    AdvertisingConfigured { status: u8 },
    /// Any event of that plane the session does not act on.
    Other,
}

/// An event from the GATT server plane.
#[derive(Clone, PartialEq, Eq, Debug)]
pub enum GattServerEvent {
    AppRegistered { status: u8, app_id: u16 },
    ServiceCreated { status: u8, service_handle: AttrHandle },
    CharacteristicAdded { status: u8, attr_handle: AttrHandle, service_handle: AttrHandle, char_uuid: Uuid },
    DescriptorAdded { status: u8, attr_handle: AttrHandle, service_handle: AttrHandle, descr_uuid: Uuid },
    ServiceDeleted { status: u8, service_handle: AttrHandle },
    ServiceUnregistered { status: u8, service_handle: AttrHandle },
    MtuChanged { conn_id: ConnId, mtu: u16 },
    PeerConnected { conn_id: ConnId, addr: PeerAddr },
    PeerDisconnected { addr: PeerAddr },
    Write {
        conn_id: ConnId,
        trans_id: TransferId,
        addr: PeerAddr,
        handle: AttrHandle,
        offset: u16,
        need_rsp: bool,
        is_prep: bool,
        value: Vec<u8>,
    },
    Confirm { status: u8 },
}

/// Everything one server event produced: commands for the driver to
/// perform, and notifications for the application.
#[derive(Debug)]
pub struct ServerOutput {
    pub commands: Vec<Command>,
    pub notifications: Vec<Notification>,
}

} // verus!
