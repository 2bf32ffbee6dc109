//! The one exclusively-owned state record of the session.
//!
//! Created once at startup with every handle unknown and the table
//! empty; handles are learned through confirmation events and cleared
//! again when the service is deleted or unregistered.

use vstd::prelude::*;

use crate::connections::ConnectionTable;
use crate::types::{AttrHandle, Connection, GattInterface, PeerAddr, ResponseData};

verus! {

/// Shared protected state of the GATT server session.
pub struct ServerState {
    /// Interface handle, valid only after app registration.
    pub gatt_if: Option<GattInterface>,
    /// Handle of the one primary service.
    pub service_handle: Option<AttrHandle>,
    /// Handle of the receive characteristic.
    pub recv_handle: Option<AttrHandle>,
    /// Handle of the indicate characteristic.
    pub ind_handle: Option<AttrHandle>,
    /// Handle of the client characteristic configuration descriptor.
    pub ind_cccd_handle: Option<AttrHandle>,
    /// Bounded registry of connected peers.
    pub connections: ConnectionTable,
    /// Reusable scratch buffer for prepared-write responses.
    pub response: ResponseData,
    /// Identity of the one peer whose indication still awaits
    /// confirmation, or none: the server-wide confirmation slot.
    pub ind_pending: Option<PeerAddr>,
}

impl ServerState {
    /// The session invariant: the connection table honours its bound.
    pub open spec fn wf(&self) -> bool {
        self.connections.wf()
    }

    /// Fresh session state: no handles, no peers, nothing pending.
    pub fn new(max_connections: usize) -> (s: Self)
        ensures
            s.wf(),
            s.gatt_if is None,
            s.service_handle is None,
            s.recv_handle is None,
            s.ind_handle is None,
            s.ind_cccd_handle is None,
            s.connections@ == Seq::<Connection>::empty(),
            s.connections.cap() == max_connections as int,
            s.response.attr_handle == 0,
            s.response.auth_req == 0,
            s.response.offset == 0,
            s.response.value@ == Seq::<u8>::empty(),
            s.ind_pending is None,
    {
        ServerState {
            gatt_if: None,
            service_handle: None,
            recv_handle: None,
            ind_handle: None,
            ind_cccd_handle: None,
            connections: ConnectionTable::new(max_connections),
            response: ResponseData { attr_handle: 0, auth_req: 0, offset: 0, value: Vec::new() },
            ind_pending: None,
        }
    }
}

} // verus!
