//! Indication flow controller: confirmed broadcast with one
//! server-wide confirmation slot.
//!
//! A broadcast round visits table positions in order. Each step either
//! issues the indication for the current position — taking the slot
//! until that peer's confirmation event arrives — or reports that the
//! slot is busy and the caller must wait for a confirmation before
//! retrying the same position, or reports the round complete. At most
//! one unconfirmed indication exists at any time; successive sends are
//! serialized by confirmation, not merely by issue order.
//!
//! The driver loop runs `indicate_step` for each position `0..capacity`,
//! performs the send it is told to, and on `AwaitConfirmation` blocks
//! until `confirm_indication` has cleared the slot.
//!
//! Only a confirmation event clears the slot. A peer that disconnects
//! while its indication is unconfirmed leaves the slot taken and the
//! broadcaster waiting; no timeout is defined here.

use vstd::prelude::*;

use crate::state::ServerState;
use crate::types::{AttrHandle, ConnId, GattInterface, PeerAddr, ServerError};

verus! {

/// What one step of a broadcast round decided.
#[derive(Clone, Copy, PartialEq, Eq, Structural, Debug)]
pub enum IndicateStep {
    /// The round is over: every connected peer has been visited, or
    /// the server lost its interface or indication handle meanwhile.
    Complete,
    /// Issue the indication to this peer now; the confirmation slot is
    /// taken until the peer confirms.
    Send { gatt_if: GattInterface, conn_id: ConnId, attr_handle: AttrHandle, peer: PeerAddr },
    /// Another indication still awaits confirmation: wait until the
    /// slot clears, then retry the same position.
    AwaitConfirmation,
}

impl ServerState {
    /// Decide the next move of a broadcast round at the given table
    /// position.
    ///
    /// A send is issued only while no indication awaits confirmation,
    /// and issuing one takes the slot for the addressed peer.
    pub fn indicate_step(&mut self, index: usize) -> (r: IndicateStep)
        requires
            old(self).wf(),
        ensures
            final(self).wf(),
            *final(self) == (ServerState { ind_pending: final(self).ind_pending, ..*old(self) }),
            ({
                let s = old(self).connections@;
                &&& s.len() <= index ==> *final(self) == *old(self) && r == IndicateStep::Complete
                &&& s.len() > index && (old(self).gatt_if is None || old(self).ind_handle is None)
                    ==> *final(self) == *old(self) && r == IndicateStep::Complete
                &&& s.len() > index && old(self).gatt_if is Some && old(self).ind_handle is Some
                    ==> {
                    if old(self).ind_pending is None {
                        &&& r == (IndicateStep::Send {
                            gatt_if: old(self).gatt_if->0,
                            conn_id: s[index as int].conn_id,
                            attr_handle: old(self).ind_handle->0,
                            peer: s[index as int].peer,
                        })
                        &&& final(self).ind_pending == Some(s[index as int].peer)
                    } else {
                        *final(self) == *old(self) && r == IndicateStep::AwaitConfirmation
                    }
                }
            }),
    {
        if index >= self.connections.len() {
            return IndicateStep::Complete;
        }
        let g = match self.gatt_if {
            Some(g) => g,
            None => {
                return IndicateStep::Complete;
            },
        };
        let h = match self.ind_handle {
            Some(h) => h,
            None => {
                return IndicateStep::Complete;
            },
        };
        if self.ind_pending.is_none() {
            let conn = self.connections.get(index);
            self.ind_pending = Some(conn.peer);
            IndicateStep::Send { gatt_if: g, conn_id: conn.conn_id, attr_handle: h, peer: conn.peer }
        } else {
            IndicateStep::AwaitConfirmation
        }
    }

    /// A confirmation event arrived: clear the confirmation slot so
    /// the broadcast may move to its next peer.
    ///
    /// With no indication pending, the confirmation answers a send the
    /// controller never issued — fatal desynchronization, reported as
    /// `UnexpectedConfirmation` and never ignored.
    pub fn confirm_indication(&mut self) -> (r: Result<(), ServerError>)
        requires
            old(self).wf(),
        ensures
            final(self).wf(),
            old(self).ind_pending is Some ==> r == Ok::<(), ServerError>(()) && *final(self)
                == (ServerState { ind_pending: None, ..*old(self) }),
            old(self).ind_pending is None ==> r == Err::<(), ServerError>(
                ServerError::UnexpectedConfirmation,
            ) && *final(self) == *old(self),
    {
        match self.ind_pending {
            Some(_) => {
                self.ind_pending = None;
                Ok(())
            },
            None => Err(ServerError::UnexpectedConfirmation),
        }
    }
}

} // verus!
