//! Write request handler: interprets inbound writes against the
//! registered attribute handles.
//!
//! A two-byte little-endian write at offset zero to the configuration
//! descriptor turns the writer's indication subscription on (value
//! `CCCD_SUBSCRIBE`) or off (anything else); repeating a state is a
//! no-op and fires no duplicate notification. A write to the receive
//! characteristic is handed to the application. Anything else is not
//! handled. Answering a handled write is a separate step: a prepared
//! write stages its value into the reusable response buffer first.

use vstd::prelude::*;

use crate::connections::{conn_index_of, lemma_conn_index_of};
use crate::state::ServerState;
use crate::types::{
    AttrHandle, Command, ConnId, Connection, GattInterface, Notification, PeerAddr, ResponseData,
    ServerError, TransferId, CCCD_SUBSCRIBE, GATT_STATUS_OK, RESPONSE_MAX_LEN,
};

verus! {

/// The number a two-byte little-endian descriptor value encodes.
pub open spec fn le16(v: Seq<u8>) -> int {
    v[0] + 256 * v[1]
}

/// A well-formed descriptor write: whole value, exactly two bytes.
pub open spec fn cccd_payload_ok(offset: u16, v: Seq<u8>) -> bool {
    offset == 0 && v.len() == 2
}

/// Does this descriptor value ask for indications to be turned on?
pub open spec fn is_subscribe_value(v: Seq<u8>) -> bool {
    le16(v) == CCCD_SUBSCRIBE
}

/// What interpreting one write produced: whether the write was ours to
/// handle, and the notification owed to the application, if any.
#[derive(Clone, Copy, PartialEq, Eq, Structural, Debug)]
pub struct WriteOutcome {
    pub handled: bool,
    pub note: Option<Notification>,
}

/// Subscribing is idempotent. The subscribe branch of `handle_write`
/// turns entry `i` of the table into its subscribed form; in the table
/// it leaves behind, that entry is already subscribed, so a repeated
/// subscribe write takes the no-op branch of the contract — the state
/// stays as it is and no duplicate notification fires — and even
/// re-applying the transition itself changes nothing.
pub proof fn lemma_subscribe_idempotent(s: Seq<Connection>, i: int)
    requires
        0 <= i < s.len(),
    ensures
        ({
            let s1 = s.update(i, Connection { subscribed: true, ..s[i] });
            &&& s1[i].subscribed
            &&& s1.update(i, Connection { subscribed: true, ..s1[i] }) == s1
        }),
{
    let s1 = s.update(i, Connection { subscribed: true, ..s[i] });
    assert(s1.update(i, Connection { subscribed: true, ..s1[i] }) =~= s1);
}

/// Unsubscribing is idempotent, by the same argument: after the
/// unsubscribe branch ran once, the entry is unsubscribed and a
/// repeated write of the same value is a no-op with no notification.
pub proof fn lemma_unsubscribe_idempotent(s: Seq<Connection>, i: int)
    requires
        0 <= i < s.len(),
    ensures
        ({
            let s1 = s.update(i, Connection { subscribed: false, ..s[i] });
            &&& !s1[i].subscribed
            &&& s1.update(i, Connection { subscribed: false, ..s1[i] }) == s1
        }),
{
    let s1 = s.update(i, Connection { subscribed: false, ..s[i] });
    assert(s1.update(i, Connection { subscribed: false, ..s1[i] }) =~= s1);
}

/// An exact copy of a byte vector.
fn copy_bytes(src: &Vec<u8>) -> (r: Vec<u8>)
    ensures
        r@ == src@,
{
    let mut r: Vec<u8> = Vec::new();
    let n = src.len();
    let mut k: usize = 0;
    while k < n
        invariant
            k <= n,
            n == src@.len(),
            r@ == src@.subrange(0, k as int),
        decreases n - k,
    {
        r.push(src[k]);
        k += 1;
        proof {
            assert(r@ =~= src@.subrange(0, k as int));
        }
    }
    proof {
        assert(r@ =~= src@);
    }
    r
}

impl ServerState {
    /// Interpret one inbound write against the registered handles.
    ///
    /// A subscription flag flips — and its notification fires — exactly
    /// once per actual transition; a malformed descriptor write is
    /// ignored but still reported handled; a write from an unknown
    /// connection, or to an unknown handle, is not handled.
    pub fn handle_write(
        &mut self,
        conn_id: ConnId,
        addr: PeerAddr,
        handle: AttrHandle,
        offset: u16,
        value: &Vec<u8>,
    ) -> (r: WriteOutcome)
        requires
            old(self).wf(),
        ensures
            final(self).wf(),
            *final(self) == (ServerState { connections: final(self).connections, ..*old(self) }),
            final(self).connections.cap() == old(self).connections.cap(),
            ({
                let s = old(self).connections@;
                let i = conn_index_of(s, conn_id);
                &&& i < 0 ==> *final(self) == *old(self) && !r.handled && r.note is None
                &&& i >= 0 && old(self).ind_cccd_handle == Some(handle) ==> r.handled && {
                    if cccd_payload_ok(offset, value@) {
                        if is_subscribe_value(value@) && !s[i].subscribed {
                            &&& final(self).connections@ == s.update(
                                i,
                                Connection { subscribed: true, ..s[i] },
                            )
                            &&& r.note == Some(Notification::Subscribed { peer: s[i].peer })
                        } else if !is_subscribe_value(value@) && s[i].subscribed {
                            &&& final(self).connections@ == s.update(
                                i,
                                Connection { subscribed: false, ..s[i] },
                            )
                            &&& r.note == Some(Notification::Unsubscribed { peer: s[i].peer })
                        } else {
                            *final(self) == *old(self) && r.note is None
                        }
                    } else {
                        *final(self) == *old(self) && r.note is None
                    }
                }
                &&& i >= 0 && old(self).ind_cccd_handle != Some(handle) && old(self).recv_handle
                    == Some(handle) ==> *final(self) == *old(self) && r.handled && r.note == Some(
                    Notification::Received { peer: addr, offset, mtu: s[i].mtu },
                )
                &&& i >= 0 && old(self).ind_cccd_handle != Some(handle) && old(self).recv_handle
                    != Some(handle) ==> *final(self) == *old(self) && !r.handled && r.note is None
            }),
    {
        proof {
            lemma_conn_index_of(self.connections@, conn_id);
        }
        let found = self.connections.find_by_conn_id(conn_id);
        let i = match found {
            Some(i) => i,
            None => {
                return WriteOutcome { handled: false, note: None };
            },
        };
        let conn = self.connections.get(i);
        let cccd_match = match self.ind_cccd_handle {
            Some(h) => h == handle,
            None => false,
        };
        if cccd_match {
            if offset == 0 && value.len() == 2 {
                let v16: u16 = value[0] as u16 + (value[1] as u16) * 256;
                if v16 == CCCD_SUBSCRIBE {
                    if !conn.subscribed {
                        self.connections.set_subscribed(i, true);
                        return WriteOutcome {
                            handled: true,
                            note: Some(Notification::Subscribed { peer: conn.peer }),
                        };
                    }
                } else {
                    if conn.subscribed {
                        self.connections.set_subscribed(i, false);
                        return WriteOutcome {
                            handled: true,
                            note: Some(Notification::Unsubscribed { peer: conn.peer }),
                        };
                    }
                }
            }
            WriteOutcome { handled: true, note: None }
        } else {
            let recv_match = match self.recv_handle {
                Some(h) => h == handle,
                None => false,
            };
            if recv_match {
                WriteOutcome {
                    handled: true,
                    note: Some(Notification::Received { peer: addr, offset, mtu: conn.mtu }),
                }
            } else {
                WriteOutcome { handled: false, note: None }
            }
        }
    }

    /// Answer a handled write, when the writer asked for a response.
    ///
    /// A prepared (queued, offset-based) write stages its value into
    /// the reusable response buffer and the response carries that
    /// buffer; otherwise a bare success response is sent. A value too
    /// large for the buffer surfaces as an error, never a silent drop.
    pub fn send_write_response(
        &mut self,
        gatt_if: GattInterface,
        conn_id: ConnId,
        trans_id: TransferId,
        handle: AttrHandle,
        offset: u16,
        need_rsp: bool,
        is_prep: bool,
        value: &Vec<u8>,
    ) -> (r: Result<Option<Command>, ServerError>)
        requires
            old(self).wf(),
        ensures
            final(self).wf(),
            *final(self) == (ServerState { response: final(self).response, ..*old(self) }),
            !need_rsp ==> *final(self) == *old(self) && r == Ok::<Option<Command>, ServerError>(
                None,
            ),
            need_rsp && !is_prep ==> *final(self) == *old(self) && r == Ok::<
                Option<Command>,
                ServerError,
            >(
                Some(
                    Command::SendResponse {
                        gatt_if,
                        conn_id,
                        trans_id,
                        status: GATT_STATUS_OK,
                        response: None,
                    },
                ),
            ),
            need_rsp && is_prep && value@.len() > RESPONSE_MAX_LEN ==> *final(self) == *old(self)
                && r == Err::<Option<Command>, ServerError>(ServerError::MalformedResponse),
            need_rsp && is_prep && value@.len() <= RESPONSE_MAX_LEN ==> {
                &&& final(self).response.attr_handle == handle
                &&& final(self).response.auth_req == 0
                &&& final(self).response.offset == offset
                &&& final(self).response.value@ == value@
                &&& (r matches Ok(o) && o matches Some(cmd) && cmd matches Command::SendResponse {
                    gatt_if: g,
                    conn_id: c,
                    trans_id: t,
                    status,
                    response,
                } && g == gatt_if && c == conn_id && t == trans_id && status == GATT_STATUS_OK && (
                response matches Some(rd) && rd.attr_handle == handle && rd.auth_req == 0
                    && rd.offset == offset && rd.value@ == value@))
            },
    {
        if !need_rsp {
            return Ok(None);
        }
        if is_prep {
            if value.len() > RESPONSE_MAX_LEN {
                return Err(ServerError::MalformedResponse);
            }
            self.response.attr_handle = handle;
            self.response.auth_req = 0;
            self.response.offset = offset;
            self.response.value = copy_bytes(value);
            let staged = ResponseData {
                attr_handle: handle,
                auth_req: 0,
                offset,
                value: copy_bytes(value),
            };
            Ok(
                Some(
                    Command::SendResponse {
                        gatt_if,
                        conn_id,
                        trans_id,
                        status: GATT_STATUS_OK,
                        response: Some(staged),
                    },
                ),
            )
        } else {
            Ok(
                Some(
                    Command::SendResponse {
                        gatt_if,
                        conn_id,
                        trans_id,
                        status: GATT_STATUS_OK,
                        response: None,
                    },
                ),
            )
        }
    }
}

} // verus!
