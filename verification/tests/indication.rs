use gatt_session::indicate::IndicateStep;
use gatt_session::state::ServerState;
use gatt_session::types::{GattServerEvent, PeerAddr, ServerError, Uuid, CCCD_UUID, IND_CHARACTERISTIC_UUID, RECV_CHARACTERISTIC_UUID};

const IF: u8 = 7;
const SVC: u16 = 40;
const IND: u16 = 42;

fn ready_server(capacity: usize) -> ServerState {
    let mut s = ServerState::new(capacity);
    s.on_gatts_event(IF, &GattServerEvent::AppRegistered { status: 0, app_id: 0 }).unwrap();
    s.on_gatts_event(IF, &GattServerEvent::ServiceCreated { status: 0, service_handle: SVC })
        .unwrap();
    s.on_gatts_event(
        IF,
        &GattServerEvent::CharacteristicAdded {
            status: 0,
            attr_handle: 41,
            service_handle: SVC,
            char_uuid: Uuid::Long(RECV_CHARACTERISTIC_UUID),
        },
    )
    .unwrap();
    s.on_gatts_event(
        IF,
        &GattServerEvent::CharacteristicAdded {
            status: 0,
            attr_handle: IND,
            service_handle: SVC,
            char_uuid: Uuid::Long(IND_CHARACTERISTIC_UUID),
        },
    )
    .unwrap();
    s.on_gatts_event(
        IF,
        &GattServerEvent::DescriptorAdded {
            status: 0,
            attr_handle: 43,
            service_handle: SVC,
            descr_uuid: Uuid::Short(CCCD_UUID),
        },
    )
    .unwrap();
    s
}

fn subscribe(s: &mut ServerState, conn_id: u16, addr: u64) {
    let ev = GattServerEvent::Write {
        conn_id,
        trans_id: 100,
        addr: PeerAddr(addr),
        handle: 43,
        offset: 0,
        need_rsp: false,
        is_prep: false,
        value: vec![0x02, 0x00],
    };
    s.on_gatts_event(IF, &ev).unwrap();
}

/// Drive one whole broadcast round the way the periodic driver does,
/// confirming each indication as the peer would. Returns the sends in
/// the order they were issued, with the step count it took.
fn run_round(s: &mut ServerState) -> (Vec<(u16, PeerAddr)>, usize) {
    let mut sends = Vec::new();
    let mut steps: usize = 0;
    let capacity = s.connections.capacity();
    for index in 0..capacity {
        loop {
            steps += 1;
            assert!(steps < 1000, "broadcast round does not terminate");
            match s.indicate_step(index) {
                IndicateStep::Complete => return (sends, steps),
                IndicateStep::Send { gatt_if, conn_id, attr_handle, peer } => {
                    assert_eq!(gatt_if, IF);
                    assert_eq!(attr_handle, IND);
                    sends.push((conn_id, peer));
                    break;
                },
                IndicateStep::AwaitConfirmation => {
                    // the peer's confirmation event arrives on the other plane
                    s.on_gatts_event(IF, &GattServerEvent::Confirm { status: 0 }).unwrap();
                },
            }
        }
    }
    (sends, steps)
}

#[test]
fn broadcast_sends_to_all_three_peers_serialized() {
    let mut s = ready_server(3);
    for (id, a) in [(1u16, 0xa1u64), (2, 0xa2), (3, 0xa3)] {
        s.create_conn(id, PeerAddr(a));
        subscribe(&mut s, id, a);
    }

    // first send takes the confirmation slot
    let step = s.indicate_step(0);
    assert_eq!(
        step,
        IndicateStep::Send { gatt_if: IF, conn_id: 1, attr_handle: IND, peer: PeerAddr(0xa1) }
    );
    // the second send is refused until a confirmation clears the slot
    assert_eq!(s.indicate_step(1), IndicateStep::AwaitConfirmation);
    assert_eq!(s.indicate_step(1), IndicateStep::AwaitConfirmation);
    s.on_gatts_event(IF, &GattServerEvent::Confirm { status: 0 }).unwrap();
    let step = s.indicate_step(1);
    assert_eq!(
        step,
        IndicateStep::Send { gatt_if: IF, conn_id: 2, attr_handle: IND, peer: PeerAddr(0xa2) }
    );
    s.on_gatts_event(IF, &GattServerEvent::Confirm { status: 0 }).unwrap();
    let step = s.indicate_step(2);
    assert_eq!(
        step,
        IndicateStep::Send { gatt_if: IF, conn_id: 3, attr_handle: IND, peer: PeerAddr(0xa3) }
    );
    s.on_gatts_event(IF, &GattServerEvent::Confirm { status: 0 }).unwrap();

    // a full round issues exactly three sends
    let (sends, _) = run_round(&mut s);
    assert_eq!(
        sends,
        vec![(1, PeerAddr(0xa1)), (2, PeerAddr(0xa2)), (3, PeerAddr(0xa3))]
    );
}

#[test]
fn round_stops_when_fewer_peers_than_capacity() {
    let mut s = ready_server(3);
    s.create_conn(1, PeerAddr(0xa1));
    subscribe(&mut s, 1, 0xa1);
    let (sends, _) = run_round(&mut s);
    assert_eq!(sends.len(), 1);
    // the round left the slot taken by the last send; confirm it
    s.on_gatts_event(IF, &GattServerEvent::Confirm { status: 0 }).unwrap();
    assert_eq!(s.ind_pending, None);
}

#[test]
fn round_is_empty_before_registration() {
    let mut s = ServerState::new(2);
    s.create_conn(1, PeerAddr(0xa1));
    assert_eq!(s.indicate_step(0), IndicateStep::Complete);
}

#[test]
fn round_stops_without_indication_handle() {
    let mut s = ready_server(2);
    s.create_conn(1, PeerAddr(0xa1));
    s.on_gatts_event(IF, &GattServerEvent::ServiceDeleted { status: 0, service_handle: SVC })
        .unwrap();
    assert_eq!(s.indicate_step(0), IndicateStep::Complete);
}

#[test]
fn unsubscribed_connected_peer_is_still_visited() {
    // the broadcast visits table positions; subscription gates nothing
    // here (an unsubscribed peer simply has no indications enabled on
    // the remote side)
    let mut s = ready_server(2);
    s.create_conn(1, PeerAddr(0xa1));
    let (sends, _) = run_round(&mut s);
    assert_eq!(sends.len(), 1);
}

#[test]
fn confirmation_without_pending_indication_is_fatal() {
    let mut s = ready_server(2);
    let r = s.on_gatts_event(IF, &GattServerEvent::Confirm { status: 0 });
    assert_eq!(r.unwrap_err(), ServerError::UnexpectedConfirmation);
}

#[test]
fn failed_confirmation_status_aborts_before_slot_clears() {
    let mut s = ready_server(2);
    s.create_conn(1, PeerAddr(0xa1));
    assert!(matches!(s.indicate_step(0), IndicateStep::Send { .. }));
    let r = s.on_gatts_event(IF, &GattServerEvent::Confirm { status: 6 });
    assert_eq!(r.unwrap_err(), ServerError::OperationFailed { code: 6 });
    // the slot is still taken
    assert_eq!(s.ind_pending, Some(PeerAddr(0xa1)));
}

#[test]
fn direct_confirm_clears_slot() {
    let mut s = ready_server(2);
    s.create_conn(1, PeerAddr(0xa1));
    assert!(matches!(s.indicate_step(0), IndicateStep::Send { .. }));
    assert_eq!(s.ind_pending, Some(PeerAddr(0xa1)));
    assert_eq!(s.confirm_indication(), Ok(()));
    assert_eq!(s.ind_pending, None);
    assert_eq!(s.confirm_indication(), Err(ServerError::UnexpectedConfirmation));
}
