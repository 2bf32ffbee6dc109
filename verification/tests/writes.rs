use gatt_session::state::ServerState;
use gatt_session::types::{
    Command, GattServerEvent, Notification, PeerAddr, ServerError, Uuid, CCCD_UUID,
    IND_CHARACTERISTIC_UUID, RECV_CHARACTERISTIC_UUID, RESPONSE_MAX_LEN,
};

const IF: u8 = 7;
const SVC: u16 = 40;
const RECV: u16 = 41;
const IND: u16 = 42;
const CCCD: u16 = 43;

fn ready_server(capacity: usize) -> ServerState {
    let mut s = ServerState::new(capacity);
    s.on_gatts_event(IF, &GattServerEvent::AppRegistered { status: 0, app_id: 0 }).unwrap();
    s.on_gatts_event(IF, &GattServerEvent::ServiceCreated { status: 0, service_handle: SVC })
        .unwrap();
    s.on_gatts_event(
        IF,
        &GattServerEvent::CharacteristicAdded {
            status: 0,
            attr_handle: RECV,
            service_handle: SVC,
            char_uuid: Uuid::Long(RECV_CHARACTERISTIC_UUID),
        },
    )
    .unwrap();
    s.on_gatts_event(
        IF,
        &GattServerEvent::CharacteristicAdded {
            status: 0,
            attr_handle: IND,
            service_handle: SVC,
            char_uuid: Uuid::Long(IND_CHARACTERISTIC_UUID),
        },
    )
    .unwrap();
    s.on_gatts_event(
        IF,
        &GattServerEvent::DescriptorAdded {
            status: 0,
            attr_handle: CCCD,
            service_handle: SVC,
            descr_uuid: Uuid::Short(CCCD_UUID),
        },
    )
    .unwrap();
    s
}

fn cccd_write(conn_id: u16, addr: u64, value: Vec<u8>, offset: u16) -> GattServerEvent {
    GattServerEvent::Write {
        conn_id,
        trans_id: 100,
        addr: PeerAddr(addr),
        handle: CCCD,
        offset,
        need_rsp: false,
        is_prep: false,
        value,
    }
}

#[test]
fn subscribe_transitions_exactly_once() {
    let mut s = ready_server(2);
    s.create_conn(1, PeerAddr(0xa1));

    let out = s.on_gatts_event(IF, &cccd_write(1, 0xa1, vec![0x02, 0x00], 0)).unwrap();
    assert_eq!(out.notifications, vec![Notification::Subscribed { peer: PeerAddr(0xa1) }]);
    assert!(s.connections.get(0).subscribed);

    let out = s.on_gatts_event(IF, &cccd_write(1, 0xa1, vec![0x02, 0x00], 0)).unwrap();
    assert!(out.notifications.is_empty());
    assert!(s.connections.get(0).subscribed);
}

#[test]
fn unsubscribe_transitions_exactly_once() {
    let mut s = ready_server(2);
    s.create_conn(1, PeerAddr(0xa1));
    s.on_gatts_event(IF, &cccd_write(1, 0xa1, vec![0x02, 0x00], 0)).unwrap();

    let out = s.on_gatts_event(IF, &cccd_write(1, 0xa1, vec![0x00, 0x00], 0)).unwrap();
    assert_eq!(out.notifications, vec![Notification::Unsubscribed { peer: PeerAddr(0xa1) }]);
    assert!(!s.connections.get(0).subscribed);

    let out = s.on_gatts_event(IF, &cccd_write(1, 0xa1, vec![0x00, 0x00], 0)).unwrap();
    assert!(out.notifications.is_empty());
    assert!(!s.connections.get(0).subscribed);
}

#[test]
fn any_other_value_means_unsubscribe() {
    let mut s = ready_server(2);
    s.create_conn(1, PeerAddr(0xa1));
    s.on_gatts_event(IF, &cccd_write(1, 0xa1, vec![0x02, 0x00], 0)).unwrap();
    // little-endian 0x0102 is not the subscribe value
    let out = s.on_gatts_event(IF, &cccd_write(1, 0xa1, vec![0x02, 0x01], 0)).unwrap();
    assert_eq!(out.notifications, vec![Notification::Unsubscribed { peer: PeerAddr(0xa1) }]);
    assert!(!s.connections.get(0).subscribed);
}

#[test]
fn malformed_cccd_write_is_ignored_but_handled() {
    let mut s = ready_server(2);
    s.create_conn(1, PeerAddr(0xa1));

    // wrong offset
    let ev = GattServerEvent::Write {
        conn_id: 1,
        trans_id: 100,
        addr: PeerAddr(0xa1),
        handle: CCCD,
        offset: 1,
        need_rsp: true,
        is_prep: false,
        value: vec![0x02, 0x00],
    };
    let out = s.on_gatts_event(IF, &ev).unwrap();
    assert!(out.notifications.is_empty());
    assert!(!s.connections.get(0).subscribed);
    // handled: a response is still sent
    assert_eq!(out.commands.len(), 1);

    // wrong length
    let out = s.on_gatts_event(IF, &cccd_write(1, 0xa1, vec![0x02], 0)).unwrap();
    assert!(out.notifications.is_empty());
    let out = s.on_gatts_event(IF, &cccd_write(1, 0xa1, vec![0x02, 0x00, 0x00], 0)).unwrap();
    assert!(out.notifications.is_empty());
    assert!(!s.connections.get(0).subscribed);
}

#[test]
fn recv_write_is_forwarded_with_mtu() {
    let mut s = ready_server(2);
    s.create_conn(1, PeerAddr(0xa1));
    s.on_gatts_event(IF, &GattServerEvent::MtuChanged { conn_id: 1, mtu: 185 }).unwrap();
    let ev = GattServerEvent::Write {
        conn_id: 1,
        trans_id: 101,
        addr: PeerAddr(0xa1),
        handle: RECV,
        offset: 4,
        need_rsp: false,
        is_prep: false,
        value: vec![9, 8, 7],
    };
    let out = s.on_gatts_event(IF, &ev).unwrap();
    assert_eq!(
        out.notifications,
        vec![Notification::Received { peer: PeerAddr(0xa1), offset: 4, mtu: Some(185) }]
    );
    assert!(out.commands.is_empty());
}

#[test]
fn write_from_unknown_connection_is_unhandled() {
    let mut s = ready_server(2);
    let out = s.on_gatts_event(IF, &cccd_write(9, 0xa1, vec![0x02, 0x00], 0)).unwrap();
    assert!(out.notifications.is_empty());
    assert!(out.commands.is_empty());
}

#[test]
fn write_to_unknown_handle_is_unhandled() {
    let mut s = ready_server(2);
    s.create_conn(1, PeerAddr(0xa1));
    let ev = GattServerEvent::Write {
        conn_id: 1,
        trans_id: 102,
        addr: PeerAddr(0xa1),
        handle: 250,
        offset: 0,
        need_rsp: true,
        is_prep: false,
        value: vec![1],
    };
    let out = s.on_gatts_event(IF, &ev).unwrap();
    assert!(out.notifications.is_empty());
    // not handled, so no response either
    assert!(out.commands.is_empty());
}

#[test]
fn plain_write_gets_bare_success_response() {
    let mut s = ready_server(2);
    s.create_conn(1, PeerAddr(0xa1));
    let ev = GattServerEvent::Write {
        conn_id: 1,
        trans_id: 103,
        addr: PeerAddr(0xa1),
        handle: RECV,
        offset: 0,
        need_rsp: true,
        is_prep: false,
        value: vec![5, 6],
    };
    let out = s.on_gatts_event(IF, &ev).unwrap();
    assert_eq!(out.commands.len(), 1);
    match &out.commands[0] {
        Command::SendResponse { gatt_if, conn_id, trans_id, status, response } => {
            assert_eq!(*gatt_if, IF);
            assert_eq!(*conn_id, 1);
            assert_eq!(*trans_id, 103);
            assert_eq!(*status, 0);
            assert!(response.is_none());
        },
        other => panic!("expected a write response, got {:?}", other),
    }
}

#[test]
fn prepared_write_response_carries_staged_buffer() {
    let mut s = ready_server(2);
    s.create_conn(1, PeerAddr(0xa1));
    let ev = GattServerEvent::Write {
        conn_id: 1,
        trans_id: 104,
        addr: PeerAddr(0xa1),
        handle: RECV,
        offset: 16,
        need_rsp: true,
        is_prep: true,
        value: vec![0xde, 0xad, 0xbe],
    };
    let out = s.on_gatts_event(IF, &ev).unwrap();
    assert_eq!(out.commands.len(), 1);
    match &out.commands[0] {
        Command::SendResponse { response: Some(rd), .. } => {
            assert_eq!(rd.attr_handle, RECV);
            assert_eq!(rd.auth_req, 0);
            assert_eq!(rd.offset, 16);
            assert_eq!(rd.value, vec![0xde, 0xad, 0xbe]);
        },
        other => panic!("expected a buffered response, got {:?}", other),
    }
    // the reusable buffer holds the staged value as well
    assert_eq!(s.response.attr_handle, RECV);
    assert_eq!(s.response.offset, 16);
    assert_eq!(s.response.value, vec![0xde, 0xad, 0xbe]);
}

#[test]
fn no_response_when_none_requested() {
    let mut s = ready_server(2);
    s.create_conn(1, PeerAddr(0xa1));
    let out = s.on_gatts_event(IF, &cccd_write(1, 0xa1, vec![0x02, 0x00], 0)).unwrap();
    assert!(out.commands.is_empty());
}

#[test]
fn oversized_prepared_value_is_an_error() {
    let mut s = ready_server(2);
    s.create_conn(1, PeerAddr(0xa1));
    let ev = GattServerEvent::Write {
        conn_id: 1,
        trans_id: 105,
        addr: PeerAddr(0xa1),
        handle: RECV,
        offset: 0,
        need_rsp: true,
        is_prep: true,
        value: vec![0u8; RESPONSE_MAX_LEN + 1],
    };
    let r = s.on_gatts_event(IF, &ev);
    assert_eq!(r.unwrap_err(), ServerError::MalformedResponse);
    // the buffer was not clobbered
    assert!(s.response.value.is_empty());
}

#[test]
fn direct_write_handler_reports_handled() {
    let mut s = ready_server(2);
    s.create_conn(1, PeerAddr(0xa1));
    let v = vec![0x02, 0x00];
    let r = s.handle_write(1, PeerAddr(0xa1), CCCD, 0, &v);
    assert!(r.handled);
    assert_eq!(r.note, Some(Notification::Subscribed { peer: PeerAddr(0xa1) }));
    let r = s.handle_write(1, PeerAddr(0xa1), 250, 0, &v);
    assert!(!r.handled);
    assert_eq!(r.note, None);
}
