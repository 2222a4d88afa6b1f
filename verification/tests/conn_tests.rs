use rs_utp::conn::{Action, Connection, State};
use rs_utp::packet::{Extension, PacketBuilder, PacketType, Version};

/// A peer address: IPv4 octets and port.
type Addr = ([u8; 4], u16);
type Conn = Connection<Addr, &'static str>;

fn addr(port: u16) -> Addr {
    ([127, 0, 0, 1], port)
}

#[test]
fn test_active_open_sends_syn() {
    let (conn, syn) = Conn::new_active_with_seq(100, addr(1), "w", 500, 1234);
    assert_eq!(syn.packet_type(), PacketType::Syn);
    assert_eq!(syn.version(), Version::V1);
    assert_eq!(syn.extension(), Extension::NoExtension);
    assert_eq!(syn.conn_id(), 100);
    assert_eq!(syn.seq_nr(), 500);
    assert_eq!(syn.ack_nr(), 0);
    assert_eq!(syn.timestamp(), 1234);
    assert_eq!(syn.wnd_size(), 0);
    assert!(syn.payload.is_empty());
    assert_eq!(conn.conn_id_recv(), 100);
    assert_eq!(conn.seq_nr(), 501);
    assert_eq!(conn.peer_addr(), addr(1));
}

#[test]
fn test_active_open_random() {
    let (mut conn, syn) = Conn::new_active(7, addr(2), "w", 1);
    assert_eq!(syn.packet_type(), PacketType::Syn);
    assert_eq!(syn.conn_id(), 7);
    assert_eq!(conn.seq_nr(), syn.seq_nr().wrapping_add(1));
    let data = conn.mock_data(2);
    assert_eq!(data.conn_id(), 8);
}

#[test]
fn test_passive_open_sends_syn_ack() {
    let syn = PacketBuilder::new(PacketType::Syn, 300, 0, 0, 40).build();
    let (conn, syn_ack) = Conn::new_passive_with_seq(&syn, addr(3), 900, 55);
    assert_eq!(conn.conn_id_recv(), 301);
    assert_eq!(syn_ack.packet_type(), PacketType::State);
    assert_eq!(syn_ack.conn_id(), 300);
    assert_eq!(syn_ack.seq_nr(), 900);
    assert_eq!(syn_ack.ack_nr(), 40);
    assert_eq!(syn_ack.timestamp(), 55);
    assert_eq!(conn.seq_nr(), 900);
}

#[test]
fn test_passive_open_wraps_recv_id() {
    let syn = PacketBuilder::new(PacketType::Syn, u16::MAX, 0, 0, 1).build();
    let (conn, syn_ack) = Conn::new_passive(&syn, addr(3), 0);
    assert_eq!(conn.conn_id_recv(), 0);
    assert_eq!(syn_ack.conn_id(), u16::MAX);
    assert_eq!(syn_ack.seq_nr(), conn.seq_nr());
}

#[test]
fn test_full_handshake() {
    let (mut active, syn) = Conn::new_active_with_seq(10, addr(1), "waiter", 200, 1);
    let (mut passive, syn_ack) = Conn::new_passive_with_seq(&syn, addr(2), 700, 2);
    assert!(active.answers_syn(&syn_ack));
    match active.on_packet(&syn_ack, 3) {
        Some(Action::ConnectSuccess(w)) => assert_eq!(w, "waiter"),
        other => panic!("unexpected {:?}", other),
    }
    assert!(!active.answers_syn(&syn_ack));
    // a second SYN-ACK changes nothing
    assert!(active.on_packet(&syn_ack, 3).is_none());

    let data = active.mock_data(4);
    assert_eq!(data.packet_type(), PacketType::Data);
    assert_eq!(data.conn_id(), passive.conn_id_recv());
    assert_eq!(data.seq_nr(), 201);
    assert_eq!(data.ack_nr(), 699);
    assert_eq!(active.seq_nr(), 202);

    match passive.on_packet(&data, 5) {
        Some(Action::Send(ack)) => {
            assert_eq!(ack.packet_type(), PacketType::State);
            assert_eq!(ack.conn_id(), 10);
            assert_eq!(ack.seq_nr(), 700);
            assert_eq!(ack.ack_nr(), 201);
            assert_eq!(ack.timestamp(), 5);
            assert!(ack.payload.is_empty());
        }
        other => panic!("unexpected {:?}", other),
    }
}

#[test]
fn test_connecting_ignores_other_packets() {
    let (mut active, _syn) = Conn::new_active_with_seq(10, addr(1), "w", 200, 1);
    let wrong_ack = PacketBuilder::new(PacketType::State, 10, 0, 0, 5).ack_nr(199).build();
    assert!(active.on_packet(&wrong_ack, 0).is_none());
    let data = PacketBuilder::new(PacketType::Data, 10, 0, 0, 5).ack_nr(200).build();
    assert!(active.on_packet(&data, 0).is_none());
    assert!(active.answers_syn(&PacketBuilder::new(PacketType::State, 10, 0, 0, 5).ack_nr(200).build()));
}

#[test]
fn test_connected_ignores_non_data() {
    let syn = PacketBuilder::new(PacketType::Syn, 1, 0, 0, 1).build();
    let (mut passive, _) = Conn::new_passive_with_seq(&syn, addr(2), 9, 0);
    for t in [PacketType::Fin, PacketType::State, PacketType::Reset, PacketType::Syn] {
        assert!(passive.on_packet(&PacketBuilder::new(t, 2, 0, 0, 3).build(), 0).is_none());
    }
}

#[test]
fn test_state_default_is_closed() {
    let s: State<u8> = State::default();
    assert!(matches!(s, State::Closed));
}

#[test]
fn test_active_open_wraps() {
    let (mut conn, syn) = Conn::new_active_with_seq(u16::MAX, addr(1), "w", u16::MAX, 0);
    assert_eq!(syn.seq_nr(), u16::MAX);
    assert_eq!(syn.conn_id(), u16::MAX);
    assert_eq!(conn.seq_nr(), 0);
    let data = conn.mock_data(1);
    assert_eq!(data.conn_id(), 0);
    assert_eq!(data.seq_nr(), 0);
    assert_eq!(conn.seq_nr(), 1);
}

#[test]
fn test_syn_ack_with_zero_seq_wraps_ack() {
    let (mut active, _syn) = Conn::new_active_with_seq(10, addr(1), "w", 200, 1);
    let syn_ack = PacketBuilder::new(PacketType::State, 10, 0, 0, 0).ack_nr(200).build();
    assert!(matches!(active.on_packet(&syn_ack, 0), Some(Action::ConnectSuccess("w"))));
    let data = active.mock_data(2);
    assert_eq!(data.ack_nr(), u16::MAX);
}

#[test]
fn test_mock_data_wraps_seq() {
    let (mut active, _syn) = Conn::new_active_with_seq(10, addr(1), "w", u16::MAX - 1, 1);
    assert_eq!(active.seq_nr(), u16::MAX);
    assert_eq!(active.mock_data(2).seq_nr(), u16::MAX);
    assert_eq!(active.mock_data(3).seq_nr(), 0);
    assert_eq!(active.seq_nr(), 1);
}
