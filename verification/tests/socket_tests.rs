use rs_utp::conn::{Action, Connection};
use rs_utp::packet::{Packet, PacketBuilder, PacketType};
use rs_utp::socket::{new_outgoing, SocketInner};

/// A peer address: IPv4 octets and port.
type Addr = ([u8; 4], u16);
type Table = SocketInner<Addr, u32>;

fn addr(port: u16) -> Addr {
    ([10, 0, 0, 1], port)
}

fn sent(action: Option<Action<u32>>) -> Packet {
    match action {
        Some(Action::Send(p)) => p,
        other => panic!("expected a packet to send, got {:?}", other),
    }
}

#[test]
fn test_syn_opens_passive_connection() {
    let mut table = Table::new();
    let syn = PacketBuilder::new(PacketType::Syn, 41, 0, 0, 5).build();
    let (action, accepted) = table.handle_packet(&syn, addr(9), 77);
    let syn_ack = sent(action);
    assert_eq!(syn_ack.packet_type(), PacketType::State);
    assert_eq!(syn_ack.conn_id(), 41);
    assert_eq!(syn_ack.ack_nr(), 5);
    assert_eq!(syn_ack.timestamp(), 77);
    let stream = accepted.unwrap();
    assert_eq!(stream.conn_id(), 42);
    assert_eq!(stream.peer_addr(), addr(9));
    assert!(table.contains(42));
    assert!(!table.contains(41));
}

#[test]
fn test_duplicate_syn_ignored() {
    let mut table = Table::new();
    let syn = PacketBuilder::new(PacketType::Syn, 41, 0, 0, 5).build();
    let _ = table.handle_packet(&syn, addr(9), 0);
    let (action, accepted) = table.handle_packet(&syn, addr(9), 0);
    assert!(action.is_none());
    assert!(accepted.is_none());
}

#[test]
fn test_unknown_connection_dropped() {
    let mut table = Table::new();
    let data = PacketBuilder::new(PacketType::Data, 5, 0, 0, 1).build();
    let (action, accepted) = table.handle_packet(&data, addr(1), 0);
    assert!(action.is_none());
    assert!(accepted.is_none());
    assert!(!table.contains(5));
}

#[test]
fn test_two_socket_handshake() {
    let mut client = Table::new();
    let mut server = Table::new();
    let (conn, syn) = Connection::new_active_with_seq(1000, addr(2), 99u32, 300, 1);
    client.insert(1000, conn);

    let (action, accepted) = server.handle_packet(&syn, addr(1), 2);
    let syn_ack = sent(action);
    let stream = accepted.unwrap();
    assert_eq!(stream.conn_id(), 1001);

    let (action, accepted) = client.handle_packet(&syn_ack, addr(2), 3);
    assert!(accepted.is_none());
    match action {
        Some(Action::ConnectSuccess(w)) => assert_eq!(w, 99),
        other => panic!("unexpected {:?}", other),
    }

    let (data, peer) = client.mock_data(1000, 4).unwrap();
    assert_eq!(peer, addr(2));
    assert_eq!(data.conn_id(), 1001);
    let (data2, _) = client.mock_data(1000, 5).unwrap();
    assert_eq!(data2.seq_nr(), 302);
    assert_eq!(data2.ack_nr(), syn_ack.seq_nr().wrapping_sub(1));
    let (action, _) = server.handle_packet(&data, addr(1), 5);
    let ack = sent(action);
    assert_eq!(ack.packet_type(), PacketType::State);
    assert_eq!(ack.ack_nr(), 301);
    assert_eq!(ack.conn_id(), 1000);
}

#[test]
fn test_zero_seq_syn_ack_routed() {
    let mut client = Table::new();
    let (conn, _syn) = Connection::new_active_with_seq(7, addr(2), 1u32, 300, 1);
    client.insert(7, conn);
    let syn_ack = PacketBuilder::new(PacketType::State, 7, 0, 0, 0).ack_nr(300).build();
    let (action, accepted) = client.handle_packet(&syn_ack, addr(2), 0);
    assert!(accepted.is_none());
    assert!(matches!(action, Some(Action::ConnectSuccess(1))));
    let (data, _) = client.mock_data(7, 1).unwrap();
    assert_eq!(data.ack_nr(), u16::MAX);
}

#[test]
fn test_syn_with_last_id_files_under_zero() {
    let mut table = Table::new();
    let syn = PacketBuilder::new(PacketType::Syn, u16::MAX, 0, 0, 5).build();
    let (action, accepted) = table.handle_packet(&syn, addr(9), 0);
    assert_eq!(sent(action).conn_id(), u16::MAX);
    assert_eq!(accepted.unwrap().conn_id(), 0);
    assert!(table.contains(0));
}

#[test]
fn test_mock_data_unknown_connection() {
    let mut table = Table::new();
    assert!(table.mock_data(3, 0).is_none());
}

#[test]
fn test_new_outgoing() {
    let (id, mut conn, syn) = new_outgoing(addr(4), 7u32, 9);
    assert_eq!(conn.conn_id_recv(), id);
    assert_eq!(conn.seq_nr(), syn.seq_nr().wrapping_add(1));
    assert_eq!(syn.packet_type(), PacketType::Syn);
    assert_eq!(syn.conn_id(), id);
    assert_eq!(syn.timestamp(), 9);
    assert_eq!(conn.peer_addr(), addr(4));
    assert_eq!(conn.mock_data(0).conn_id(), id.wrapping_add(1));
}
