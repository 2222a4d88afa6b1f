use bytes::Bytes;
use rs_utp::buffer::RecvBuffer;

fn b(x: u8) -> Bytes {
    Bytes::from(vec![x, x])
}

fn drain_all(buf: &mut RecvBuffer) -> Vec<Bytes> {
    let mut out = Vec::new();
    while let Some(p) = buf.pop_readable() {
        out.push(p);
    }
    out
}

#[test]
fn test_in_order_insert() {
    let mut buf = RecvBuffer::new(10);
    assert_eq!(buf.ack_nr(), 9);
    buf.insert(10, b(1));
    buf.insert(11, b(2));
    assert_eq!(buf.ack_nr(), 11);
    assert_eq!(drain_all(&mut buf), vec![b(1), b(2)]);
    assert!(buf.pop_readable().is_none());
}

#[test]
fn test_out_of_order_insert_is_reassembled() {
    let mut buf = RecvBuffer::new(100);
    buf.insert(102, b(3));
    buf.insert(101, b(2));
    assert!(buf.pop_readable().is_none());
    assert_eq!(buf.ack_nr(), 99);
    buf.insert(100, b(1));
    assert_eq!(buf.ack_nr(), 102);
    assert_eq!(drain_all(&mut buf), vec![b(1), b(2), b(3)]);
}

#[test]
fn test_gap_stops_delivery() {
    let mut buf = RecvBuffer::new(0);
    buf.insert(2, b(3));
    buf.insert(0, b(1));
    assert_eq!(buf.ack_nr(), 0);
    assert_eq!(drain_all(&mut buf), vec![b(1)]);
    buf.insert(1, b(2));
    assert_eq!(buf.ack_nr(), 2);
    assert_eq!(drain_all(&mut buf), vec![b(2), b(3)]);
}

#[test]
fn test_stale_and_empty_payloads_ignored() {
    let mut buf = RecvBuffer::new(50);
    buf.insert(49, b(9));
    buf.insert(50, Bytes::new());
    assert!(buf.pop_readable().is_none());
    assert_eq!(buf.ack_nr(), 49);
    buf.insert(50, b(1));
    buf.insert(50, b(7));
    assert_eq!(buf.ack_nr(), 50);
    assert_eq!(drain_all(&mut buf), vec![b(1)]);
}

#[test]
fn test_later_duplicate_replaces_pending() {
    let mut buf = RecvBuffer::new(1);
    buf.insert(2, b(5));
    buf.insert(2, b(6));
    buf.insert(1, b(4));
    assert_eq!(drain_all(&mut buf), vec![b(4), b(6)]);
}

#[test]
fn test_wrap_around_sequence_numbers() {
    let mut buf = RecvBuffer::new(65534);
    buf.insert(0, b(3));
    buf.insert(65535, b(2));
    buf.insert(65534, b(1));
    assert_eq!(buf.ack_nr(), 0);
    assert_eq!(drain_all(&mut buf), vec![b(1), b(2), b(3)]);
    buf.insert(1, b(4));
    assert_eq!(drain_all(&mut buf), vec![b(4)]);
}

#[test]
fn test_half_ring_ahead_is_kept_beyond_dropped() {
    let mut buf = RecvBuffer::new(0);
    // exactly half the ring ahead: still kept
    buf.insert(0x8000, b(1));
    // more than half ahead counts as behind: dropped
    buf.insert(0x8001, b(2));
    let mut seq: u16 = 0;
    while seq < 0x8000 {
        buf.insert(seq, b(0));
        seq += 1;
    }
    let all = drain_all(&mut buf);
    assert_eq!(all.len(), 0x8001);
    assert_eq!(all[0x8000], b(1));
    assert_eq!(buf.ack_nr(), 0x8000);
}

#[test]
fn test_ack_nr_of_fresh_buffer_wraps() {
    let buf = RecvBuffer::new(0);
    assert_eq!(buf.ack_nr(), 65535);
}
