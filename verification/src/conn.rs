//! The per-connection handshake state machine.
//!
//! The active side sends `ST_SYN` and waits in `Connecting` until the
//! matching `ST_STATE` (SYN-ACK) arrives.  The passive side answers a `ST_SYN`
//! with a `ST_STATE` and is connected at once, but unconfirmed until the first
//! `ST_DATA` arrives.
//!
//! The connection does no I/O: every packet it produces is handed back, and a
//! connect waiter (`W`) is handed back when the handshake completes.  The peer
//! address (`A`) is carried along untouched.
use vstd::prelude::*;

use crate::packet::{
    bytes_view, Extension, Packet, PacketBuilder, PacketHeader, PacketType, Version,
};

verus! {

/// `rand::random::<u16>()`: a uniformly random `u16`; nothing is known of the
/// value.
#[verifier::external_body]
pub(crate) fn random_u16() -> u16 {
    rand::random::<u16>()
}

/// What the owner of a connection has to do after feeding it a packet.
#[derive(Debug)]
pub enum Action<W> {
    /// Send this packet to the peer.
    Send(Packet),
    /// The handshake completed: wake this connect waiter.
    ConnectSuccess(W),
}

/// Connection state.
///
/// 1. The active side sets `Connecting` once it has sent its SYN.
/// 2. The active side becomes `Connected { is_confirm: true }` on the SYN-ACK.
/// 3. The passive side starts `Connected { is_confirm: false }` once it has
///    sent its SYN-ACK, and becomes confirmed on the first `ST_DATA`.
pub enum State<W> {
    Connecting { seq_nr: u16, waiter: Option<W> },
    Connected { is_confirm: bool },
    Closed,
}

impl<W> Default for State<W> {
    fn default() -> (s: Self)
        ensures
            s is Closed,
    {
        State::Closed
    }
}

/// The header of a payload-less packet that a connection sends.
pub open spec fn control_header(
    packet_type: PacketType,
    conn_id: u16,
    timestamp: u32,
    seq_nr: u16,
    ack_nr: u16,
) -> PacketHeader {
    PacketHeader {
        packet_type,
        version: Version::V1,
        extension: Extension::NoExtension,
        conn_id,
        timestamp,
        timestamp_diff: 0,
        wnd_size: 0,
        seq_nr,
        ack_nr,
    }
}

/// `p` is the payload-less packet with header `h`.
pub open spec fn is_control_packet(p: Packet, h: PacketHeader) -> bool {
    p.header == h && bytes_view(p.payload).len() == 0
}

/// The abstract state of a connection.
pub struct ConnectionView<A, W> {
    pub state: State<W>,
    /// Connection id carried by packets from the peer.
    pub conn_id_recv: u16,
    /// Connection id put on packets sent to the peer.
    pub conn_id_send: u16,
    /// Sequence number of the next packet sent.
    pub seq_nr: u16,
    /// Last sequence number received from the peer.
    pub ack_nr: u16,
    pub peer_addr: A,
}

/// `x + 1` on the 16-bit ring: sequence numbers and ids wrap from 65535 to 0.
pub open spec fn succ16(x: u16) -> u16 {
    vstd::wrapping::u16_specs::wrapping_add(x, 1)
}

/// `x - 1` on the 16-bit ring.
pub open spec fn pred16(x: u16) -> u16 {
    vstd::wrapping::u16_specs::wrapping_sub(x, 1)
}

/// `pkt` is the SYN-ACK that a connecting connection waits for: a `ST_STATE`
/// acknowledging its SYN.
pub open spec fn answers_syn<W>(state: State<W>, pkt: PacketHeader) -> bool {
    &&& state matches State::Connecting { seq_nr, .. }
    &&& pkt.packet_type == PacketType::State
    &&& pkt.ack_nr == seq_nr
}

/// The connection that an active open with initial sequence number `seq_nr`
/// creates, once its SYN is out.
pub open spec fn active_open<A, W>(conn_id: u16, peer_addr: A, waiter: W, seq_nr: u16) -> ConnectionView<A, W> {
    ConnectionView {
        state: State::Connecting { seq_nr, waiter: Some(waiter) },
        conn_id_recv: conn_id,
        conn_id_send: succ16(conn_id),
        seq_nr: succ16(seq_nr),
        ack_nr: 0,
        peer_addr,
    }
}

/// The connection that a passive open on the SYN header `syn` creates, with
/// initial sequence number `seq_nr`.
pub open spec fn passive_open<A, W>(syn: PacketHeader, addr: A, seq_nr: u16) -> ConnectionView<A, W> {
    ConnectionView {
        state: State::Connected { is_confirm: false },
        conn_id_recv: succ16(syn.conn_id),
        conn_id_send: syn.conn_id,
        seq_nr,
        ack_nr: syn.seq_nr,
        peer_addr: addr,
    }
}

/// The state a connection moves to on receiving a packet with header `pkt`.
pub open spec fn next_view<A, W>(v: ConnectionView<A, W>, pkt: PacketHeader) -> ConnectionView<A, W> {
    if answers_syn(v.state, pkt) {
        ConnectionView {
            state: State::Connected { is_confirm: true },
            ack_nr: pred16(pkt.seq_nr),
            ..v
        }
    } else if v.state is Connected && pkt.packet_type == PacketType::Data {
        ConnectionView { state: State::Connected { is_confirm: true }, ack_nr: pkt.seq_nr, ..v }
    } else {
        v
    }
}

/// The header of the acknowledgement a connection in state `v` sends for a
/// `ST_DATA` packet with header `pkt`.
pub open spec fn data_ack_header<A, W>(v: ConnectionView<A, W>, pkt: PacketHeader, timestamp: u32) -> PacketHeader {
    control_header(PacketType::State, v.conn_id_send, timestamp, v.seq_nr, pkt.seq_nr)
}

/// `r` is what a connection in state `v` hands back on receiving `pkt`: the
/// waiter when the handshake completes, an acknowledgement for data, else
/// nothing.
pub open spec fn on_packet_action<A, W>(
    v: ConnectionView<A, W>,
    pkt: PacketHeader,
    timestamp: u32,
    r: Option<Action<W>>,
) -> bool {
    if answers_syn(v.state, pkt) {
        r == match v.state {
            State::Connecting { waiter: Some(w), .. } => Some(Action::ConnectSuccess(w)),
            _ => None::<Action<W>>,
        }
    } else if v.state is Connected && pkt.packet_type == PacketType::Data {
        r matches Some(Action::Send(ack)) && is_control_packet(ack, data_ack_header(v, pkt, timestamp))
    } else {
        r is None
    }
}

pub struct Connection<A, W> {
    state: State<W>,
    conn_id_recv: u16,
    conn_id_send: u16,
    seq_nr: u16,
    ack_nr: u16,
    peer_addr: A,
}

impl<A, W> View for Connection<A, W> {
    type V = ConnectionView<A, W>;

    closed spec fn view(&self) -> ConnectionView<A, W> {
        ConnectionView {
            state: self.state,
            conn_id_recv: self.conn_id_recv,
            conn_id_send: self.conn_id_send,
            seq_nr: self.seq_nr,
            ack_nr: self.ack_nr,
            peer_addr: self.peer_addr,
        }
    }
}

impl<A, W> Connection<A, W> {
    pub fn conn_id_recv(&self) -> (r: u16)
        ensures
            r == self@.conn_id_recv,
    {
        self.conn_id_recv
    }

    /// Sequence number that the next packet sent will carry.
    pub fn seq_nr(&self) -> (r: u16)
        ensures
            r == self@.seq_nr,
    {
        self.seq_nr
    }

    /// Active open with the initial sequence number `seq_nr`: the connection
    /// waits for the SYN-ACK, and the SYN to send is returned with it.  The
    /// send id is the receive id plus one and the SYN uses up `seq_nr`, both
    /// wrapping from 65535 to 0.
    pub fn new_active_with_seq(
        conn_id: u16,
        peer_addr: A,
        waiter: W,
        seq_nr: u16,
        timestamp: u32,
    ) -> (r: (Self, Packet))
        ensures
            r.0@ == active_open(conn_id, peer_addr, waiter, seq_nr),
            is_control_packet(r.1, control_header(PacketType::Syn, conn_id, timestamp, seq_nr, 0)),
    {
        let mut conn = Connection {
            state: State::Connecting { seq_nr, waiter: Some(waiter) },
            conn_id_recv: conn_id,
            conn_id_send: conn_id.wrapping_add(1),
            seq_nr,
            ack_nr: 0,
            peer_addr,
        };
        let syn = conn.syn(timestamp);
        (conn, syn)
    }

    /// Active open with a random initial sequence number, which the SYN
    /// carries (see `new_active_with_seq`).
    pub fn new_active(conn_id: u16, peer_addr: A, waiter: W, timestamp: u32) -> (r: (Self, Packet))
        ensures
            r.0@ == active_open(conn_id, peer_addr, waiter, r.1.header.seq_nr),
            is_control_packet(
                r.1,
                control_header(PacketType::Syn, conn_id, timestamp, r.1.header.seq_nr, 0),
            ),
    {
        let seq_nr = random_u16();
        Self::new_active_with_seq(conn_id, peer_addr, waiter, seq_nr, timestamp)
    }

    /// Passive open on a received SYN, with the initial sequence number
    /// `seq_nr`: the connection is connected but unconfirmed, and the SYN-ACK
    /// to send is returned with it.
    pub fn new_passive_with_seq(syn_pkt: &Packet, addr: A, seq_nr: u16, timestamp: u32) -> (r: (Self, Packet))
        ensures
            r.0@ == passive_open::<A, W>(syn_pkt.header, addr, seq_nr),
            is_control_packet(
                r.1,
                control_header(
                    PacketType::State,
                    syn_pkt.header.conn_id,
                    timestamp,
                    seq_nr,
                    syn_pkt.header.seq_nr,
                ),
            ),
    {
        let conn = Connection {
            state: State::Connected { is_confirm: false },
            conn_id_recv: syn_pkt.conn_id().wrapping_add(1),
            conn_id_send: syn_pkt.conn_id(),
            seq_nr,
            ack_nr: syn_pkt.seq_nr(),
            peer_addr: addr,
        };
        let syn = conn.syn_ack(timestamp);
        (conn, syn)
    }

    /// Passive open on a received SYN with a random initial sequence number.
    pub fn new_passive(syn_pkt: &Packet, addr: A, timestamp: u32) -> (r: (Self, Packet))
        ensures
            r.0@ == passive_open::<A, W>(syn_pkt.header, addr, r.0@.seq_nr),
            is_control_packet(
                r.1,
                control_header(
                    PacketType::State,
                    syn_pkt.header.conn_id,
                    timestamp,
                    r.0@.seq_nr,
                    syn_pkt.header.seq_nr,
                ),
            ),
    {
        let seq_nr = random_u16();
        Self::new_passive_with_seq(syn_pkt, addr, seq_nr, timestamp)
    }

    /// The SYN: carries the receive id and the current sequence number, which
    /// it uses up.
    fn syn(&mut self, timestamp: u32) -> (p: Packet)
        ensures
            final(self)@ == (ConnectionView { seq_nr: succ16(old(self)@.seq_nr), ..old(self)@ }),
            is_control_packet(
                p,
                control_header(PacketType::Syn, old(self)@.conn_id_recv, timestamp, old(self)@.seq_nr, 0),
            ),
    {
        let syn = PacketBuilder::new(PacketType::Syn, self.conn_id_recv, timestamp, 0, self.seq_nr).build();
        self.seq_nr = self.seq_nr.wrapping_add(1);
        syn
    }

    /// The SYN-ACK (`ST_STATE`): carries the send id, the current sequence
    /// number (not used up) and the acknowledgement number.
    fn syn_ack(&self, timestamp: u32) -> (p: Packet)
        ensures
            is_control_packet(
                p,
                control_header(PacketType::State, self@.conn_id_send, timestamp, self@.seq_nr, self@.ack_nr),
            ),
    {
        PacketBuilder::new(PacketType::State, self.conn_id_send, timestamp, 0, self.seq_nr).ack_nr(
            self.ack_nr,
        ).build()
    }

    /// A payload-less `ST_DATA` packet, which uses up a sequence number.
    pub fn mock_data(&mut self, timestamp: u32) -> (p: Packet)
        ensures
            final(self)@ == (ConnectionView { seq_nr: succ16(old(self)@.seq_nr), ..old(self)@ }),
            is_control_packet(
                p,
                control_header(
                    PacketType::Data,
                    old(self)@.conn_id_send,
                    timestamp,
                    old(self)@.seq_nr,
                    old(self)@.ack_nr,
                ),
            ),
    {
        let data = PacketBuilder::new(PacketType::Data, self.conn_id_send, timestamp, 0, self.seq_nr).ack_nr(
            self.ack_nr,
        ).build();
        self.seq_nr = self.seq_nr.wrapping_add(1);
        data
    }

    /// Whether `pkt` is the SYN-ACK this connection waits for.
    pub fn answers_syn(&self, pkt: &Packet) -> (r: bool)
        ensures
            r == answers_syn(self@.state, pkt.header),
    {
        match &self.state {
            State::Connecting { seq_nr, .. } => pkt.packet_type() == PacketType::State && pkt.ack_nr()
                == *seq_nr,
            _ => false,
        }
    }

    /// Feeds a received packet to the state machine.
    ///
    /// - Connecting: the SYN-ACK records the peer's sequence number minus one
    ///   as acknowledged, confirms the connection and hands back the waiter.
    /// - Connected: `ST_DATA` confirms the connection, records its sequence
    ///   number as acknowledged, and an `ST_STATE` acknowledging it is to be
    ///   sent.
    /// - Anything else changes nothing.
    pub fn on_packet(&mut self, pkt: &Packet, timestamp: u32) -> (r: Option<Action<W>>)
        ensures
            final(self)@ == next_view(old(self)@, pkt.header),
            on_packet_action(old(self)@, pkt.header, timestamp, r),
    {
        if self.answers_syn(pkt) {
            self.ack_nr = pkt.seq_nr().wrapping_sub(1);
            let mut state = State::Connected { is_confirm: true };
            std::mem::swap(&mut state, &mut self.state);
            match state {
                State::Connecting { waiter, .. } => match waiter {
                    Some(w) => Some(Action::ConnectSuccess(w)),
                    None => None,
                },
                _ => None,
            }
        } else {
            match &self.state {
                State::Connected { .. } => {
                    if pkt.packet_type() == PacketType::Data {
                        self.state = State::Connected { is_confirm: true };
                        self.ack_nr = pkt.seq_nr();
                        let ack = PacketBuilder::new(
                            PacketType::State,
                            self.conn_id_send,
                            timestamp,
                            0,
                            self.seq_nr,
                        ).ack_nr(self.ack_nr).build();
                        Some(Action::Send(ack))
                    } else {
                        None
                    }
                },
                _ => None,
            }
        }
    }
}

impl<A: Copy, W> Connection<A, W> {
    pub fn peer_addr(&self) -> (r: A)
        ensures
            r == self@.peer_addr,
    {
        self.peer_addr
    }
}

/// The handshake: an active open sends a SYN; the passive open it causes
/// answers with a SYN-ACK that the active side accepts, handing its waiter
/// back; the active side's first `ST_DATA` then reaches the passive side under
/// its receive id and confirms it.  The two ends' connection ids are crossed,
/// and each acknowledges the other's sequence numbers.
pub proof fn lemma_handshake<A, W>(
    conn_id: u16,
    active_addr: A,
    waiter: W,
    active_seq: u16,
    syn_time: u32,
    passive_addr: A,
    passive_seq: u16,
    syn_ack_time: u32,
    data_time: u32,
)
    ensures
        ({
            let active = active_open(conn_id, active_addr, waiter, active_seq);
            let syn = control_header(PacketType::Syn, conn_id, syn_time, active_seq, 0);
            let passive = passive_open::<A, W>(syn, passive_addr, passive_seq);
            let syn_ack = control_header(
                PacketType::State,
                passive.conn_id_send,
                syn_ack_time,
                passive.seq_nr,
                passive.ack_nr,
            );
            let connected = next_view(active, syn_ack);
            let data = control_header(
                PacketType::Data,
                connected.conn_id_send,
                data_time,
                connected.seq_nr,
                connected.ack_nr,
            );
            let confirmed = next_view(passive, data);
            &&& passive.conn_id_send == active.conn_id_recv
            &&& passive.conn_id_recv == active.conn_id_send
            &&& syn_ack.conn_id == active.conn_id_recv
            &&& answers_syn(active.state, syn_ack)
            &&& on_packet_action(active, syn_ack, 0, Some(Action::ConnectSuccess(waiter)))
            &&& connected.state == State::<W>::Connected { is_confirm: true }
            &&& connected.ack_nr == pred16(passive_seq)
            &&& data.conn_id == passive.conn_id_recv
            &&& confirmed.state == State::<W>::Connected { is_confirm: true }
            &&& confirmed.ack_nr == succ16(active_seq)
        }),
{
}

/// The state after receiving the packets with headers `pkts`, in order.
pub open spec fn run_packets<A, W>(v: ConnectionView<A, W>, pkts: Seq<PacketHeader>) -> ConnectionView<A, W>
    decreases pkts.len(),
{
    if pkts.len() == 0 {
        v
    } else {
        next_view(run_packets(v, pkts.drop_last()), pkts.last())
    }
}

/// The state just before the `i`-th of `pkts` is received.
pub open spec fn state_before<A, W>(v: ConnectionView<A, W>, pkts: Seq<PacketHeader>, i: int) -> ConnectionView<A, W> {
    run_packets(v, pkts.take(i))
}

proof fn lemma_state_before_step<A, W>(v: ConnectionView<A, W>, pkts: Seq<PacketHeader>, k: int)
    requires
        0 <= k < pkts.len(),
    ensures
        state_before(v, pkts, k + 1) == next_view(state_before(v, pkts, k), pkts[k]),
{
    assert(pkts.take(k + 1).drop_last() =~= pkts.take(k));
    assert(pkts.take(k + 1).last() == pkts[k]);
}

/// Receiving a packet never changes a connection's ids, its sequence number
/// or its peer address: only the state and the acknowledgement number move.
pub proof fn lemma_next_view_keeps_identity<A, W>(v: ConnectionView<A, W>, pkt: PacketHeader)
    ensures
        next_view(v, pkt).conn_id_recv == v.conn_id_recv,
        next_view(v, pkt).conn_id_send == v.conn_id_send,
        next_view(v, pkt).seq_nr == v.seq_nr,
        next_view(v, pkt).peer_addr == v.peer_addr,
{
}

/// Over any sequence of received packets a connection keeps its ids, its
/// sequence number and its peer address; once connected it stays connected,
/// once confirmed it stays confirmed, it never becomes closed, and a closed
/// connection never changes.
pub proof fn lemma_run_packets<A, W>(v: ConnectionView<A, W>, pkts: Seq<PacketHeader>)
    ensures
        run_packets(v, pkts).conn_id_recv == v.conn_id_recv,
        run_packets(v, pkts).conn_id_send == v.conn_id_send,
        run_packets(v, pkts).seq_nr == v.seq_nr,
        run_packets(v, pkts).peer_addr == v.peer_addr,
        v.state is Connected ==> run_packets(v, pkts).state is Connected,
        v.state == (State::<W>::Connected { is_confirm: true }) ==> run_packets(v, pkts).state == (
        State::<W>::Connected { is_confirm: true }),
        !(v.state is Closed) ==> !(run_packets(v, pkts).state is Closed),
        v.state is Closed ==> run_packets(v, pkts) == v,
    decreases pkts.len(),
{
    if pkts.len() > 0 {
        lemma_run_packets(v, pkts.drop_last());
    }
}

/// A packet hands back the connect waiter only when it is the SYN-ACK the
/// connection waits for.
pub proof fn lemma_connect_success_only_on_syn_ack<A, W>(
    v: ConnectionView<A, W>,
    pkt: PacketHeader,
    timestamp: u32,
    w: W,
)
    ensures
        on_packet_action(v, pkt, timestamp, Some(Action::ConnectSuccess(w))) ==> answers_syn(
            v.state,
            pkt,
        ),
{
}

proof fn lemma_connected_from<A, W>(v: ConnectionView<A, W>, pkts: Seq<PacketHeader>, k: int, j: int)
    requires
        0 <= k <= j <= pkts.len(),
        state_before(v, pkts, k).state is Connected,
    ensures
        state_before(v, pkts, j).state is Connected,
    decreases j - k,
{
    if k < j {
        lemma_state_before_step(v, pkts, k);
        lemma_connected_from(v, pkts, k + 1, j);
    }
}

/// The connect waiter is handed back at most once: after the packet that
/// completes the handshake, no later packet of any sequence is taken as the
/// SYN-ACK again.
pub proof fn lemma_waiter_handed_back_once<A, W>(
    v: ConnectionView<A, W>,
    pkts: Seq<PacketHeader>,
    i: int,
    j: int,
)
    requires
        0 <= i < j < pkts.len(),
        answers_syn(state_before(v, pkts, i).state, pkts[i]),
    ensures
        !answers_syn(state_before(v, pkts, j).state, pkts[j]),
{
    lemma_state_before_step(v, pkts, i);
    lemma_connected_from(v, pkts, i + 1, j);
}

/// A connected connection, confirmed or not, answers every `ST_DATA` packet:
/// it becomes confirmed, records the packet's sequence number as
/// acknowledged, and hands back a payload-less `ST_STATE` to its peer's
/// receive id that carries its own sequence number and acknowledges exactly
/// that packet.
pub proof fn lemma_data_always_acked<A, W>(
    v: ConnectionView<A, W>,
    pkt: PacketHeader,
    timestamp: u32,
    r: Option<Action<W>>,
)
    requires
        v.state is Connected,
        pkt.packet_type == PacketType::Data,
        on_packet_action(v, pkt, timestamp, r),
    ensures
        next_view(v, pkt).state == (State::<W>::Connected { is_confirm: true }),
        next_view(v, pkt).ack_nr == pkt.seq_nr,
        next_view(v, pkt).seq_nr == v.seq_nr,
        next_view(v, pkt).conn_id_send == v.conn_id_send,
        r matches Some(Action::Send(ack)) && {
            &&& ack.header.packet_type == PacketType::State
            &&& ack.header.ack_nr == pkt.seq_nr
            &&& ack.header.seq_nr == v.seq_nr
            &&& ack.header.conn_id == v.conn_id_send
            &&& ack.header.timestamp == timestamp
            &&& bytes_view(ack.payload).len() == 0
        },
{
}

/// A connecting connection that receives the `ST_STATE` acknowledging its SYN
/// hands back its waiter, becomes connected and confirmed, and records the
/// sequence number before the SYN-ACK's (wrapping) as acknowledged.
pub proof fn lemma_syn_ack_completes<A, W>(
    v: ConnectionView<A, W>,
    syn_seq: u16,
    w: W,
    pkt: PacketHeader,
    timestamp: u32,
    r: Option<Action<W>>,
)
    requires
        v.state == (State::Connecting { seq_nr: syn_seq, waiter: Some(w) }),
        pkt.packet_type == PacketType::State,
        pkt.ack_nr == syn_seq,
        on_packet_action(v, pkt, timestamp, r),
    ensures
        r == Some(Action::ConnectSuccess(w)),
        next_view(v, pkt).state == (State::<W>::Connected { is_confirm: true }),
        next_view(v, pkt).ack_nr == vstd::wrapping::u16_specs::wrapping_sub(pkt.seq_nr, 1),
{
}

/// Every other packet is ignored: a connecting connection ignores all but
/// the SYN-ACK, a connected one all but `ST_DATA`, a closed one everything.
pub proof fn lemma_other_packets_ignored<A, W>(
    v: ConnectionView<A, W>,
    pkt: PacketHeader,
    timestamp: u32,
    r: Option<Action<W>>,
)
    requires
        on_packet_action(v, pkt, timestamp, r),
        match v.state {
            State::Connecting { seq_nr, .. } => !(pkt.packet_type == PacketType::State
                && pkt.ack_nr == seq_nr),
            State::Connected { .. } => pkt.packet_type != PacketType::Data,
            State::Closed => true,
        },
    ensures
        next_view(v, pkt) == v,
        r is None,
{
}

} // verus!
