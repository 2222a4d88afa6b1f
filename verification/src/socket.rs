//! The connection table behind a uTP socket: which connection each incoming
//! packet belongs to, when a SYN opens a new one, and what the socket has to
//! send or whom it has to wake as a result.  The socket itself (UDP I/O, the
//! lock, the accept queue) drives this table.
use std::collections::HashMap;
use vstd::prelude::*;

use crate::conn::{
    active_open, random_u16, succ16, State, is_control_packet, control_header, next_view, on_packet_action, passive_open,
    Action, Connection, ConnectionView,
};
use crate::packet::{Packet, PacketType};
use crate::stream::UtpStream;

verus! {

/// The receive id under which a passive connection opened by a SYN carrying
/// `syn_conn_id` is filed.
pub open spec fn passive_recv_id(syn_conn_id: u16) -> u16 {
    succ16(syn_conn_id)
}

/// What handling a packet does to the table `t` and what it hands back.
pub open spec fn handled<A, W>(
    t: Map<u16, ConnectionView<A, W>>,
    pkt: Packet,
    addr: A,
    timestamp: u32,
    t2: Map<u16, ConnectionView<A, W>>,
    action: Option<Action<W>>,
    accepted: Option<UtpStream<A>>,
) -> bool {
    if pkt.header.packet_type == PacketType::Syn {
        let id = passive_recv_id(pkt.header.conn_id);
        if t.contains_key(id) {
            t2 == t && action is None && accepted is None
        } else {
            let seq_nr = t2[id].seq_nr;
            &&& t2 == t.insert(id, passive_open::<A, W>(pkt.header, addr, seq_nr))
            &&& action matches Some(Action::Send(syn_ack)) && is_control_packet(
                syn_ack,
                control_header(PacketType::State, pkt.header.conn_id, timestamp, seq_nr, pkt.header.seq_nr),
            )
            &&& accepted matches Some(s) && s.spec_conn_id() == id && s.spec_peer_addr() == addr
        }
    } else {
        let id = pkt.header.conn_id;
        &&& accepted is None
        &&& if t.contains_key(id) {
            &&& t2 == t.insert(id, next_view(t[id], pkt.header))
            &&& on_packet_action(t[id], pkt.header, timestamp, action)
        } else {
            t2 == t && action is None
        }
    }
}

/// Starts an outgoing connection to `peer_addr` under a random connection
/// id: the id, the connection (to be filed under it) and the SYN to send,
/// which carries the connection's random initial sequence number (see
/// `Connection::new_active_with_seq`).
pub fn new_outgoing<A, W>(peer_addr: A, waiter: W, timestamp: u32) -> (r: (u16, Connection<A, W>, Packet))
    ensures
        r.1@ == active_open(r.0, peer_addr, waiter, r.2.header.seq_nr),
        is_control_packet(r.2, control_header(PacketType::Syn, r.0, timestamp, r.2.header.seq_nr, 0)),
{
    let conn_id = random_u16();
    let (conn, syn) = Connection::new_active(conn_id, peer_addr, waiter, timestamp);
    (conn_id, conn, syn)
}

/// The socket's connections, by receive id.
pub struct SocketInner<A, W> {
    conns: HashMap<u16, Connection<A, W>>,
}

impl<A, W> View for SocketInner<A, W> {
    type V = Map<u16, ConnectionView<A, W>>;

    closed spec fn view(&self) -> Map<u16, ConnectionView<A, W>> {
        self.conns@.map_values(|c: Connection<A, W>| c@)
    }
}

impl<A, W> SocketInner<A, W> {
    /// A table with no connection.
    pub fn new() -> (t: Self)
        ensures
            t@ == Map::<u16, ConnectionView<A, W>>::empty(),
    {
        let t = SocketInner { conns: HashMap::new() };
        assert(t@ =~= Map::<u16, ConnectionView<A, W>>::empty());
        t
    }

    /// Files `conn` under `conn_id`, replacing any connection there.
    pub fn insert(&mut self, conn_id: u16, conn: Connection<A, W>)
        ensures
            final(self)@ == old(self)@.insert(conn_id, conn@),
    {
        self.conns.insert(conn_id, conn);
        assert(self@ =~= old(self)@.insert(conn_id, conn@));
    }

    /// Whether a connection is filed under `conn_id`.
    pub fn contains(&self, conn_id: u16) -> (r: bool)
        ensures
            r == self@.contains_key(conn_id),
    {
        self.conns.contains_key(&conn_id)
    }


}

impl<A: Copy, W> SocketInner<A, W> {
    /// Handles a packet received from `addr`.
    ///
    /// A SYN opens a passive connection filed under the SYN's id plus one,
    /// unless one is already filed there; the SYN-ACK is to be sent and the
    /// new stream to be handed to an accepting caller.  Any other packet goes
    /// to the connection filed under its id, if any.
    pub fn handle_packet(&mut self, pkt: &Packet, addr: A, timestamp: u32) -> (r: (
        Option<Action<W>>,
        Option<UtpStream<A>>,
    ))
        ensures
            handled(old(self)@, *pkt, addr, timestamp, final(self)@, r.0, r.1),
    {
        if pkt.packet_type() == PacketType::Syn {
            let send_id = pkt.conn_id();
            let recv_id = send_id.wrapping_add(1);
            if !self.conns.contains_key(&recv_id) {
                let (conn, syn_ack) = Connection::new_passive(pkt, addr, timestamp);
                let ghost cv = conn@;
                self.conns.insert(conn.conn_id_recv(), conn);
                assert(self@ =~= old(self)@.insert(recv_id, cv));
                let stream = UtpStream::new(recv_id, addr);
                (Some(Action::Send(syn_ack)), Some(stream))
            } else {
                (None, None)
            }
        } else {
            let recv_id = pkt.conn_id();
            match self.conns.remove(&recv_id) {
                Some(mut conn) => {
                    let action = conn.on_packet(pkt, timestamp);
                    let ghost cv = conn@;
                    self.conns.insert(recv_id, conn);
                    assert(self@ =~= old(self)@.insert(recv_id, cv));
                    (action, None)
                },
                None => {
                    assert(self@ =~= old(self)@);
                    (None, None)
                },
            }
        }
    }

    /// Makes connection `conn_id` produce a payload-less `ST_DATA` packet,
    /// handed back with the address to send it to.
    pub fn mock_data(&mut self, conn_id: u16, timestamp: u32) -> (r: Option<(Packet, A)>)
        ensures
            match r {
                Some((p, peer)) => {
                    let c = old(self)@[conn_id];
                    &&& old(self)@.contains_key(conn_id)
                    &&& final(self)@ == old(self)@.insert(
                        conn_id,
                        ConnectionView { seq_nr: succ16(c.seq_nr), ..c },
                    )
                    &&& peer == c.peer_addr
                    &&& is_control_packet(
                        p,
                        control_header(PacketType::Data, c.conn_id_send, timestamp, c.seq_nr, c.ack_nr),
                    )
                },
                None => !old(self)@.contains_key(conn_id) && final(self)@ == old(self)@,
            },
    {
        match self.conns.remove(&conn_id) {
            Some(mut conn) => {
                let p = conn.mock_data(timestamp);
                let peer = conn.peer_addr();
                let ghost cv = conn@;
                self.conns.insert(conn_id, conn);
                assert(self@ =~= old(self)@.insert(conn_id, cv));
                Some((p, peer))
            },
            None => {
                assert(self@ =~= old(self)@);
                None
            },
        }
    }
}

/// Handling a packet never drops a connection from the table, and a packet
/// changes at most the connection it is filed for.
pub proof fn lemma_handled_keeps_connections<A, W>(
    t: Map<u16, ConnectionView<A, W>>,
    pkt: Packet,
    addr: A,
    timestamp: u32,
    t2: Map<u16, ConnectionView<A, W>>,
    action: Option<Action<W>>,
    accepted: Option<UtpStream<A>>,
)
    requires
        handled(t, pkt, addr, timestamp, t2, action, accepted),
    ensures
        forall|id: u16| #[trigger] t.contains_key(id) ==> t2.contains_key(id),
        forall|id: u16|
            t.contains_key(id) && id != pkt.header.conn_id && id != passive_recv_id(pkt.header.conn_id)
                ==> #[trigger] t2[id] == t[id],
{
}

/// A SYN is answered once: handling the same SYN again changes nothing and
/// hands back nothing.
pub proof fn lemma_duplicate_syn_ignored<A, W>(
    t: Map<u16, ConnectionView<A, W>>,
    syn: Packet,
    addr: A,
    timestamp: u32,
    t2: Map<u16, ConnectionView<A, W>>,
    action: Option<Action<W>>,
    accepted: Option<UtpStream<A>>,
    addr2: A,
    timestamp2: u32,
    t3: Map<u16, ConnectionView<A, W>>,
    action2: Option<Action<W>>,
    accepted2: Option<UtpStream<A>>,
)
    requires
        syn.header.packet_type == PacketType::Syn,
        handled(t, syn, addr, timestamp, t2, action, accepted),
        handled(t2, syn, addr2, timestamp2, t3, action2, accepted2),
    ensures
        t3 == t2,
        action2 is None,
        accepted2 is None,
{
}

/// The handshake between two sockets: the active side's SYN opens a passive
/// connection on the other side, filed under the SYN's id plus one and handed
/// to an accepting caller; that side's SYN-ACK is routed back to the
/// connecting connection, which completes and hands back its waiter.
pub proof fn lemma_socket_handshake<A, W>(
    active: Map<u16, ConnectionView<A, W>>,
    conn_id: u16,
    active_addr: A,
    waiter: W,
    active_seq: u16,
    syn: Packet,
    syn_time: u32,
    passive: Map<u16, ConnectionView<A, W>>,
    passive_addr: A,
    syn_ack_time: u32,
    passive2: Map<u16, ConnectionView<A, W>>,
    syn_ack: Packet,
    accepted: Option<UtpStream<A>>,
    receive_time: u32,
    active2: Map<u16, ConnectionView<A, W>>,
    action: Option<Action<W>>,
    accepted2: Option<UtpStream<A>>,
)
    requires
        active.contains_key(conn_id),
        active[conn_id] == active_open(conn_id, active_addr, waiter, active_seq),
        is_control_packet(syn, control_header(PacketType::Syn, conn_id, syn_time, active_seq, 0)),
        !passive.contains_key(passive_recv_id(conn_id)),
        handled(passive, syn, active_addr, syn_ack_time, passive2, Some(Action::Send(syn_ack)), accepted),
        handled(active, syn_ack, passive_addr, receive_time, active2, action, accepted2),
    ensures
        accepted matches Some(s) && s.spec_conn_id() == succ16(conn_id) && s.spec_peer_addr() == active_addr,
        passive2[succ16(conn_id)].state == (State::<W>::Connected { is_confirm: false }),
        passive2[succ16(conn_id)].conn_id_send == conn_id,
        action == Some(Action::ConnectSuccess(waiter)),
        active2[conn_id].state == (State::<W>::Connected { is_confirm: true }),
        accepted2 is None,
{
}

/// A SYN whose id plus one (wrapping) is not yet in the table always opens a
/// connection there, whatever other connections the table holds: a
/// connected, unconfirmed connection to the SYN's sender that sends under the
/// SYN's id and acknowledges its sequence number; the SYN-ACK to send and the
/// stream to hand out come back with it, and no other entry changes.
pub proof fn lemma_new_syn_opens_connection<A, W>(
    t: Map<u16, ConnectionView<A, W>>,
    syn: Packet,
    addr: A,
    timestamp: u32,
    t2: Map<u16, ConnectionView<A, W>>,
    action: Option<Action<W>>,
    accepted: Option<UtpStream<A>>,
)
    requires
        syn.header.packet_type == PacketType::Syn,
        !t.contains_key(vstd::wrapping::u16_specs::wrapping_add(syn.header.conn_id, 1)),
        handled(t, syn, addr, timestamp, t2, action, accepted),
    ensures
        ({
            let id = vstd::wrapping::u16_specs::wrapping_add(syn.header.conn_id, 1);
            &&& t2.contains_key(id)
            &&& t2[id].state == (State::<W>::Connected { is_confirm: false })
            &&& t2[id].conn_id_recv == id
            &&& t2[id].conn_id_send == syn.header.conn_id
            &&& t2[id].ack_nr == syn.header.seq_nr
            &&& t2[id].peer_addr == addr
            &&& forall|k: u16| k != id ==> (#[trigger] t2.contains_key(k) <==> t.contains_key(k))
            &&& forall|k: u16| k != id && t.contains_key(k) ==> #[trigger] t2[k] == t[k]
            &&& action matches Some(Action::Send(p)) && {
                &&& p.header.packet_type == PacketType::State
                &&& p.header.conn_id == syn.header.conn_id
                &&& p.header.ack_nr == syn.header.seq_nr
                &&& p.header.seq_nr == t2[id].seq_nr
            }
            &&& accepted matches Some(s) && s.spec_conn_id() == id && s.spec_peer_addr() == addr
        }),
{
}

/// Any packet other than a SYN goes to the connection filed under its id:
/// that connection moves as `on_packet` moves it and its answer comes back;
/// no other entry changes.  A packet for an id with nothing filed changes
/// nothing and is answered by nothing.
pub proof fn lemma_packet_routed_by_id<A, W>(
    t: Map<u16, ConnectionView<A, W>>,
    pkt: Packet,
    addr: A,
    timestamp: u32,
    t2: Map<u16, ConnectionView<A, W>>,
    action: Option<Action<W>>,
    accepted: Option<UtpStream<A>>,
)
    requires
        pkt.header.packet_type != PacketType::Syn,
        handled(t, pkt, addr, timestamp, t2, action, accepted),
    ensures
        accepted is None,
        t.contains_key(pkt.header.conn_id) ==> {
            &&& t2 == t.insert(pkt.header.conn_id, next_view(t[pkt.header.conn_id], pkt.header))
            &&& on_packet_action(t[pkt.header.conn_id], pkt.header, timestamp, action)
        },
        !t.contains_key(pkt.header.conn_id) ==> t2 == t && action is None,
{
}

} // verus!
