//! A handle on an established connection.
use vstd::prelude::*;

verus! {

/// An established connection, named by its receive id and the peer's address.
pub struct UtpStream<A> {
    conn_id: u16,
    peer_addr: A,
}

impl<A> UtpStream<A> {
    pub closed spec fn spec_conn_id(&self) -> u16 {
        self.conn_id
    }

    pub closed spec fn spec_peer_addr(&self) -> A {
        self.peer_addr
    }

    pub fn new(conn_id: u16, addr: A) -> (s: Self)
        ensures
            s.spec_conn_id() == conn_id,
            s.spec_peer_addr() == addr,
    {
        UtpStream { conn_id, peer_addr: addr }
    }

    pub fn conn_id(&self) -> (r: u16)
        ensures
            r == self.spec_conn_id(),
    {
        self.conn_id
    }
}

impl<A: Copy> UtpStream<A> {
    pub fn peer_addr(&self) -> (r: A)
        ensures
            r == self.spec_peer_addr(),
    {
        self.peer_addr
    }
}

} // verus!
