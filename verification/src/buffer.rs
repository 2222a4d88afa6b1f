//! Receive-side reassembly: payloads that arrive out of order wait until the
//! gap before them is filled, and then become readable in sequence order.
use std::collections::{BTreeMap, VecDeque};
use vstd::prelude::*;
use bytes::Bytes;

use crate::packet::{bytes_is_empty, bytes_view};
use crate::utils::{ring_dist16, ring_less16, wrapping_less_u16};

verus! {

/// `x + 1` on the 16-bit ring.
pub open spec fn seq_succ(x: u16) -> u16 {
    vstd::wrapping::u16_specs::wrapping_add(x, 1)
}

/// `x + j` on the 16-bit ring.
pub open spec fn ring_add16(x: u16, j: int) -> u16 {
    ((x + j) % 0x1_0000) as u16
}

/// The abstract state of a receive buffer.
pub struct RecvBufferView {
    /// The sequence number expected next in order.
    pub next: u16,
    /// Payloads that arrived ahead of `next`, by sequence number.
    pub pending: Map<u16, Bytes>,
    /// Payloads ready to be read, oldest first.
    pub readable: Seq<Bytes>,
}

/// Moves every payload that directly follows `v.next` from `pending` to the
/// end of `readable`, advancing `next` past each.
pub open spec fn drain(v: RecvBufferView) -> RecvBufferView
    decreases v.pending.dom().len(),
    when v.pending.dom().finite()
{
    if v.pending.contains_key(v.next) {
        drain(
            RecvBufferView {
                next: seq_succ(v.next),
                pending: v.pending.remove(v.next),
                readable: v.readable.push(v.pending[v.next]),
            },
        )
    } else {
        v
    }
}

/// What inserting `payload` under sequence number `seq` does to a buffer:
/// empty payloads and payloads behind `next` are dropped, the expected
/// payload becomes readable together with every pending one that follows it,
/// and a payload ahead of `next` waits (replacing any earlier one under the
/// same number).
pub open spec fn insert_spec(v: RecvBufferView, seq: u16, payload: Bytes) -> RecvBufferView {
    if bytes_view(payload).len() == 0 {
        v
    } else if seq == v.next {
        drain(
            RecvBufferView { next: seq_succ(v.next), pending: v.pending, readable: v.readable.push(payload) },
        )
    } else if !ring_less16(seq, v.next) {
        RecvBufferView { pending: v.pending.insert(seq, payload), ..v }
    } else {
        v
    }
}

/// The buffer's invariant: pending payloads lie ahead of `next` (at most half
/// the ring), and no empty payload is ever held.
pub open spec fn view_wf(v: RecvBufferView) -> bool {
    &&& v.pending.dom().finite()
    &&& forall|k: u16| #[trigger] v.pending.contains_key(k) ==> 1 <= ring_dist16(v.next, k) <= 0x8000
    &&& forall|k: u16| #[trigger] v.pending.contains_key(k) ==> bytes_view(v.pending[k]).len() > 0
    &&& forall|i: int| 0 <= i < v.readable.len() ==> bytes_view(#[trigger] v.readable[i]).len() > 0
}

#[derive(Clone, Debug)]
pub struct RecvBuffer {
    /// The next sequence number expected in order.  Acknowledgements carry
    /// `next_expected_seq - 1`.
    next_expected_seq: u16,
    /// Payloads that arrived out of order.
    out_of_order: BTreeMap<u16, Bytes>,
    /// Payloads readable in order.
    buf: VecDeque<Bytes>,
}

impl View for RecvBuffer {
    type V = RecvBufferView;

    closed spec fn view(&self) -> RecvBufferView {
        RecvBufferView { next: self.next_expected_seq, pending: self.out_of_order@, readable: self.buf@ }
    }
}

impl RecvBuffer {
    /// The buffer's invariant, which `new` establishes and every operation keeps.
    pub open spec fn wf(&self) -> bool {
        view_wf(self@)
    }

    /// An empty buffer expecting `initial_seq` next.
    pub fn new(initial_seq: u16) -> (b: Self)
        ensures
            b.wf(),
            b@.next == initial_seq,
            b@.pending == Map::<u16, Bytes>::empty(),
            b@.readable == Seq::<Bytes>::empty(),
    {
        RecvBuffer { next_expected_seq: initial_seq, out_of_order: BTreeMap::new(), buf: VecDeque::new() }
    }

    /// Accepts the payload carried under sequence number `seq`.
    pub fn insert(&mut self, seq: u16, payload: Bytes)
        requires
            old(self).wf(),
        ensures
            final(self).wf(),
            final(self)@ == insert_spec(old(self)@, seq, payload),
    {
        if bytes_is_empty(&payload) {
            return;
        }
        if seq == self.next_expected_seq {
            self.buf.push_back(payload);
            self.next_expected_seq = self.next_expected_seq.wrapping_add(1);
            assert forall|i: int| 0 <= i < self@.readable.len() implies bytes_view(
                #[trigger] self@.readable[i],
            ).len() > 0 by {
                if i < old(self)@.readable.len() {
                    assert(self@.readable[i] == old(self)@.readable[i]);
                }
            }
            loop
                invariant
                    self@.pending.dom().finite(),
                    drain(self@) == insert_spec(old(self)@, seq, payload),
                    forall|k: u16| #[trigger] self@.pending.contains_key(k)
                        ==> 0 <= ring_dist16(self@.next, k) < 0x8000,
                    forall|k: u16| #[trigger] self@.pending.contains_key(k)
                        ==> bytes_view(self@.pending[k]).len() > 0,
                    forall|i: int| 0 <= i < self@.readable.len()
                        ==> bytes_view(#[trigger] self@.readable[i]).len() > 0,
                ensures
                    drain(self@) == self@,
                    self.wf(),
                decreases self@.pending.dom().len(),
            {
                let ghost before = self@;
                match self.out_of_order.remove(&self.next_expected_seq) {
                    Some(p) => {
                        self.buf.push_back(p);
                        self.next_expected_seq = self.next_expected_seq.wrapping_add(1);
                        assert(self@.pending =~= before.pending.remove(before.next));
                        assert(self@.readable =~= before.readable.push(before.pending[before.next]));
                        assert(drain(before) == drain(self@));
                    },
                    None => {
                        assert(self@.pending =~= before.pending);
                        break;
                    },
                }
            }
        } else if !wrapping_less_u16(seq, self.next_expected_seq) {
            // `seq` lies ahead of the expected number, within half the ring.
            assert(1 <= ring_dist16(self.next_expected_seq, seq) <= 0x8000);
            self.out_of_order.insert(seq, payload);
            assert(self@.readable == old(self)@.readable);
        }
    }

    /// Takes the oldest readable payload, if any.
    pub fn pop_readable(&mut self) -> (r: Option<Bytes>)
        requires
            old(self).wf(),
        ensures
            final(self).wf(),
            final(self)@.next == old(self)@.next,
            final(self)@.pending == old(self)@.pending,
            match r {
                Some(p) => {
                    &&& old(self)@.readable.len() > 0
                    &&& p == old(self)@.readable[0]
                    &&& final(self)@.readable == old(self)@.readable.drop_first()
                },
                None => {
                    &&& old(self)@.readable.len() == 0
                    &&& final(self)@.readable == old(self)@.readable
                },
            },
    {
        let r = self.buf.pop_front();
        assert forall|i: int| 0 <= i < self@.readable.len() implies bytes_view(
            #[trigger] self@.readable[i],
        ).len() > 0 by {
            assert(self@.readable[i] == old(self)@.readable[i + 1]);
        }
        r
    }

    /// The acknowledgement number: the last sequence number received in order.
    pub fn ack_nr(&self) -> (r: u16)
        ensures
            r == vstd::wrapping::u16_specs::wrapping_sub(self@.next, 1),
    {
        self.next_expected_seq.wrapping_sub(1)
    }
}

/// Draining moves a run of consecutive sequence numbers, starting at `next`,
/// from `pending` to the end of `readable`, in sequence order, and stops at
/// the first number with nothing pending.
pub proof fn lemma_drain(v: RecvBufferView)
    requires
        v.pending.dom().finite(),
    ensures
        ({
            let r = drain(v);
            let k = r.readable.len() - v.readable.len();
            &&& k >= 0
            &&& r.readable.subrange(0, v.readable.len() as int) == v.readable
            &&& r.next == ring_add16(v.next, k)
            &&& forall|j: int|
                0 <= j < k ==> #[trigger] v.pending.contains_key(ring_add16(v.next, j))
            &&& forall|j: int|
                0 <= j < k ==> #[trigger] r.readable[v.readable.len() + j] == v.pending[ring_add16(v.next, j)]
            &&& !r.pending.contains_key(r.next)
            &&& r.pending == v.pending.restrict(
                Set::new(|key: u16| ring_dist16(v.next, key) >= k),
            )
        }),
    decreases v.pending.dom().len(),
{
    let r = drain(v);
    if v.pending.contains_key(v.next) {
        let w = RecvBufferView {
            next: seq_succ(v.next),
            pending: v.pending.remove(v.next),
            readable: v.readable.push(v.pending[v.next]),
        };
        assert(w.pending.dom() =~= v.pending.dom().remove(v.next));
        lemma_drain(w);
        assert(r == drain(w));
        let k = r.readable.len() - v.readable.len();
        assert(w.next == ring_add16(v.next, 1));
        assert(r.next == ring_add16(v.next, k));
        assert(r.readable.subrange(0, v.readable.len() as int) =~= v.readable) by {
            assert(r.readable.subrange(0, w.readable.len() as int) == w.readable);
            assert forall|i: int| 0 <= i < v.readable.len() implies r.readable[i] == v.readable[i] by {
                assert(r.readable.subrange(0, w.readable.len() as int)[i] == w.readable[i]);
            }
        }
        assert forall|j: int| 0 <= j < k implies #[trigger] v.pending.contains_key(ring_add16(v.next, j)) by {
            if j == 0 {
                assert(ring_add16(v.next, 0) == v.next);
            } else {
                assert(ring_add16(w.next, j - 1) == ring_add16(v.next, j));
                assert(w.pending.contains_key(ring_add16(w.next, j - 1)));
            }
        }
        assert forall|j: int| 0 <= j < k implies #[trigger] r.readable[v.readable.len() + j] == v.pending[ring_add16(v.next, j)] by {
            if j == 0 {
                assert(r.readable.subrange(0, w.readable.len() as int)[v.readable.len() as int] == w.readable[v.readable.len() as int]);
                assert(ring_add16(v.next, 0) == v.next);
            } else {
                assert(ring_add16(w.next, j - 1) == ring_add16(v.next, j));
                assert(r.readable[w.readable.len() + (j - 1)] == w.pending[ring_add16(w.next, j - 1)]);
            }
        }
        let dk = Set::new(|key: u16| ring_dist16(v.next, key) >= k);
        let dw = Set::new(|key: u16| ring_dist16(w.next, key) >= k - 1);
        assert forall|key: u16| key != v.next implies (#[trigger] dk.contains(key) <==> dw.contains(key)) by {
            assert(ring_dist16(w.next, key) == ring_dist16(v.next, key) - 1);
        }
        assert(!dk.contains(v.next));
        assert(r.pending =~= v.pending.restrict(dk));
        assert(k >= 0);
        assert(!r.pending.contains_key(r.next));
    } else {
        assert(r == v);
        assert(ring_add16(v.next, 0) == v.next);
        assert(v.readable.subrange(0, v.readable.len() as int) =~= v.readable);
        assert(v.pending.restrict(Set::new(|key: u16| ring_dist16(v.next, key) >= 0)) =~= v.pending);
        assert(!r.pending.contains_key(r.next));
    }
}

/// In-order delivery: an insert never disturbs what was already readable;
/// whatever it makes readable is the inserted payload followed by the pending
/// payloads of the sequence numbers right after it, in sequence order; and the
/// expected sequence number advances by exactly the number of payloads made
/// readable.  Empty payloads and payloads behind the expected number change
/// nothing.
pub proof fn lemma_insert_delivers_in_order(v: RecvBufferView, seq: u16, payload: Bytes)
    requires
        view_wf(v),
    ensures
        ({
            let r = insert_spec(v, seq, payload);
            let k = r.readable.len() - v.readable.len();
            &&& k >= 0
            &&& r.readable.subrange(0, v.readable.len() as int) == v.readable
            &&& r.next == ring_add16(v.next, k)
            &&& k > 0 ==> seq == v.next && r.readable[v.readable.len() as int] == payload
            &&& forall|j: int|
                1 <= j < k ==> #[trigger] r.readable[v.readable.len() + j] == v.pending[ring_add16(
                    v.next,
                    j,
                )]
            &&& (bytes_view(payload).len() == 0 || ring_less16(seq, v.next)) ==> r == v
        }),
{
    let r = insert_spec(v, seq, payload);
    if bytes_view(payload).len() > 0 && seq == v.next {
        let w = RecvBufferView {
            next: seq_succ(v.next),
            pending: v.pending,
            readable: v.readable.push(payload),
        };
        lemma_drain(w);
        assert(r == drain(w));
        let k = r.readable.len() - v.readable.len();
        assert(w.next == ring_add16(v.next, 1));
        assert(r.next == ring_add16(v.next, k));
        assert(r.readable.subrange(0, w.readable.len() as int)[v.readable.len() as int] == payload);
        assert(r.readable.subrange(0, v.readable.len() as int) =~= v.readable) by {
            assert forall|i: int| 0 <= i < v.readable.len() implies r.readable[i] == v.readable[i] by {
                assert(r.readable.subrange(0, w.readable.len() as int)[i] == w.readable[i]);
            }
        }
        assert forall|j: int| 1 <= j < k implies #[trigger] r.readable[v.readable.len() + j]
            == v.pending[ring_add16(v.next, j)] by {
            assert(ring_add16(w.next, j - 1) == ring_add16(v.next, j));
            assert(r.readable[w.readable.len() + (j - 1)] == w.pending[ring_add16(w.next, j - 1)]);
        }
    } else if bytes_view(payload).len() > 0 && !ring_less16(seq, v.next) {
        assert(r.readable =~= v.readable);
        assert(ring_add16(v.next, 0) == v.next);
    } else {
        assert(ring_add16(v.next, 0) == v.next);
        assert(v.readable.subrange(0, v.readable.len() as int) =~= v.readable);
    }
}

/// In a well-formed buffer nothing waits under the expected sequence number:
/// a payload for it would already have been made readable.
pub proof fn lemma_wf_nothing_pending_at_next(v: RecvBufferView)
    requires
        view_wf(v),
    ensures
        !v.pending.contains_key(v.next),
{
}

/// For any buffer reached from `new` through inserts and pops: nothing
/// deliverable is held back (no payload waits under the sequence number after
/// the acknowledged one), and an insert makes readable exactly as many
/// payloads as the acknowledged number advances.
pub proof fn lemma_recv_buffer_reachable(b: RecvBuffer, seq: u16, payload: Bytes)
    requires
        b.wf(),
    ensures
        !b@.pending.contains_key(b@.next),
        b@.next == ring_add16(vstd::wrapping::u16_specs::wrapping_sub(b@.next, 1), 1),
        ({
            let r = insert_spec(b@, seq, payload);
            r.next == ring_add16(b@.next, r.readable.len() - b@.readable.len())
        }),
{
    lemma_insert_delivers_in_order(b@, seq, payload);
}

/// A non-empty payload whose sequence number lies ahead of the expected one,
/// by at most half the ring, always waits: it is filed under its sequence
/// number (replacing an earlier payload there), whatever else is pending, and
/// nothing else changes.
pub proof fn lemma_insert_ahead_waits(v: RecvBufferView, seq: u16, payload: Bytes)
    requires
        bytes_view(payload).len() > 0,
        1 <= (seq - v.next) % 0x1_0000 <= 0x8000,
    ensures
        insert_spec(v, seq, payload).pending == v.pending.insert(seq, payload),
        insert_spec(v, seq, payload).next == v.next,
        insert_spec(v, seq, payload).readable == v.readable,
{
}

/// The payload carrying the expected sequence number is made readable at
/// once, after what was already readable, and the expected number moves past
/// it (wrapping from 65535 to 0) and past every pending payload that follows.
pub proof fn lemma_insert_expected_delivers(v: RecvBufferView, payload: Bytes)
    requires
        view_wf(v),
        bytes_view(payload).len() > 0,
    ensures
        ({
            let r = insert_spec(v, v.next, payload);
            &&& r.readable.len() > v.readable.len()
            &&& r.readable[v.readable.len() as int] == payload
            &&& r.readable.subrange(0, v.readable.len() as int) == v.readable
            &&& !r.pending.contains_key(r.next)
            &&& r.next as int == (v.next + (r.readable.len() - v.readable.len())) % 0x1_0000
        }),
{
    let w = RecvBufferView {
        next: seq_succ(v.next),
        pending: v.pending,
        readable: v.readable.push(payload),
    };
    lemma_drain(w);
    lemma_insert_delivers_in_order(v, v.next, payload);
    let r = insert_spec(v, v.next, payload);
    assert(r == drain(w));
    assert(r.readable.subrange(0, w.readable.len() as int)[v.readable.len() as int] == payload);
}

} // verus!
