//! Pending-send registry of the frame dispatcher.
//!
//! When a frame is handed to the hardware, a record of it is kept under its
//! `(bus, identifier)` key together with a ticket that names the waiting
//! sender. When the hardware echoes a frame back (`loopback == true`), the
//! oldest record under the echo's key is taken out and its ticket returned, so
//! that the matching sender can be woken.
use vstd::prelude::*;
use crate::can::{Frame, Identifier, bytes_equal, same_frame};

verus! {

/// A frame waiting for its hardware echo, and the ticket of its sender.
pub struct PendingSend {
    pub frame: Frame,
    pub ticket: u64,
}

/// What the registry remembers of one pending send.
pub struct SendRecord {
    pub bus: u8,
    pub id: Identifier,
    pub data: Seq<u8>,
    pub fd: bool,
    pub ticket: u64,
}

/// Why an echo could not be matched. Either one means that the adapter
/// reordered frames, which the dispatcher treats as fatal.
#[derive(Debug, Clone, Copy, PartialEq, Eq, Structural)]
pub enum EchoError {
    /// No send is pending under the echo's bus and identifier.
    NoPendingSend,
    /// The oldest pending send under that key differs from the echo.
    Mismatch,
}

pub open spec fn record_of(p: PendingSend) -> SendRecord {
    SendRecord { bus: p.frame.bus, id: p.frame.id, data: p.frame.data@, fd: p.frame.fd, ticket: p.ticket }
}

pub open spec fn has_key(r: SendRecord, bus: u8, id: Identifier) -> bool {
    r.bus == bus && r.id == id
}

/// The record matches the echoed frame by bus, identifier, payload and framing.
pub open spec fn echo_matches(r: SendRecord, f: Frame) -> bool {
    r.bus == f.bus && r.id == f.id && r.data == f.data@ && r.fd == f.fd
}

/// Index of the oldest record under a key, or -1.
pub open spec fn first_with_key(s: Seq<SendRecord>, bus: u8, id: Identifier) -> int
    decreases s.len(),
{
    if s.len() == 0 {
        -1
    } else if has_key(s[0], bus, id) {
        0
    } else {
        let r = first_with_key(s.drop_first(), bus, id);
        if r < 0 {
            -1
        } else {
            r + 1
        }
    }
}

/// The tickets of the records are pairwise distinct.
pub open spec fn tickets_distinct(s: Seq<SendRecord>) -> bool {
    forall|i: int, j: int| 0 <= i < s.len() && 0 <= j < s.len() && i != j ==> s[i].ticket != s[j].ticket
}

proof fn lemma_first_with_key(s: Seq<SendRecord>, bus: u8, id: Identifier, i: int)
    requires
        -1 <= i <= s.len(),
        forall|j: int| 0 <= j < i ==> !has_key(#[trigger] s[j], bus, id),
        i == s.len() || (i >= 0 && i < s.len() && has_key(s[i], bus, id)),
    ensures
        first_with_key(s, bus, id) == (if i == s.len() { -1 } else { i }),
    decreases s.len(),
{
    if s.len() > 0 && i > 0 {
        let t = s.drop_first();
        assert forall|j: int| 0 <= j < i - 1 implies !has_key(#[trigger] t[j], bus, id) by {
            assert(t[j] == s[j + 1]);
        }
        if i < s.len() {
            assert(t[i - 1] == s[i]);
        }
        lemma_first_with_key(t, bus, id, i - 1);
    }
}

/// Characterises `first_with_key`: it is an index of a record under the
/// key, and no record before it has the key.
pub proof fn lemma_first_with_key_facts(s: Seq<SendRecord>, bus: u8, id: Identifier)
    ensures
        -1 <= first_with_key(s, bus, id) < s.len(),
        first_with_key(s, bus, id) >= 0 ==> has_key(s[first_with_key(s, bus, id)], bus, id),
        forall|j: int|
            0 <= j < s.len() && (first_with_key(s, bus, id) < 0 || j < first_with_key(s, bus, id))
                ==> !has_key(#[trigger] s[j], bus, id),
    decreases s.len(),
{
    if s.len() > 0 {
        let t = s.drop_first();
        lemma_first_with_key_facts(t, bus, id);
        assert forall|j: int|
            0 <= j < s.len() && (first_with_key(s, bus, id) < 0 || j < first_with_key(s, bus, id))
                implies !has_key(#[trigger] s[j], bus, id) by {
            if j > 0 {
                assert(s[j] == t[j - 1]);
            }
        }
    }
}

/// Sends on one bus and identifier are resolved in the order they were
/// registered: while two of them are pending, the later one is never the next
/// to be resolved, and resolving the next one keeps the two in order.
pub proof fn lemma_echo_order(s: Seq<SendRecord>, a: int, b: int)
    requires
        0 <= a < b < s.len(),
        has_key(s[b], s[a].bus, s[a].id),
    ensures
        ({
            let f = first_with_key(s, s[a].bus, s[a].id);
            &&& 0 <= f <= a
            &&& f < a ==> {
                &&& s.remove(f)[a - 1] == s[a]
                &&& s.remove(f)[b - 1] == s[b]
            }
        }),
{
    lemma_first_with_key_facts(s, s[a].bus, s[a].id);
}

/// The queue of one key: its records, in registration order.
pub open spec fn keyed(s: Seq<SendRecord>, bus: u8, id: Identifier) -> Seq<SendRecord>
    decreases s.len(),
{
    if s.len() == 0 {
        Seq::empty()
    } else if has_key(s[0], bus, id) {
        seq![s[0]] + keyed(s.drop_first(), bus, id)
    } else {
        keyed(s.drop_first(), bus, id)
    }
}

proof fn lemma_keyed_push(s: Seq<SendRecord>, r: SendRecord, bus: u8, id: Identifier)
    ensures
        keyed(s.push(r), bus, id) == if has_key(r, bus, id) {
            keyed(s, bus, id).push(r)
        } else {
            keyed(s, bus, id)
        },
    decreases s.len(),
{
    if s.len() == 0 {
        assert(s.push(r).drop_first() =~= Seq::<SendRecord>::empty());
        assert(s.push(r)[0] == r);
        assert(keyed(Seq::<SendRecord>::empty(), bus, id) == Seq::<SendRecord>::empty());
        assert(seq![r] + Seq::<SendRecord>::empty() =~= seq![r]);
        assert(s =~= Seq::<SendRecord>::empty());
        assert(keyed(s, bus, id) == Seq::<SendRecord>::empty());
        assert(Seq::<SendRecord>::empty().push(r) =~= seq![r]);
    } else {
        assert(s.push(r).drop_first() =~= s.drop_first().push(r));
        lemma_keyed_push(s.drop_first(), r, bus, id);
        if has_key(s[0], bus, id) {
            assert(seq![s[0]] + keyed(s.drop_first(), bus, id).push(r) =~= (seq![s[0]] + keyed(s.drop_first(), bus, id)).push(r));
        }
    }
}

proof fn lemma_keyed_remove(s: Seq<SendRecord>, i: int, bus: u8, id: Identifier, bus2: u8, id2: Identifier)
    requires
        first_with_key(s, bus, id) == i,
        i >= 0,
    ensures
        keyed(s, bus, id).len() > 0,
        keyed(s, bus, id)[0] == s[i],
        keyed(s.remove(i), bus, id) == keyed(s, bus, id).drop_first(),
        !(bus2 == bus && id2 == id) ==> keyed(s.remove(i), bus2, id2) == keyed(s, bus2, id2),
    decreases s.len(),
{
    lemma_first_with_key_facts(s, bus, id);
    if i == 0 {
        assert(s.remove(0) =~= s.drop_first());
    } else {
        let t = s.drop_first();
        assert(!has_key(s[0], bus, id));
        lemma_first_with_key_facts(t, bus, id);
        assert(first_with_key(t, bus, id) == i - 1);
        lemma_keyed_remove(t, i - 1, bus, id, bus2, id2);
        assert(s.remove(i).drop_first() =~= t.remove(i - 1));
        assert(s.remove(i)[0] == s[0]);
        assert(t[i - 1] == s[i]);
    }
}

/// Per-key FIFO: the registry keeps one queue per bus and identifier.
/// Registering a send appends it to its key's queue and leaves the others;
/// an echo resolves the head of its key's queue and leaves the others. So
/// sends on one key resolve in the order they were registered.
pub proof fn lemma_per_key_fifo(s: Seq<SendRecord>, r: SendRecord, bus: u8, id: Identifier, bus2: u8, id2: Identifier)
    ensures
        keyed(s.push(r), r.bus, r.id) == keyed(s, r.bus, r.id).push(r),
        !(bus2 == r.bus && id2 == r.id) ==> keyed(s.push(r), bus2, id2) == keyed(s, bus2, id2),
        first_with_key(s, bus, id) >= 0 ==> {
            let i = first_with_key(s, bus, id);
            &&& keyed(s, bus, id).len() > 0
            &&& s[i] == keyed(s, bus, id)[0]
            &&& keyed(s.remove(i), bus, id) == keyed(s, bus, id).drop_first()
            &&& !(bus2 == bus && id2 == id) ==> keyed(s.remove(i), bus2, id2) == keyed(s, bus2, id2)
        },
        first_with_key(s, bus, id) < 0 ==> keyed(s, bus, id).len() == 0,
{
    lemma_keyed_push(s, r, r.bus, r.id);
    lemma_keyed_push(s, r, bus2, id2);
    if first_with_key(s, bus, id) >= 0 {
        lemma_keyed_remove(s, first_with_key(s, bus, id), bus, id, bus2, id2);
    } else {
        lemma_keyed_empty(s, bus, id);
    }
}

proof fn lemma_keyed_empty(s: Seq<SendRecord>, bus: u8, id: Identifier)
    requires
        first_with_key(s, bus, id) < 0,
    ensures
        keyed(s, bus, id).len() == 0,
    decreases s.len(),
{
    if s.len() > 0 {
        lemma_keyed_empty(s.drop_first(), bus, id);
    }
}

/// A resolved send is resolved once: when the tickets are distinct, the
/// ticket of the record taken out occurs nowhere in what remains.
pub proof fn lemma_resolved_once(s: Seq<SendRecord>, i: int)
    requires
        tickets_distinct(s),
        0 <= i < s.len(),
    ensures
        forall|j: int| 0 <= j < s.remove(i).len() ==> #[trigger] s.remove(i)[j].ticket != s[i].ticket,
        tickets_distinct(s.remove(i)),
{
    assert forall|j: int| 0 <= j < s.remove(i).len() implies #[trigger] s.remove(i)[j].ticket != s[i].ticket by {
        if j < i {
            assert(s.remove(i)[j] == s[j]);
        } else {
            assert(s.remove(i)[j] == s[j + 1]);
        }
    }
}

/// The registry: pending sends in the order they were handed to the hardware,
/// and the next ticket to give out.
///
/// One vector in sending order, searched from the front, holds the queues of
/// all keys: the queue of a key is the subsequence of its records
/// (`keyed`). A hash map keyed by `(bus, Identifier)` would rest on the
/// derived `Hash` and `Eq` of `Identifier`, which the verifier does not read,
/// so nothing could be proved of its lookups.
pub struct PendingSends {
    pending: Vec<PendingSend>,
    next_ticket: u64,
}

impl PendingSends {
    pub closed spec fn records(&self) -> Seq<SendRecord> {
        self.pending@.map_values(|p: PendingSend| record_of(p))
    }

    pub closed spec fn next(&self) -> u64 {
        self.next_ticket
    }

    /// Every pending ticket was given out before `next`, and none twice.
    pub open spec fn wf(&self) -> bool {
        &&& tickets_distinct(self.records())
        &&& forall|i: int| 0 <= i < self.records().len() ==> #[trigger] self.records()[i].ticket < self.next()
    }

    pub fn new() -> (r: PendingSends)
        ensures
            r.wf(),
            r.records() == Seq::<SendRecord>::empty(),
            r.next() == 0,
    {
        let r = PendingSends { pending: Vec::new(), next_ticket: 0 };
        assert(r.records() =~= Seq::<SendRecord>::empty());
        r
    }

    /// Number of sends still waiting for their echo.
    pub fn len(&self) -> (r: usize)
        ensures
            r == self.records().len(),
    {
        self.pending.len()
    }

    /// Records a frame handed to the hardware and gives its sender a fresh
    /// ticket. Returns `None`, with nothing recorded, once every ticket has
    /// been given out.
    pub fn register(&mut self, frame: &Frame) -> (r: Option<u64>)
        requires
            old(self).wf(),
        ensures
            final(self).wf(),
            old(self).next() == u64::MAX ==> r is None && final(self).records() == old(self).records(),
            old(self).next() < u64::MAX ==> {
                &&& r == Some(old(self).next())
                &&& final(self).next() == old(self).next() + 1
                &&& final(self).records() == old(self).records().push(
                    SendRecord {
                        bus: frame.bus,
                        id: frame.id,
                        data: frame.data@,
                        fd: frame.fd,
                        ticket: old(self).next(),
                    },
                )
            },
    {
        if self.next_ticket == u64::MAX {
            return None;
        }
        let ticket = self.next_ticket;
        let p = PendingSend { frame: frame.with_loopback(true), ticket };
        self.pending.push(p);
        self.next_ticket = ticket + 1;
        assert(self.records() =~= old(self).records().push(record_of(p)));
        Some(ticket)
    }

    /// Matches a hardware echo with the oldest pending send under its bus and
    /// identifier, takes that send out and returns its ticket. The send is
    /// taken out also when it differs from the echo.
    pub fn on_loopback(&mut self, frame: &Frame) -> (r: Result<u64, EchoError>)
        requires
            old(self).wf(),
        ensures
            final(self).wf(),
            final(self).next() == old(self).next(),
            ({
                let s = old(self).records();
                let i = first_with_key(s, frame.bus, frame.id);
                &&& i < 0 ==> r == Err::<u64, EchoError>(EchoError::NoPendingSend)
                    && final(self).records() == s
                &&& i >= 0 ==> {
                    &&& i < s.len() && has_key(s[i], frame.bus, frame.id)
                    &&& final(self).records() == s.remove(i)
                    &&& echo_matches(s[i], *frame) ==> r == Ok::<u64, EchoError>(s[i].ticket)
                    &&& !echo_matches(s[i], *frame) ==> r == Err::<u64, EchoError>(EchoError::Mismatch)
                }
            }),
    {
        let ghost s = self.records();
        let mut i: usize = 0;
        while i < self.pending.len() && !(self.pending[i].frame.bus == frame.bus
            && self.pending[i].frame.id == frame.id)
            invariant
                i <= self.pending@.len(),
                s == self.records(),
                forall|j: int| 0 <= j < i ==> !has_key(#[trigger] s[j], frame.bus, frame.id),
            decreases self.pending@.len() - i,
        {
            proof {
                assert(s[i as int] == record_of(self.pending@[i as int]));
            }
            i += 1;
        }
        proof {
            if i < self.pending.len() {
                assert(s[i as int] == record_of(self.pending@[i as int]));
            }
        }
        proof {
            lemma_first_with_key(s, frame.bus, frame.id, i as int);
            lemma_first_with_key_facts(s, frame.bus, frame.id);
        }
        if i == self.pending.len() {
            return Err(EchoError::NoPendingSend);
        }
        let p = self.pending.remove(i);
        proof {
            assert(s[i as int] == record_of(p));
            assert(self.records() =~= s.remove(i as int));
            lemma_resolved_once(s, i as int);
            assert forall|j: int| 0 <= j < self.records().len() implies #[trigger] self.records()[j].ticket < self.next() by {
                if j < i {
                    assert(self.records()[j] == s[j]);
                } else {
                    assert(self.records()[j] == s[j + 1]);
                }
            }
        }
        if p.frame.fd == frame.fd && bytes_equal(p.frame.data.as_slice(), frame.data.as_slice()) {
            Ok(p.ticket)
        } else {
            Err(EchoError::Mismatch)
        }
    }
}

} // verus!
