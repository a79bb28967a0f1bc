use vstd::prelude::*;

use crate::message::Message;

verus! {

/// The identity of one subscriber's attachment to a bus.
#[derive(Clone, Copy, Debug, PartialEq, Eq, Hash, Structural)]
pub struct ConnectionId {
    pub value: u64,
}

/// Why a bus refused to register a subscriber.
#[derive(Clone, Copy, Debug, PartialEq, Eq, Structural)]
pub enum BusError {
    /// The bus holds as many handles as it was configured for, or it has
    /// issued every identifier it can represent.
    CapacityExceeded,
}

/// A subscriber's report that it could not handle a delivered message.
#[derive(Clone, Copy, Debug, PartialEq, Eq, Structural)]
pub struct DeliveryFailed;

/// Something that can receive messages from a bus.
///
/// A sink written in verified code defines the three spec functions below
/// and proves `deliver` against them. The default bodies only let sinks
/// written outside verified code compile; for such a sink the contract of
/// `deliver` is its author's promise.
pub trait Sink {
    /// Every message delivered to this sink so far, oldest first.
    open spec fn received(&self) -> Seq<Seq<char>> {
        Seq::empty()
    }

    /// The message the sink holds now: the latest one delivered replaces
    /// whatever it held before.
    open spec fn current(&self) -> Seq<char> {
        Seq::empty()
    }

    /// Whether this sink, in its present state, refuses `m`.
    open spec fn refuses(&self, m: Seq<char>) -> bool {
        false
    }

    /// Hands `m` to the sink. The message counts as delivered, and replaces
    /// what the sink holds, whether or not the sink refuses it.
    fn deliver(&mut self, m: &Message) -> (r: Result<(), DeliveryFailed>)
        ensures
            final(self).received() == old(self).received().push(m@),
            final(self).current() == m@,
            r is Err <==> old(self).refuses(m@),
    ;
}

/// One registry entry: an identifier and the sink it delivers to.
pub struct Handle<S> {
    pub id: ConnectionId,
    pub sink: S,
}

/// No two handles share an identifier.
pub open spec fn unique_ids<S>(hs: Seq<Handle<S>>) -> bool {
    forall|i: int, j: int| 0 <= i < j < hs.len() ==> hs[i].id != hs[j].id
}

/// Some handle carries `id`.
pub open spec fn has_id<S>(hs: Seq<Handle<S>>, id: ConnectionId) -> bool {
    exists|i: int| 0 <= i < hs.len() && hs[i].id == id
}

/// The handles with `id` taken out; the same sequence where none carries it.
pub open spec fn without<S>(hs: Seq<Handle<S>>, id: ConnectionId) -> Seq<Handle<S>> {
    if has_id(hs, id) {
        hs.remove(choose|i: int| 0 <= i < hs.len() && hs[i].id == id)
    } else {
        hs
    }
}

/// `after` is `before` with `m` delivered exactly once to every handle: the
/// same identifiers in the same places, each sink's received messages grown by `m`,
/// and each sink now holding `m`.
pub open spec fn delivered_to_all<S: Sink>(
    before: Seq<Handle<S>>,
    after: Seq<Handle<S>>,
    m: Seq<char>,
) -> bool {
    &&& after.len() == before.len()
    &&& forall|i: int|
        0 <= i < before.len() ==> {
            &&& #[trigger] after[i].id == before[i].id
            &&& after[i].sink.received() == before[i].sink.received().push(m)
            &&& after[i].sink.current() == m
        }
}

/// The identifiers, in registry order, of the handles whose sink refuses `m`.
pub open spec fn refusals<S: Sink>(hs: Seq<Handle<S>>, m: Seq<char>) -> Seq<ConnectionId>
    decreases hs.len(),
{
    if hs.len() == 0 {
        Seq::empty()
    } else {
        let rest = refusals(hs.drop_last(), m);
        if hs.last().sink.refuses(m) {
            rest.push(hs.last().id)
        } else {
            rest
        }
    }
}

/// The dispatcher: a registry of handles, each of which receives every
/// message published while it is registered.
pub struct EventBus<S> {
    entries: Vec<Handle<S>>,
    next_id: u64,
    limit: usize,
}

impl<S: Sink> EventBus<S> {
    /// The registered handles, oldest first.
    pub closed spec fn handles(&self) -> Seq<Handle<S>> {
        self.entries@
    }

    /// The value the next identifier will carry; every identifier issued so
    /// far is below it.
    pub closed spec fn next_id(&self) -> nat {
        self.next_id as nat
    }

    /// The most handles the bus holds at once.
    pub closed spec fn capacity(&self) -> nat {
        self.limit as nat
    }

    /// Identifiers are unique, all below the next one to be issued, and the
    /// registry is within its capacity.
    pub open spec fn wf(&self) -> bool {
        &&& unique_ids(self.handles())
        &&& forall|i: int|
            0 <= i < self.handles().len() ==> (#[trigger] self.handles()[i]).id.value
                < self.next_id()
        &&& self.handles().len() <= self.capacity()
        &&& self.next_id() <= u64::MAX
        &&& self.capacity() <= usize::MAX
    }

    /// An empty bus with no limit on the number of handles.
    pub fn new() -> (b: EventBus<S>)
        ensures
            b.wf(),
            b.handles().len() == 0,
            b.next_id() == 0,
            b.capacity() == usize::MAX,
    {
        EventBus { entries: Vec::new(), next_id: 0, limit: usize::MAX }
    }

    /// An empty bus that holds at most `limit` handles at once.
    pub fn with_capacity_limit(limit: usize) -> (b: EventBus<S>)
        ensures
            b.wf(),
            b.handles().len() == 0,
            b.next_id() == 0,
            b.capacity() == limit,
    {
        EventBus { entries: Vec::new(), next_id: 0, limit }
    }

    /// `after` is `before` with `sink` added at the end under `id`, the
    /// identifier `before` was to issue next, which no handle of `before`
    /// carries.
    pub open spec fn registered(before: Self, after: Self, sink: S, id: ConnectionId) -> bool {
        &&& id.value == before.next_id()
        &&& !has_id(before.handles(), id)
        &&& after.handles().len() == before.handles().len() + 1
        &&& after.handles().drop_last() == before.handles()
        &&& after.handles().last().id == id
        &&& after.handles().last().sink == sink
        &&& after.next_id() == before.next_id() + 1
        &&& after.capacity() == before.capacity()
    }

    /// Adds `sink` under a fresh identifier. Fails, leaving the bus as it
    /// was, when the bus is full or has no identifier left to issue.
    pub fn register(&mut self, sink: S) -> (r: Result<ConnectionId, BusError>)
        requires
            old(self).wf(),
        ensures
            final(self).wf(),
            final(self).capacity() == old(self).capacity(),
            r is Err <==> (old(self).handles().len() >= old(self).capacity() || old(self).next_id()
                == u64::MAX),
            r is Err ==> r == Err::<ConnectionId, BusError>(BusError::CapacityExceeded)
                && final(self).handles() == old(self).handles() && final(self).next_id()
                == old(self).next_id(),
            r is Ok ==> Self::registered(*old(self), *final(self), sink, r->Ok_0),
    {
        if self.entries.len() >= self.limit || self.next_id == u64::MAX {
            return Err(BusError::CapacityExceeded);
        }
        let id = ConnectionId { value: self.next_id };
        self.entries.push(Handle { id, sink });
        self.next_id = self.next_id + 1;
        proof {
            assert(self.entries@.drop_last() =~= old(self).entries@);
            assert(!has_id(old(self).entries@, id));
        }
        Ok(id)
    }

    /// Removes the handle with `id`, if there is one; otherwise does nothing.
    pub fn unregister(&mut self, id: ConnectionId)
        requires
            old(self).wf(),
        ensures
            final(self).wf(),
            final(self).handles() == without(old(self).handles(), id),
            !has_id(final(self).handles(), id),
            final(self).next_id() == old(self).next_id(),
            final(self).capacity() == old(self).capacity(),
    {
        let n = self.entries.len();
        let mut i: usize = 0;
        while i < n
            invariant
                n == self.entries.len(),
                i <= n,
                self.entries@ == old(self).entries@,
                self.next_id == old(self).next_id,
                self.limit == old(self).limit,
                old(self).wf(),
                forall|k: int| 0 <= k < i ==> self.entries@[k].id != id,
            decreases n - i,
        {
            if self.entries[i].id == id {
                proof {
                    let hs = self.entries@;
                    assert(hs[i as int].id == id);
                    assert(has_id(hs, id));
                    let c = choose|k: int| 0 <= k < hs.len() && hs[k].id == id;
                    assert(c == i as int);
                }
                self.entries.remove(i);
                proof {
                    assert forall|a: int| 0 <= a < self.entries@.len() implies self.entries@[a].id
                        != id by {
                        if a >= i {
                            assert(self.entries@[a] == old(self).entries@[a + 1]);
                        }
                    }
                }
                return;
            }
            i = i + 1;
        }
    }

    /// Delivers `m` once to every registered handle, in registry order, and
    /// returns the identifiers of the handles whose sink refused it. A
    /// refusing sink does not stop delivery to the handles after it, and the
    /// registry keeps the same identifiers. The sinks cannot reach the bus
    /// while it delivers, so the handles served are exactly those registered
    /// when the call began.
    pub fn publish(&mut self, m: &Message) -> (failed: Vec<ConnectionId>)
        requires
            old(self).wf(),
        ensures
            final(self).wf(),
            delivered_to_all(old(self).handles(), final(self).handles(), m@),
            failed@ == refusals(old(self).handles(), m@),
            final(self).next_id() == old(self).next_id(),
            final(self).capacity() == old(self).capacity(),
    {
        let ghost start = self.entries@;
        let mut failed: Vec<ConnectionId> = Vec::new();
        let n = self.entries.len();
        let mut i: usize = 0;
        while i < n
            invariant
                n == self.entries.len(),
                start.len() == n,
                i <= n,
                self.next_id == old(self).next_id,
                self.limit == old(self).limit,
                start == old(self).entries@,
                forall|k: int| 0 <= k < n ==> (#[trigger] self.entries@[k]).id == start[k].id,
                forall|k: int|
                    0 <= k < i ==> {
                        &&& (#[trigger] self.entries@[k]).sink.received()
                            == start[k].sink.received().push(m@)
                        &&& self.entries@[k].sink.current() == m@
                    },
                forall|k: int| i <= k < n ==> #[trigger] self.entries@[k] == start[k],
                failed@ == refusals(start.take(i as int), m@),
            decreases n - i,
        {
            let entry = &mut self.entries[i];
            let outcome = entry.sink.deliver(m);
            if outcome.is_err() {
                failed.push(entry.id);
            }
            proof {
                let t = start.take(i as int + 1);
                assert(t.drop_last() =~= start.take(i as int));
                assert(t.last() == start[i as int]);
            }
            i = i + 1;
        }
        proof {
            assert(start.take(n as int) =~= start);
        }
        failed
    }

    /// The number of registered handles.
    pub fn len(&self) -> (n: usize)
        ensures
            n == self.handles().len(),
    {
        self.entries.len()
    }

    /// Whether no handle is registered.
    pub fn is_empty(&self) -> (r: bool)
        ensures
            r <==> self.handles().len() == 0,
    {
        self.entries.len() == 0
    }

    /// Whether a handle with `id` is registered.
    pub fn contains(&self, id: ConnectionId) -> (r: bool)
        ensures
            r <==> has_id(self.handles(), id),
    {
        let mut i: usize = 0;
        while i < self.entries.len()
            invariant
                i <= self.entries.len(),
                forall|k: int| 0 <= k < i ==> self.entries@[k].id != id,
            decreases self.entries.len() - i,
        {
            if self.entries[i].id == id {
                return true;
            }
            i = i + 1;
        }
        false
    }

    /// The sink registered under `id`, if any.
    pub fn sink(&self, id: ConnectionId) -> (r: Option<&S>)
        ensures
            r is None <==> !has_id(self.handles(), id),
            r is Some ==> exists|i: int|
                0 <= i < self.handles().len() && self.handles()[i].id == id && self.handles()[i].sink
                    == *r->Some_0,
    {
        let mut i: usize = 0;
        while i < self.entries.len()
            invariant
                i <= self.entries.len(),
                forall|k: int| 0 <= k < i ==> self.entries@[k].id != id,
            decreases self.entries.len() - i,
        {
            if self.entries[i].id == id {
                return Some(&self.entries[i].sink);
            }
            i = i + 1;
        }
        None
    }
}

/// Unregistering is idempotent: taking `id` out of a registry a second time
/// leaves it as the first removal did.
pub proof fn lemma_unregister_idempotent<S: Sink>(b: EventBus<S>, id: ConnectionId)
    requires
        b.wf(),
    ensures
        without(without(b.handles(), id), id) == without(b.handles(), id),
{
    lemma_without_drops_id(b.handles(), id);
}

/// Once `id` is unregistered, a later publish delivers nothing under it: the
/// registry it reaches holds no handle with `id`, and, where `id` had been
/// issued, every identifier issued from then on is above it.
pub proof fn lemma_no_delivery_after_unregister<S: Sink>(
    b0: EventBus<S>,
    b1: EventBus<S>,
    b2: EventBus<S>,
    id: ConnectionId,
    m: Seq<char>,
)
    requires
        b0.wf(),
        b1.handles() == without(b0.handles(), id),
        b1.next_id() == b0.next_id(),
        delivered_to_all(b1.handles(), b2.handles(), m),
        b2.next_id() == b1.next_id(),
    ensures
        !has_id(b2.handles(), id),
        has_id(b0.handles(), id) ==> id.value < b2.next_id(),
{
    lemma_without_drops_id(b0.handles(), id);
    if has_id(b2.handles(), id) {
        let k = choose|k: int| 0 <= k < b2.handles().len() && b2.handles()[k].id == id;
        assert(b1.handles()[k].id == id);
    }
}

/// Identifiers are never shared: two registrations in a row issue two
/// different identifiers, and both handles stand in the registry, neither
/// overwriting the other.
pub proof fn lemma_registrations_get_distinct_ids<S: Sink>(
    b0: EventBus<S>,
    b1: EventBus<S>,
    b2: EventBus<S>,
    s1: S,
    s2: S,
    id1: ConnectionId,
    id2: ConnectionId,
)
    requires
        b0.wf(),
        EventBus::registered(b0, b1, s1, id1),
        EventBus::registered(b1, b2, s2, id2),
    ensures
        id1 != id2,
        has_id(b2.handles(), id1),
        has_id(b2.handles(), id2),
        b2.handles().len() == b0.handles().len() + 2,
        unique_ids(b2.handles()),
{
    let hs = b2.handles();
    let n = hs.len();
    assert(hs[n - 1].id == id2);
    assert(hs[n - 2] == b1.handles()[n - 2]);
    assert(hs[n - 2].id == id1);
    assert forall|i: int, j: int| 0 <= i < j < n implies hs[i].id != hs[j].id by {
        if j < n - 2 {
            assert(hs[i] == b0.handles()[i]);
            assert(hs[j] == b0.handles()[j]);
        } else if i < n - 2 {
            assert(hs[i] == b0.handles()[i]);
            assert(hs[i].id.value < b0.next_id());
        }
    }
}

/// With unique identifiers, no handle of `without(hs, id)` carries `id`.
proof fn lemma_without_drops_id<S>(hs: Seq<Handle<S>>, id: ConnectionId)
    requires
        unique_ids(hs),
    ensures
        !has_id(without(hs, id), id),
        without(without(hs, id), id) == without(hs, id),
{
    if has_id(hs, id) {
        let c = choose|i: int| 0 <= i < hs.len() && hs[i].id == id;
        let r = hs.remove(c);
        assert forall|a: int| 0 <= a < r.len() implies r[a].id != id by {
            if a < c {
                assert(r[a] == hs[a]);
            } else {
                assert(r[a] == hs[a + 1]);
            }
        }
    }
}

} // verus!
