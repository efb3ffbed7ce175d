use vstd::prelude::*;

verus! {

/// How long spawned debris lives, in milliseconds.
pub const DEBRIS_TTL_MS: u64 = 5000;

/// The time, in milliseconds, at which an entity is due for removal.
#[derive(Clone, Copy, Debug, PartialEq, Eq, Structural)]
pub struct DeleteAt(pub u64);

impl DeleteAt {
    /// The removal time `duration` milliseconds after `now`.
    pub fn after(now: u64, duration: u64) -> (r: DeleteAt)
        requires
            now + duration <= u64::MAX,
        ensures
            r.0 == now + duration,
    {
        DeleteAt(now + duration)
    }

    /// Whether the entity is due at time `now`.
    pub fn is_due(&self, now: u64) -> (r: bool)
        ensures
            r == (self.0 <= now),
    {
        self.0 <= now
    }
}

/// The entries whose expiry lies after `now`, in order.
pub open spec fn keep_later(s: Seq<(u64, u64)>, now: u64) -> Seq<(u64, u64)>
    decreases s.len(),
{
    if s.len() == 0 {
        s
    } else {
        let rest = keep_later(s.drop_last(), now);
        if s.last().1 > now {
            rest.push(s.last())
        } else {
            rest
        }
    }
}

/// The entities whose expiry is at or before `now`, in order.
pub open spec fn due_entities(s: Seq<(u64, u64)>, now: u64) -> Seq<u64>
    decreases s.len(),
{
    if s.len() == 0 {
        Seq::empty()
    } else {
        let rest = due_entities(s.drop_last(), now);
        if s.last().1 <= now {
            rest.push(s.last().0)
        } else {
            rest
        }
    }
}

/// The entries for entities other than `e`, in order.
pub open spec fn without(s: Seq<(u64, u64)>, e: u64) -> Seq<(u64, u64)>
    decreases s.len(),
{
    if s.len() == 0 {
        s
    } else {
        let rest = without(s.drop_last(), e);
        if s.last().0 != e {
            rest.push(s.last())
        } else {
            rest
        }
    }
}

/// Whether `e` has an entry.
pub open spec fn pending(s: Seq<(u64, u64)>, e: u64) -> bool {
    exists|x: u64| #[trigger] s.contains((e, x))
}

/// The entries left after one sweep at each of `times`, in order.
pub open spec fn sweeps(s: Seq<(u64, u64)>, times: Seq<u64>) -> Seq<(u64, u64)>
    decreases times.len(),
{
    if times.len() == 0 {
        s
    } else {
        keep_later(sweeps(s, times.drop_last()), times.last())
    }
}

proof fn lemma_contains_last(s: Seq<(u64, u64)>)
    requires
        s.len() > 0,
    ensures
        forall|p: (u64, u64)| #[trigger] s.contains(p) <==> s.drop_last().contains(p) || p == s.last(),
{
    assert forall|p: (u64, u64)| #[trigger] s.contains(p) implies s.drop_last().contains(p) || p == s.last() by {
        let k = choose|k: int| 0 <= k < s.len() && s[k] == p;
        if k < s.len() - 1 {
            assert(s.drop_last()[k] == p);
        }
    }
    assert forall|p: (u64, u64)| s.drop_last().contains(p) implies #[trigger] s.contains(p) by {
        let k = choose|k: int| 0 <= k < s.len() - 1 && s.drop_last()[k] == p;
        assert(s[k] == p);
    }
    assert(s[s.len() - 1] == s.last());
}

proof fn lemma_contains_push(s: Seq<(u64, u64)>, x: (u64, u64))
    ensures
        forall|p: (u64, u64)| #[trigger] s.push(x).contains(p) <==> s.contains(p) || p == x,
{
    lemma_contains_last(s.push(x));
    assert(s.push(x).drop_last() =~= s);
}

/// An entry survives a sweep at `now` exactly when it expires after `now`.
pub proof fn lemma_keep_later_contains(s: Seq<(u64, u64)>, now: u64)
    ensures
        forall|p: (u64, u64)| #[trigger] keep_later(s, now).contains(p) <==> s.contains(p) && p.1 > now,
    decreases s.len(),
{
    if s.len() > 0 {
        lemma_keep_later_contains(s.drop_last(), now);
        lemma_contains_last(s);
        lemma_contains_push(keep_later(s.drop_last(), now), s.last());
    }
}

/// Dropping the entries of `e` keeps exactly the entries of other entities.
pub proof fn lemma_without_contains(s: Seq<(u64, u64)>, e: u64)
    ensures
        forall|p: (u64, u64)| #[trigger] without(s, e).contains(p) <==> s.contains(p) && p.0 != e,
    decreases s.len(),
{
    if s.len() > 0 {
        lemma_without_contains(s.drop_last(), e);
        lemma_contains_last(s);
        lemma_contains_push(without(s.drop_last(), e), s.last());
    }
}

/// Dropping the entries of an entity that has none leaves the entries as they are.
pub proof fn lemma_without_absent(s: Seq<(u64, u64)>, e: u64)
    requires
        !pending(s, e),
    ensures
        without(s, e) == s,
    decreases s.len(),
{
    if s.len() > 0 {
        lemma_contains_last(s);
        assert(s.contains((s.last().0, s.last().1)));
        assert(!pending(s.drop_last(), e)) by {
            if pending(s.drop_last(), e) {
                let x = choose|x: u64| #[trigger] s.drop_last().contains((e, x));
                assert(s.contains((e, x)));
            }
        }
        lemma_without_absent(s.drop_last(), e);
        assert(s.drop_last().push(s.last()) =~= s);
    }
}

/// Removing an entity a second time changes nothing: after the first removal it
/// has no entry, and removing an entity without an entry leaves the queue as it is.
pub proof fn lemma_remove_twice(s: Seq<(u64, u64)>, e: u64)
    ensures
        !pending(without(s, e), e),
        without(without(s, e), e) == without(s, e),
{
    lemma_without_contains(s, e);
    lemma_without_absent(without(s, e), e);
}

/// An entity registered to expire at `expiry` is still scheduled after sweeps at
/// `times` exactly when every sweep came before `expiry`.
pub proof fn lemma_registered_lifetime(s: Seq<(u64, u64)>, e: u64, expiry: u64, times: Seq<u64>)
    ensures
        pending(sweeps(without(s, e).push((e, expiry)), times), e)
            <==> forall|k: int| 0 <= k < times.len() ==> times[k] < expiry,
        forall|x: u64| #[trigger] sweeps(without(s, e).push((e, expiry)), times).contains((e, x))
            ==> x == expiry,
    decreases times.len(),
{
    let start = without(s, e).push((e, expiry));
    if times.len() == 0 {
        lemma_without_contains(s, e);
        lemma_contains_push(without(s, e), (e, expiry));
        assert(start.contains((e, expiry)));
    } else {
        let prev = times.drop_last();
        lemma_registered_lifetime(s, e, expiry, prev);
        let before = sweeps(start, prev);
        lemma_keep_later_contains(before, times.last());
        assert(sweeps(start, times) == keep_later(before, times.last()));
        if pending(before, e) && expiry > times.last() {
            let x = choose|x: u64| #[trigger] before.contains((e, x));
            assert(keep_later(before, times.last()).contains((e, x)));
        }
        assert(forall|k: int| 0 <= k < prev.len() ==> prev[k] == times[k]);
        if forall|k: int| 0 <= k < times.len() ==> times[k] < expiry {
            assert(forall|k: int| 0 <= k < prev.len() ==> prev[k] < expiry) by {
                assert forall|k: int| 0 <= k < prev.len() implies prev[k] < expiry by {
                    assert(times[k] < expiry);
                }
            }
            assert(times[times.len() - 1] < expiry);
        }
    }
}

/// Registry of entities and the times at which they are removed.
pub struct RemovalQueue {
    entries: Vec<(u64, u64)>,
}

impl View for RemovalQueue {
    type V = Seq<(u64, u64)>;

    closed spec fn view(&self) -> Seq<(u64, u64)> {
        self.entries@
    }
}

/// The entries of `s` for entities other than `e`, in order.
fn retain_other(s: &Vec<(u64, u64)>, e: u64) -> (r: Vec<(u64, u64)>)
    ensures
        r@ == without(s@, e),
{
    let mut out: Vec<(u64, u64)> = Vec::new();
    let mut i: usize = 0;
    while i < s.len()
        invariant
            i <= s@.len(),
            out@ == without(s@.take(i as int), e),
        decreases s@.len() - i,
    {
        let p = s[i];
        proof {
            assert(s@.take(i + 1).drop_last() =~= s@.take(i as int));
        }
        if p.0 != e {
            out.push(p);
        }
        i = i + 1;
    }
    proof {
        assert(s@.take(i as int) =~= s@);
    }
    out
}

impl RemovalQueue {
    /// An empty queue.
    pub fn new() -> (r: RemovalQueue)
        ensures
            r@ == Seq::<(u64, u64)>::empty(),
    {
        RemovalQueue { entries: Vec::new() }
    }

    /// Schedules `entity` for removal at `at`, replacing any earlier schedule of it.
    pub fn register(&mut self, entity: u64, at: DeleteAt)
        ensures
            final(self)@ == without(old(self)@, entity).push((entity, at.0)),
    {
        let mut kept = retain_other(&self.entries, entity);
        kept.push((entity, at.0));
        self.entries = kept;
    }

    /// Drops the entry of `entity`; nothing happens when it has none.
    pub fn remove(&mut self, entity: u64)
        ensures
            final(self)@ == without(old(self)@, entity),
    {
        self.entries = retain_other(&self.entries, entity);
    }

    /// Whether `entity` is scheduled.
    pub fn contains(&self, entity: u64) -> (r: bool)
        ensures
            r == pending(self@, entity),
    {
        let mut i: usize = 0;
        while i < self.entries.len()
            invariant
                i <= self@.len(),
                forall|k: int| 0 <= k < i ==> (#[trigger] self@[k]).0 != entity,
            decreases self@.len() - i,
        {
            if self.entries[i].0 == entity {
                proof {
                    assert(self@.contains((entity, self@[i as int].1)));
                }
                return true;
            }
            i = i + 1;
        }
        proof {
            assert forall|x: u64| !#[trigger] self@.contains((entity, x)) by {
                if self@.contains((entity, x)) {
                    let k = choose|k: int| 0 <= k < self@.len() && self@[k] == (entity, x);
                    assert(self@[k].0 != entity);
                }
            }
        }
        false
    }

    /// The number of scheduled entities.
    pub fn len(&self) -> (r: usize)
        ensures
            r == self@.len(),
    {
        self.entries.len()
    }
}

/// One sweep at time `now`: removes every entry that is due and returns its
/// entity, in the order of registration.
pub fn delete_at(queue: &mut RemovalQueue, now: u64) -> (r: Vec<u64>)
    ensures
        final(queue)@ == keep_later(old(queue)@, now),
        r@ == due_entities(old(queue)@, now),
{
    let mut kept: Vec<(u64, u64)> = Vec::new();
    let mut due: Vec<u64> = Vec::new();
    let mut i: usize = 0;
    while i < queue.entries.len()
        invariant
            i <= queue@.len(),
            kept@ == keep_later(queue@.take(i as int), now),
            due@ == due_entities(queue@.take(i as int), now),
        decreases queue@.len() - i,
    {
        let p = queue.entries[i];
        proof {
            assert(queue@.take(i + 1).drop_last() =~= queue@.take(i as int));
        }
        if p.1 <= now {
            due.push(p.0);
        } else {
            kept.push(p);
        }
        i = i + 1;
    }
    proof {
        assert(queue@.take(i as int) =~= queue@);
    }
    queue.entries = kept;
    due
}

} // verus!
