//! The listener registry: the core data structure shared by both buses.
//!
//! A registry maps each event name to the insertion-ordered sequence of
//! listener records registered for it, and allocates the strictly
//! increasing listener identifiers.  It is generic in the callback handle
//! type, so the single-thread and the thread-safe bus reuse one verified
//! core.

use vstd::prelude::*;

verus! {

/// A handle that can be duplicated without changing the value it stands
/// for.  The callback handles of both buses implement this: duplicating
/// them bumps a reference count on the shared closure.
pub trait Dup: Sized {
    /// A second handle to the same underlying value.
    fn dup(&self) -> (r: Self)
        ensures
            r == *self,
    ;
}

/// The unit stored per registration: identifier, callback handle and the
/// once-flag that marks the listener for removal after its first
/// invocation.
pub struct Listener<C> {
    pub id: u64,
    pub callback: C,
    pub once: bool,
}

struct EventEntry<C> {
    name: String,
    items: Vec<Listener<C>>,
}

/// Keeps the listeners whose identifier differs from the given one.
pub open spec fn keeps_id<C>(id: u64) -> spec_fn(Listener<C>) -> bool {
    |l: Listener<C>| l.id != id
}

/// Keeps the listeners not flagged for removal after one invocation.
pub open spec fn is_persistent<C>() -> spec_fn(Listener<C>) -> bool {
    |l: Listener<C>| !l.once
}

/// The listener sequence with every record of the given identifier
/// removed.
pub open spec fn without_id<C>(s: Seq<Listener<C>>, id: u64) -> Seq<Listener<C>> {
    s.filter(keeps_id(id))
}

/// The listener sequence with every once-flagged record removed.
pub open spec fn persistent_only<C>(s: Seq<Listener<C>>) -> Seq<Listener<C>> {
    s.filter(is_persistent())
}

/// Keeps the listeners that survive a dispatch pass which invoked the
/// given identifiers: everything but the once-flagged records among them.
pub open spec fn survives_pass<C>(invoked: Seq<u64>) -> spec_fn(Listener<C>) -> bool {
    |l: Listener<C>| !(l.once && invoked.contains(l.id))
}

/// The listener sequence after a dispatch pass that invoked the given
/// identifiers: its once-flagged records among them are removed, and
/// nothing else is.
pub open spec fn after_pass<C>(s: Seq<Listener<C>>, invoked: Seq<u64>) -> Seq<Listener<C>> {
    s.filter(survives_pass(invoked))
}

/// The callbacks of a listener sequence, in the same order.
pub open spec fn callbacks_of<C>(s: Seq<Listener<C>>) -> Seq<C> {
    s.map_values(|l: Listener<C>| l.callback)
}

/// Whether some listener of the sequence carries the given identifier.
pub open spec fn has_id<C>(s: Seq<Listener<C>>, id: u64) -> bool {
    exists|k: int| 0 <= k < s.len() && (#[trigger] s[k]).id == id
}

/// One registration appended: the new sequence extends the old one by a
/// single listener carrying the given identifier and once-flag.
pub open spec fn appended<C>(
    pre: Seq<Listener<C>>,
    post: Seq<Listener<C>>,
    id: u64,
    once: bool,
) -> bool {
    &&& post.len() == pre.len() + 1
    &&& post.drop_last() == pre
    &&& post.last().id == id
    &&& post.last().once == once
}

/// Every identifier in the sequence is below the bound.
pub open spec fn ids_below<C>(s: Seq<Listener<C>>, bound: u64) -> bool {
    forall|k: int| 0 <= k < s.len() ==> (#[trigger] s[k]).id < bound
}

/// Identifiers strictly increase along the sequence (so they are pairwise
/// distinct within it).
pub open spec fn ids_increasing<C>(s: Seq<Listener<C>>) -> bool {
    forall|k1: int, k2: int| 0 <= k1 < k2 < s.len() ==> #[trigger] s[k1].id < #[trigger] s[k2].id
}

/// No identifier occurs in both sequences.
pub open spec fn ids_disjoint<C>(a: Seq<Listener<C>>, b: Seq<Listener<C>>) -> bool {
    forall|k1: int, k2: int| 0 <= k1 < a.len() && 0 <= k2 < b.len() ==> #[trigger] a[k1].id != #[trigger] b[k2].id
}

/// Every element of a filtered sequence occurs in the sequence itself.
proof fn lemma_filter_element_of<C>(s: Seq<Listener<C>>, p: spec_fn(Listener<C>) -> bool, k: int)
    requires
        0 <= k < s.filter(p).len(),
    ensures
        exists|m: int| 0 <= m < s.len() && s[m] == s.filter(p)[k],
    decreases s.len(),
{
    reveal(Seq::filter);
    if s.len() == 0 {
    } else {
        let d = s.drop_last();
        let sub = d.filter(p);
        if p(s.last()) && k == sub.len() {
            assert(s[s.len() - 1] == s.filter(p)[k]);
        } else {
            lemma_filter_element_of(d, p, k);
            let m = choose|m: int| 0 <= m < d.len() && d[m] == d.filter(p)[k];
            assert(s[m] == s.filter(p)[k]);
        }
    }
}

/// Filtering keeps every identifier below an existing bound.
proof fn lemma_filter_ids_below<C>(s: Seq<Listener<C>>, p: spec_fn(Listener<C>) -> bool, bound: u64)
    requires
        ids_below(s, bound),
    ensures
        ids_below(s.filter(p), bound),
{
    assert forall|k: int| 0 <= k < s.filter(p).len() implies (#[trigger] s.filter(p)[k]).id
        < bound by {
        lemma_filter_element_of(s, p, k);
    }
}

/// Filtering keeps identifiers strictly increasing.
proof fn lemma_filter_ids_increasing<C>(s: Seq<Listener<C>>, p: spec_fn(Listener<C>) -> bool)
    requires
        ids_increasing(s),
    ensures
        ids_increasing(s.filter(p)),
    decreases s.len(),
{
    reveal(Seq::filter);
    if s.len() == 0 {
    } else {
        let d = s.drop_last();
        assert(ids_increasing(d)) by {
            assert(forall|k: int| 0 <= k < d.len() ==> d[k] == s[k]);
        }
        lemma_filter_ids_increasing(d, p);
        if p(s.last()) {
            assert(ids_below(d, s.last().id)) by {
                assert(forall|k: int| 0 <= k < d.len() ==> (#[trigger] d[k]).id < s.last().id);
            }
            lemma_filter_ids_below(d, p, s.last().id);
            let out = d.filter(p).push(s.last());
            assert forall|k1: int, k2: int| 0 <= k1 < k2 < out.len() implies #[trigger] out[k1].id
                < #[trigger] out[k2].id by {
                if k2 < d.filter(p).len() {
                    assert(out[k1] == d.filter(p)[k1] && out[k2] == d.filter(p)[k2]);
                } else {
                    assert(out[k2] == s.last());
                    assert(out[k1] == d.filter(p)[k1]);
                }
            }
        }
    }
}

/// Filtering one side keeps two sequences' identifier sets disjoint.
proof fn lemma_filter_ids_disjoint<C>(
    a: Seq<Listener<C>>,
    b: Seq<Listener<C>>,
    p: spec_fn(Listener<C>) -> bool,
)
    requires
        ids_disjoint(a, b),
    ensures
        ids_disjoint(a.filter(p), b),
        ids_disjoint(a, b.filter(p)),
{
    assert forall|k1: int, k2: int|
        0 <= k1 < a.filter(p).len() && 0 <= k2 < b.len() implies #[trigger] a.filter(p)[k1].id != (
    #[trigger] b[k2]).id by {
        lemma_filter_element_of(a, p, k1);
    }
    assert forall|k1: int, k2: int|
        0 <= k1 < a.len() && 0 <= k2 < b.filter(p).len() implies (#[trigger] a[k1]).id != (
    #[trigger] b.filter(p)[k2]).id by {
        lemma_filter_element_of(b, p, k2);
    }
}

/// One scanning step: filtering the prefix one longer either appends the
/// next element or leaves the filtered prefix as it was.
proof fn lemma_filter_prefix_step<C>(s: Seq<Listener<C>>, p: spec_fn(Listener<C>) -> bool, k: int)
    requires
        0 <= k < s.len(),
    ensures
        s.subrange(0, k + 1).filter(p) == if p(s[k]) {
            s.subrange(0, k).filter(p).push(s[k])
        } else {
            s.subrange(0, k).filter(p)
        },
{
    reveal(Seq::filter);
    let t = s.subrange(0, k + 1);
    assert(t.drop_last() =~= s.subrange(0, k));
    assert(t.last() == s[k]);
}

/// A filter that keeps every element keeps the whole sequence.
proof fn lemma_filter_all_true<C>(s: Seq<Listener<C>>, p: spec_fn(Listener<C>) -> bool)
    requires
        forall|k: int| 0 <= k < s.len() ==> p(#[trigger] s[k]),
    ensures
        s.filter(p) == s,
    decreases s.len(),
{
    reveal(Seq::filter);
    if s.len() == 0 {
    } else {
        let d = s.drop_last();
        assert(forall|k: int| 0 <= k < d.len() ==> p(#[trigger] d[k]));
        lemma_filter_all_true(d, p);
        assert(s.filter(p) == d.push(s.last()));
        assert(d.push(s.last()) =~= s);
    }
}

/// The dispatch snapshot lists, at each position, the callback of the
/// listener registered at that position: one emission invokes the
/// listeners of an event in registration order.
pub proof fn lemma_snapshot_in_registration_order<C>(s: Seq<Listener<C>>)
    ensures
        callbacks_of(s).len() == s.len(),
        forall|k: int| 0 <= k < s.len() ==> callbacks_of(s)[k] == (#[trigger] s[k]).callback,
{
}

/// Pruning removes every once-listener and leaves no once-listener
/// behind, so a once-listener runs in at most one emission: pruning what
/// is already pruned changes nothing.
pub proof fn lemma_once_listeners_pruned<C>(s: Seq<Listener<C>>)
    ensures
        forall|m: int|
            0 <= m < persistent_only(s).len() ==> !(#[trigger] persistent_only(s)[m]).once,
        forall|k: int|
            0 <= k < s.len() && (#[trigger] s[k]).once ==> !persistent_only(s).contains(s[k]),
        persistent_only(persistent_only(s)) == persistent_only(s),
{
    assert forall|m: int|
        0 <= m < persistent_only(s).len() implies !(#[trigger] persistent_only(s)[m]).once by {
        s.lemma_filter_pred(is_persistent::<C>(), m);
    }
    lemma_filter_all_true(persistent_only(s), is_persistent::<C>());
}

/// Removing an identifier leaves no record of it behind, so removing it
/// again removes nothing: removal succeeds at most once.
pub proof fn lemma_removal_is_final<C>(s: Seq<Listener<C>>, id: u64)
    ensures
        forall|m: int|
            0 <= m < without_id(s, id).len() ==> (#[trigger] without_id(s, id)[m]).id != id,
        without_id(without_id(s, id), id) == without_id(s, id),
{
    assert forall|m: int|
        0 <= m < without_id(s, id).len() implies (#[trigger] without_id(s, id)[m]).id != id by {
        s.lemma_filter_pred(keeps_id::<C>(id), m);
    }
    lemma_filter_all_true(without_id(s, id), keeps_id::<C>(id));
}

/// Acting on an event with no listeners changes nothing: removal and
/// pruning both leave the empty sequence empty.
pub proof fn lemma_noop_on_empty<C>(id: u64)
    ensures
        without_id(Seq::<Listener<C>>::empty(), id) == Seq::<Listener<C>>::empty(),
        persistent_only(Seq::<Listener<C>>::empty()) == Seq::<Listener<C>>::empty(),
{
    reveal(Seq::filter);
}

/// Scan for the entry of an event name.
fn find_entry<C>(entries: &Vec<EventEntry<C>>, key: &String) -> (r: Option<usize>)
    ensures
        match r {
            Some(j) => j < entries@.len() && entries@[j as int].name@ == key@,
            None => forall|m: int|
                0 <= m < entries@.len() ==> (#[trigger] entries@[m]).name@ != key@,
        },
{
    let n = entries.len();
    let mut i: usize = 0;
    while i < n
        invariant
            n == entries@.len(),
            i <= n,
            forall|m: int| 0 <= m < i ==> (#[trigger] entries@[m]).name@ != key@,
        decreases n - i,
    {
        if entries[i].name == *key {
            return Some(i);
        }
        i += 1;
    }
    None
}

/// Rebuilds a listener sequence without the records of one identifier,
/// reporting whether any such record was present.
fn retain_without_id<C: Dup>(items: &Vec<Listener<C>>, id: u64) -> (r: (Vec<Listener<C>>, bool))
    ensures
        r.0@ == without_id(items@, id),
        r.1 == has_id(items@, id),
{
    let n = items.len();
    let mut kept: Vec<Listener<C>> = Vec::new();
    let mut removed = false;
    let mut k: usize = 0;
    while k < n
        invariant
            n == items@.len(),
            k <= n,
            kept@ == without_id(items@.subrange(0, k as int), id),
            removed == (exists|m: int| 0 <= m < k && (#[trigger] items@[m]).id == id),
        decreases n - k,
    {
        let l = &items[k];
        if l.id != id {
            kept.push(Listener { id: l.id, callback: l.callback.dup(), once: l.once });
        } else {
            removed = true;
        }
        proof {
            lemma_filter_prefix_step(items@, keeps_id::<C>(id), k as int);
            assert(items@[k as int].id == id ==> (exists|m: int|
                0 <= m < k + 1 && (#[trigger] items@[m]).id == id));
        }
        k += 1;
    }
    proof {
        assert(items@.subrange(0, n as int) =~= items@);
    }
    (kept, removed)
}

/// A dispatch pass removes exactly its invoked once-listeners: what
/// survives is never a once-listener the pass invoked, and every other
/// listener survives it.
pub proof fn lemma_pass_prunes_exactly_invoked<C>(s: Seq<Listener<C>>, invoked: Seq<u64>)
    ensures
        forall|m: int|
            0 <= m < after_pass(s, invoked).len() ==> !((#[trigger] after_pass(s, invoked)[m]).once
                && invoked.contains(after_pass(s, invoked)[m].id)),
        forall|k: int|
            0 <= k < s.len() && !((#[trigger] s[k]).once && invoked.contains(s[k].id))
                ==> after_pass(s, invoked).contains(s[k]),
{
    assert forall|m: int|
        0 <= m < after_pass(s, invoked).len() implies !((#[trigger] after_pass(s, invoked)[m]).once
        && invoked.contains(after_pass(s, invoked)[m].id)) by {
        s.lemma_filter_pred(survives_pass::<C>(invoked), m);
    }
    assert forall|k: int|
        0 <= k < s.len() && !((#[trigger] s[k]).once && invoked.contains(s[k].id)) implies after_pass(
        s,
        invoked,
    ).contains(s[k]) by {
        s.lemma_filter_contains(survives_pass::<C>(invoked), k);
    }
}

/// Whether an identifier occurs in the list.
fn contains_u64(ids: &Vec<u64>, id: u64) -> (b: bool)
    ensures
        b == ids@.contains(id),
{
    let n = ids.len();
    let mut i: usize = 0;
    while i < n
        invariant
            n == ids@.len(),
            i <= n,
            forall|m: int| 0 <= m < i ==> ids@[m] != id,
        decreases n - i,
    {
        if ids[i] == id {
            return true;
        }
        i += 1;
    }
    false
}

/// Rebuilds a listener sequence keeping only the survivors of a dispatch
/// pass that invoked the given identifiers.
fn retain_surviving<C: Dup>(items: &Vec<Listener<C>>, invoked: &Vec<u64>) -> (r: Vec<Listener<C>>)
    ensures
        r@ == after_pass(items@, invoked@),
{
    let n = items.len();
    let mut kept: Vec<Listener<C>> = Vec::new();
    let mut k: usize = 0;
    while k < n
        invariant
            n == items@.len(),
            k <= n,
            kept@ == after_pass(items@.subrange(0, k as int), invoked@),
        decreases n - k,
    {
        let l = &items[k];
        if !(l.once && contains_u64(invoked, l.id)) {
            kept.push(Listener { id: l.id, callback: l.callback.dup(), once: l.once });
        }
        proof {
            lemma_filter_prefix_step(items@, survives_pass::<C>(invoked@), k as int);
        }
        k += 1;
    }
    proof {
        assert(items@.subrange(0, n as int) =~= items@);
    }
    kept
}

/// Rebuilds a listener sequence without its once-flagged records.
fn retain_persistent<C: Dup>(items: &Vec<Listener<C>>) -> (r: Vec<Listener<C>>)
    ensures
        r@ == persistent_only(items@),
{
    let n = items.len();
    let mut kept: Vec<Listener<C>> = Vec::new();
    let mut k: usize = 0;
    while k < n
        invariant
            n == items@.len(),
            k <= n,
            kept@ == persistent_only(items@.subrange(0, k as int)),
        decreases n - k,
    {
        let l = &items[k];
        if !l.once {
            kept.push(Listener { id: l.id, callback: l.callback.dup(), once: l.once });
        }
        proof {
            lemma_filter_prefix_step(items@, is_persistent::<C>(), k as int);
        }
        k += 1;
    }
    proof {
        assert(items@.subrange(0, n as int) =~= items@);
    }
    kept
}

/// A mapping from event name to the insertion-ordered sequence of
/// listeners registered for it, together with the identifier allocator.
///
/// An absent event name and an event name with an empty sequence are
/// observationally the same: both mean "no listeners".
pub struct Registry<C> {
    entries: Vec<EventEntry<C>>,
    next_id: u64,
}

impl<C> Registry<C> {
    /// Whether some entry is stored under this event name.
    spec fn has_event(self, e: Seq<char>) -> bool {
        exists|i: int| 0 <= i < self.entries.len() && (#[trigger] self.entries[i]).name@ == e
    }

    /// The index of the entry stored under this event name.
    spec fn event_index(self, e: Seq<char>) -> int {
        choose|i: int| 0 <= i < self.entries.len() && (#[trigger] self.entries[i]).name@ == e
    }

    /// The listeners currently registered for an event, in registration
    /// order; empty when the event is unknown.
    pub closed spec fn listeners(self, e: Seq<char>) -> Seq<Listener<C>> {
        if self.has_event(e) {
            self.entries[self.event_index(e)].items@
        } else {
            Seq::empty()
        }
    }

    /// The identifier the next registration will return.
    pub closed spec fn next_id(self) -> u64 {
        self.next_id
    }

    /// Well-formedness: event names are stored at most once, identifiers
    /// strictly increase within each event's sequence, never repeat across
    /// events, and all sit below the allocator counter.
    #[verifier::type_invariant]
    pub closed spec fn inv(self) -> bool {
        &&& forall|i: int, j: int|
            0 <= i < j < self.entries.len() ==> (#[trigger] self.entries[i]).name@ != (
            #[trigger] self.entries[j]).name@
        &&& forall|i: int|
            0 <= i < self.entries.len() ==> ids_below((#[trigger] self.entries[i]).items@, self.next_id)
        &&& forall|i: int|
            0 <= i < self.entries.len() ==> ids_increasing((#[trigger] self.entries[i]).items@)
        &&& forall|i: int, j: int|
            0 <= i < j < self.entries.len() ==> ids_disjoint(
                (#[trigger] self.entries[i]).items@,
                (#[trigger] self.entries[j]).items@,
            )
    }

    /// Whether the identifier allocator is exhausted; registration is
    /// refused once it is.  With one registration a nanosecond this takes
    /// centuries to reach.
    pub fn at_capacity(&self) -> (b: bool)
        ensures
            b == (self.next_id() == u64::MAX),
    {
        self.next_id == u64::MAX
    }

    /// An empty registry.
    pub fn new() -> (r: Self)
        ensures
            r.next_id() == 1,
            forall|e: Seq<char>| r.listeners(e) == Seq::<Listener<C>>::empty(),
    {
        Registry { entries: Vec::new(), next_id: 1 }
    }

    /// The unique entry index for a present event name.
    proof fn lemma_index_of_match(self, e: Seq<char>, j: int)
        requires
            forall|i1: int, i2: int|
                0 <= i1 < i2 < self.entries.len() ==> (#[trigger] self.entries[i1]).name@ != (
                #[trigger] self.entries[i2]).name@,
            0 <= j < self.entries.len(),
            self.entries[j].name@ == e,
        ensures
            self.has_event(e),
            self.event_index(e) == j,
            self.listeners(e) == self.entries[j].items@,
    {
        assert(self.has_event(e));
        let i = self.event_index(e);
        assert(0 <= i < self.entries.len() && self.entries[i].name@ == e);
        if i < j {
            assert(self.entries[i].name@ != self.entries[j].name@);
        } else if j < i {
            assert(self.entries[j].name@ != self.entries[i].name@);
        }
    }

    /// Appends a new listener for the event, allocating its identifier.
    /// Creates the event's entry when absent; never fails.
    pub fn register(&mut self, event: &str, callback: C, once: bool) -> (id: u64)
        requires
            old(self).next_id() < u64::MAX,
        ensures
            id == old(self).next_id(),
            final(self).next_id() == old(self).next_id() + 1,
            final(self).listeners(event@) == old(self).listeners(event@).push(
                (Listener { id, callback, once }),
            ),
            forall|e: Seq<char>|
                e != event@ ==> final(self).listeners(e) == old(self).listeners(e),
    {
        proof {
            use_type_invariant(&*self);
        }
        let ghost prev = *self;
        let id = self.next_id;
        self.next_id = id + 1;
        let key: String = event.to_owned();
        let l = Listener { id, callback, once };
        let mut entries: Vec<EventEntry<C>> = Vec::new();
        std::mem::swap(&mut entries, &mut self.entries);
        let found = find_entry(&entries, &key);
        match found {
            Some(j) => {
                entries[j].items.push(l);
                self.entries = entries;
                proof {
                    assert(self.entries@[j as int].items@ == prev.entries@[j as int].items@.push(l));
                    assert(forall|m: int|
                        0 <= m < self.entries@.len() && m != j ==> self.entries@[m] == prev.entries@[m]);
                    prev.lemma_index_of_match(event@, j as int);
                    self.lemma_index_of_match(event@, j as int);
                    assert forall|e: Seq<char>| e != event@ implies final(self).listeners(e)
                        == prev.listeners(e) by {
                        self.lemma_other_events_unchanged(prev, e, j as int);
                    }
                }
            },
            None => {
                let mut items: Vec<Listener<C>> = Vec::new();
                items.push(l);
                entries.push(EventEntry { name: key, items });
                self.entries = entries;
                proof {
                    let j = self.entries@.len() - 1;
                    assert(self.entries@[j].name@ == event@);
                    assert(forall|m: int| 0 <= m < j ==> self.entries@[m] == prev.entries@[m]);
                    assert(forall|i1: int, i2: int|
                        0 <= i1 < i2 < self.entries@.len() ==> (#[trigger] self.entries@[i1]).name@
                            != (#[trigger] self.entries@[i2]).name@);
                    self.lemma_index_of_match(event@, j);
                    assert(!prev.has_event(event@));
                    assert(prev.listeners(event@) == Seq::<Listener<C>>::empty());
                    assert(self.listeners(event@) =~= prev.listeners(event@).push(l));
                    assert forall|e: Seq<char>| e != event@ implies final(self).listeners(e)
                        == prev.listeners(e) by {
                        if prev.has_event(e) {
                            let m = prev.event_index(e);
                            prev.lemma_index_of_match(e, m);
                            self.lemma_index_of_match(e, m);
                        } else {
                            assert forall|i: int| 0 <= i < self.entries@.len() implies (
                            #[trigger] self.entries@[i]).name@ != e by {
                                if i < j {
                                    assert(self.entries@[i] == prev.entries@[i]);
                                }
                            }
                            assert(!self.has_event(e));
                        }
                    }
                }
            },
        }
        id
    }

    /// Listener identifiers never collide, within one event or across two
    /// events of one registry; within one event they strictly increase in
    /// registration order; and all sit below the identifier the next
    /// registration will return — so every identifier a registration
    /// returns is fresh.
    pub proof fn lemma_ids_unique(self, e1: Seq<char>, e2: Seq<char>, k1: int, k2: int)
        requires
            self.inv(),
            0 <= k1 < self.listeners(e1).len(),
            0 <= k2 < self.listeners(e2).len(),
            e1 != e2 || k1 != k2,
        ensures
            self.listeners(e1)[k1].id != self.listeners(e2)[k2].id,
            self.listeners(e1)[k1].id < self.next_id(),
            e1 == e2 && k1 < k2 ==> self.listeners(e1)[k1].id < self.listeners(e2)[k2].id,
    {
        assert(self.has_event(e1));
        assert(self.has_event(e2));
        let i1 = self.event_index(e1);
        let i2 = self.event_index(e2);
        assert(self.entries[i1].name@ == e1);
        assert(self.entries[i2].name@ == e2);
        if e1 == e2 {
            assert(i1 == i2);
            assert(ids_increasing(self.entries[i1].items@));
        } else {
            assert(i1 != i2);
            if i1 < i2 {
                assert(ids_disjoint(self.entries[i1].items@, self.entries[i2].items@));
            } else {
                assert(ids_disjoint(self.entries[i2].items@, self.entries[i1].items@));
            }
        }
        assert(ids_below(self.entries[i1].items@, self.next_id));
    }

    /// Well-formedness survives replacing one entry's listeners by a
    /// filtered version of them.
    proof fn lemma_inv_after_filter(self, prev: Self, j: int, p: spec_fn(Listener<C>) -> bool)
        requires
            prev.inv(),
            self.next_id == prev.next_id,
            self.entries@.len() == prev.entries@.len(),
            0 <= j < self.entries@.len(),
            forall|m: int|
                0 <= m < self.entries@.len() && m != j ==> self.entries@[m] == prev.entries@[m],
            self.entries@[j].name == prev.entries@[j].name,
            self.entries@[j].items@ == prev.entries@[j].items@.filter(p),
        ensures
            self.inv(),
    {
        assert(forall|i1: int, i2: int|
            0 <= i1 < i2 < self.entries@.len() ==> (#[trigger] self.entries@[i1]).name@ != (
            #[trigger] self.entries@[i2]).name@);
        lemma_filter_ids_below(prev.entries@[j].items@, p, prev.next_id);
        lemma_filter_ids_increasing(prev.entries@[j].items@, p);
        assert forall|i1: int, i2: int| 0 <= i1 < i2 < self.entries@.len() implies ids_disjoint(
            (#[trigger] self.entries@[i1]).items@,
            (#[trigger] self.entries@[i2]).items@,
        ) by {
            if i1 == j {
                lemma_filter_ids_disjoint(prev.entries@[j].items@, prev.entries@[i2].items@, p);
            } else if i2 == j {
                lemma_filter_ids_disjoint(prev.entries@[i1].items@, prev.entries@[j].items@, p);
            }
        }
    }

    /// After a change confined to entry `j`, every event name other than
    /// entry `j`'s resolves exactly as before.
    proof fn lemma_other_events_unchanged(self, prev: Self, e: Seq<char>, j: int)
        requires
            self.entries@.len() == prev.entries@.len(),
            0 <= j < self.entries@.len(),
            forall|m: int| 0 <= m < self.entries@.len() && m != j ==> self.entries@[m]
                == prev.entries@[m],
            self.entries@[j].name@ == prev.entries@[j].name@,
            e != prev.entries@[j].name@,
            forall|i1: int, i2: int|
                0 <= i1 < i2 < prev.entries@.len() ==> (#[trigger] prev.entries@[i1]).name@ != (
                #[trigger] prev.entries@[i2]).name@,
        ensures
            self.listeners(e) == prev.listeners(e),
    {
        assert(forall|i1: int, i2: int|
            0 <= i1 < i2 < self.entries@.len() ==> (#[trigger] self.entries@[i1]).name@ != (
            #[trigger] self.entries@[i2]).name@);
        if prev.has_event(e) {
            let m = prev.event_index(e);
            assert(0 <= m < prev.entries@.len() && prev.entries@[m].name@ == e);
            assert(m != j);
            prev.lemma_index_of_match(e, m);
            self.lemma_index_of_match(e, m);
        } else {
            assert forall|i: int| 0 <= i < self.entries@.len() implies (
            #[trigger] self.entries@[i]).name@ != e by {
                if i != j {
                    assert(self.entries@[i] == prev.entries@[i]);
                }
            }
            assert(!self.has_event(e));
        }
    }

    /// Deletes every listener of the event; a no-op when the event is
    /// unknown.
    pub fn unregister_all(&mut self, event: &str)
        ensures
            final(self).listeners(event@) == Seq::<Listener<C>>::empty(),
            forall|e: Seq<char>|
                e != event@ ==> final(self).listeners(e) == old(self).listeners(e),
            final(self).next_id() == old(self).next_id(),
    {
        proof {
            use_type_invariant(&*self);
        }
        let ghost prev = *self;
        let key: String = event.to_owned();
        let mut entries: Vec<EventEntry<C>> = Vec::new();
        std::mem::swap(&mut entries, &mut self.entries);
        let found = find_entry(&entries, &key);
        match found {
            Some(j) => {
                entries.remove(j);
                proof {
                    assert(entries@.len() == prev.entries@.len() - 1);
                    assert(forall|m: int| 0 <= m < j ==> entries@[m] == prev.entries@[m]);
                    assert(forall|m: int|
                        j <= m < entries@.len() ==> entries@[m] == prev.entries@[m + 1]);
                }
                self.entries = entries;
                proof {
                    let jj = j as int;
                    assert forall|i: int| 0 <= i < self.entries@.len() implies (
                    #[trigger] self.entries@[i]).name@ != event@ by {
                        if i < jj {
                            assert(prev.entries@[i].name@ != prev.entries@[jj].name@);
                        } else {
                            assert(prev.entries@[jj].name@ != prev.entries@[i + 1].name@);
                        }
                    }
                    assert(!self.has_event(event@));
                    assert forall|e: Seq<char>| e != event@ implies final(self).listeners(e)
                        == prev.listeners(e) by {
                        if prev.has_event(e) {
                            let m = prev.event_index(e);
                            prev.lemma_index_of_match(e, m);
                            assert(m != jj);
                            if m < jj {
                                self.lemma_index_of_match(e, m);
                            } else {
                                assert(self.entries@[m - 1] == prev.entries@[m]);
                                self.lemma_index_of_match(e, m - 1);
                            }
                        } else {
                            assert forall|i: int| 0 <= i < self.entries@.len() implies (
                            #[trigger] self.entries@[i]).name@ != e by {
                                if i < jj {
                                    assert(self.entries@[i] == prev.entries@[i]);
                                } else {
                                    assert(self.entries@[i] == prev.entries@[i + 1]);
                                }
                            }
                            assert(!self.has_event(e));
                        }
                    }
                }
            },
            None => {
                self.entries = entries;
                proof {
                    assert(!prev.has_event(event@));
                    assert(*self == prev);
                }
            },
        }
    }
}

impl<C: Dup> Registry<C> {
    /// Removes the listener with the given identifier from the event, if
    /// present; reports whether a removal occurred.  An unknown event or
    /// an unknown identifier yields `false`, never an error.
    pub fn unregister(&mut self, event: &str, id: u64) -> (removed: bool)
        ensures
            removed == has_id(old(self).listeners(event@), id),
            final(self).listeners(event@) == without_id(old(self).listeners(event@), id),
            forall|e: Seq<char>|
                e != event@ ==> final(self).listeners(e) == old(self).listeners(e),
            final(self).next_id() == old(self).next_id(),
    {
        proof {
            use_type_invariant(&*self);
        }
        let ghost prev = *self;
        let key: String = event.to_owned();
        let mut entries: Vec<EventEntry<C>> = Vec::new();
        std::mem::swap(&mut entries, &mut self.entries);
        let found = find_entry(&entries, &key);
        let removed: bool;
        match found {
            Some(j) => {
                let (kept, rem) = retain_without_id(&entries[j].items, id);
                removed = rem;
                let mut kept = kept;
                std::mem::swap(&mut entries[j].items, &mut kept);
                proof {
                    let ghost next = (Registry { entries: entries, next_id: self.next_id });
                    next.lemma_inv_after_filter(prev, j as int, keeps_id::<C>(id));
                }
                self.entries = entries;
                proof {
                    prev.lemma_index_of_match(event@, j as int);
                    self.lemma_index_of_match(event@, j as int);
                    assert forall|e: Seq<char>| e != event@ implies final(self).listeners(e)
                        == prev.listeners(e) by {
                        self.lemma_other_events_unchanged(prev, e, j as int);
                    }
                }
            },
            None => {
                removed = false;
                self.entries = entries;
                proof {
                    assert(!prev.has_event(event@));
                    assert(prev.listeners(event@) =~= Seq::<Listener<C>>::empty());
                    reveal(Seq::filter);
                    assert(without_id(prev.listeners(event@), id) =~= Seq::<Listener<C>>::empty());
                    assert(*self == prev);
                }
            },
        }
        removed
    }

    /// Removes every once-flagged listener of the event; a no-op when the
    /// event is unknown.
    pub fn prune_once(&mut self, event: &str)
        ensures
            final(self).listeners(event@) == persistent_only(old(self).listeners(event@)),
            forall|e: Seq<char>|
                e != event@ ==> final(self).listeners(e) == old(self).listeners(e),
            final(self).next_id() == old(self).next_id(),
    {
        proof {
            use_type_invariant(&*self);
        }
        let ghost prev = *self;
        let key: String = event.to_owned();
        let mut entries: Vec<EventEntry<C>> = Vec::new();
        std::mem::swap(&mut entries, &mut self.entries);
        let found = find_entry(&entries, &key);
        match found {
            Some(j) => {
                let kept = retain_persistent(&entries[j].items);
                let mut kept = kept;
                std::mem::swap(&mut entries[j].items, &mut kept);
                proof {
                    let ghost next = (Registry { entries: entries, next_id: self.next_id });
                    next.lemma_inv_after_filter(prev, j as int, is_persistent::<C>());
                }
                self.entries = entries;
                proof {
                    prev.lemma_index_of_match(event@, j as int);
                    self.lemma_index_of_match(event@, j as int);
                    assert forall|e: Seq<char>| e != event@ implies final(self).listeners(e)
                        == prev.listeners(e) by {
                        self.lemma_other_events_unchanged(prev, e, j as int);
                    }
                }
            },
            None => {
                self.entries = entries;
                proof {
                    assert(!prev.has_event(event@));
                    assert(prev.listeners(event@) =~= Seq::<Listener<C>>::empty());
                    reveal(Seq::filter);
                    assert(persistent_only(prev.listeners(event@)) =~= Seq::<Listener<C>>::empty());
                    assert(*self == prev);
                }
            },
        }
    }

    /// Removes exactly the once-flagged listeners of the event whose
    /// identifiers a dispatch pass invoked; everything else stays.  A
    /// once-listener registered after the pass took its snapshot is not
    /// touched.  A no-op when the event is unknown.
    pub fn prune_invoked(&mut self, event: &str, invoked: &Vec<u64>)
        ensures
            final(self).listeners(event@) == after_pass(old(self).listeners(event@), invoked@),
            forall|e: Seq<char>|
                e != event@ ==> final(self).listeners(e) == old(self).listeners(e),
            final(self).next_id() == old(self).next_id(),
    {
        proof {
            use_type_invariant(&*self);
        }
        let ghost prev = *self;
        let key: String = event.to_owned();
        let mut entries: Vec<EventEntry<C>> = Vec::new();
        std::mem::swap(&mut entries, &mut self.entries);
        let found = find_entry(&entries, &key);
        match found {
            Some(j) => {
                let kept = retain_surviving(&entries[j].items, invoked);
                let mut kept = kept;
                std::mem::swap(&mut entries[j].items, &mut kept);
                proof {
                    let ghost next = (Registry { entries: entries, next_id: self.next_id });
                    next.lemma_inv_after_filter(prev, j as int, survives_pass::<C>(invoked@));
                }
                self.entries = entries;
                proof {
                    prev.lemma_index_of_match(event@, j as int);
                    self.lemma_index_of_match(event@, j as int);
                    assert forall|e: Seq<char>| e != event@ implies final(self).listeners(e)
                        == prev.listeners(e) by {
                        self.lemma_other_events_unchanged(prev, e, j as int);
                    }
                }
            },
            None => {
                self.entries = entries;
                proof {
                    assert(!prev.has_event(event@));
                    assert(prev.listeners(event@) =~= Seq::<Listener<C>>::empty());
                    reveal(Seq::filter);
                    assert(after_pass(prev.listeners(event@), invoked@) =~= Seq::<
                        Listener<C>,
                    >::empty());
                    assert(*self == prev);
                }
            },
        }
    }

    /// An independently-owned copy of the event's current listener
    /// records, in registration order; empty when the event is unknown.
    pub fn snapshot_records(&self, event: &str) -> (r: Vec<Listener<C>>)
        ensures
            r@ == self.listeners(event@),
    {
        proof {
            use_type_invariant(&*self);
        }
        let key: String = event.to_owned();
        let found = find_entry(&self.entries, &key);
        match found {
            Some(j) => {
                proof {
                    self.lemma_index_of_match(event@, j as int);
                }
                let items = &self.entries[j].items;
                let n = items.len();
                let mut r: Vec<Listener<C>> = Vec::new();
                let mut k: usize = 0;
                while k < n
                    invariant
                        n == items@.len(),
                        k <= n,
                        r@.len() == k,
                        forall|m: int| 0 <= m < k ==> r@[m] == items@[m],
                    decreases n - k,
                {
                    let l = &items[k];
                    r.push(Listener { id: l.id, callback: l.callback.dup(), once: l.once });
                    k += 1;
                }
                proof {
                    assert(r@ =~= self.listeners(event@));
                }
                r
            },
            None => {
                proof {
                    assert(!self.has_event(event@));
                }
                Vec::new()
            },
        }
    }

    /// An independently-owned copy of the event's current callbacks, in
    /// registration order; empty when the event is unknown.  Later
    /// mutation of the registry cannot alter a snapshot already returned.
    pub fn snapshot(&self, event: &str) -> (r: Vec<C>)
        ensures
            r@ == callbacks_of(self.listeners(event@)),
    {
        proof {
            use_type_invariant(&*self);
        }
        let key: String = event.to_owned();
        let found = find_entry(&self.entries, &key);
        match found {
            Some(j) => {
                proof {
                    self.lemma_index_of_match(event@, j as int);
                }
                let items = &self.entries[j].items;
                let n = items.len();
                let mut r: Vec<C> = Vec::new();
                let mut k: usize = 0;
                while k < n
                    invariant
                        n == items@.len(),
                        k <= n,
                        r@.len() == k,
                        forall|m: int| 0 <= m < k ==> r@[m] == items@[m].callback,
                    decreases n - k,
                {
                    r.push(items[k].callback.dup());
                    k += 1;
                }
                proof {
                    assert(r@ =~= callbacks_of(self.listeners(event@)));
                }
                r
            },
            None => {
                proof {
                    assert(!self.has_event(event@));
                    assert(callbacks_of(self.listeners(event@)) =~= Seq::<C>::empty());
                }
                Vec::new()
            },
        }
    }
}

} // verus!
