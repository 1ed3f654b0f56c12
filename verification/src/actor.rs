//! The worker half of the runtime: it owns the entity store and processes
//! one request at a time to completion.
//!
//! The store is modelled as a `Map` from ids to entities. Every request
//! handler's contract is stated against a pure transition function over that
//! map, so what each of the five operations does to the store — and exactly
//! which reply it produces — is pinned down for every input.

use vstd::prelude::*;

use crate::entity::ActorEntity;
use crate::error::FrameworkError;

verus! {

/// The map denoted by an association list of (id, entity) entries; later
/// entries win, but the store keeps its keys distinct so the question never
/// arises.
pub open spec fn entries_map<T: ActorEntity>(s: Seq<(T::Id, T)>) -> Map<T::Id, T>
    decreases s.len(),
{
    if s.len() == 0 {
        Map::empty()
    } else {
        entries_map::<T>(s.drop_last()).insert(s.last().0, s.last().1)
    }
}

/// All keys of the entry list are distinct.
pub open spec fn distinct_keys<T: ActorEntity>(s: Seq<(T::Id, T)>) -> bool {
    forall|i: int, j: int|
        #![trigger s[i], s[j]]
        0 <= i < j < s.len() ==> s[i].0 != s[j].0
}

proof fn lemma_entries_map_index<T: ActorEntity>(s: Seq<(T::Id, T)>, i: int)
    requires
        distinct_keys::<T>(s),
        0 <= i < s.len(),
    ensures
        entries_map::<T>(s).contains_key(s[i].0),
        entries_map::<T>(s)[s[i].0] == s[i].1,
    decreases s.len(),
{
    if i == s.len() - 1 {
    } else {
        let s2 = s.drop_last();
        assert forall|a: int, b: int|
            #![trigger s2[a], s2[b]]
            0 <= a < b < s2.len() implies s2[a].0 != s2[b].0 by {
            assert(s2[a] == s[a]);
            assert(s2[b] == s[b]);
        }
        lemma_entries_map_index::<T>(s2, i);
        assert(s2[i] == s[i]);
        assert(s[i].0 != s.last().0);
    }
}

proof fn lemma_entries_map_absent<T: ActorEntity>(s: Seq<(T::Id, T)>, k: T::Id)
    requires
        forall|i: int| #![trigger s[i]] 0 <= i < s.len() ==> s[i].0 != k,
    ensures
        !entries_map::<T>(s).contains_key(k),
    decreases s.len(),
{
    if s.len() == 0 {
    } else {
        let s2 = s.drop_last();
        assert forall|i: int| #![trigger s2[i]] 0 <= i < s2.len() implies s2[i].0 != k by {
            assert(s2[i] == s[i]);
        }
        lemma_entries_map_absent::<T>(s2, k);
        assert(s.last().0 != k);
    }
}

proof fn lemma_entries_map_contains_index<T: ActorEntity>(s: Seq<(T::Id, T)>, k: T::Id)
    requires
        entries_map::<T>(s).contains_key(k),
    ensures
        exists|i: int| 0 <= i < s.len() && #[trigger] s[i].0 == k,
    decreases s.len(),
{
    if s.len() == 0 {
    } else if s.last().0 == k {
        assert(s[s.len() - 1].0 == k);
    } else {
        lemma_entries_map_contains_index::<T>(s.drop_last(), k);
        let i = choose|i: int| 0 <= i < s.drop_last().len() && #[trigger] s.drop_last()[i].0 == k;
        assert(s[i] == s.drop_last()[i]);
        assert(s[i].0 == k);
    }
}

proof fn lemma_push_entry<T: ActorEntity>(s: Seq<(T::Id, T)>, k: T::Id, v: T)
    requires
        distinct_keys::<T>(s),
        forall|i: int| #![trigger s[i]] 0 <= i < s.len() ==> s[i].0 != k,
    ensures
        distinct_keys::<T>(s.push((k, v))),
        entries_map::<T>(s.push((k, v))) == entries_map::<T>(s).insert(k, v),
{
    let s2 = s.push((k, v));
    assert(s2.drop_last() =~= s);
    assert(s2.last() == (k, v));
    assert forall|a: int, b: int|
        #![trigger s2[a], s2[b]]
        0 <= a < b < s2.len() implies s2[a].0 != s2[b].0 by {
        if b < s.len() {
            assert(s2[a] == s[a]);
            assert(s2[b] == s[b]);
        } else {
            assert(s2[a] == s[a]);
            assert(s2[b] == (k, v));
        }
    }
}

proof fn lemma_set_entry<T: ActorEntity>(s: Seq<(T::Id, T)>, i: int, v: T)
    requires
        distinct_keys::<T>(s),
        0 <= i < s.len(),
    ensures
        distinct_keys::<T>(s.update(i, (s[i].0, v))),
        entries_map::<T>(s.update(i, (s[i].0, v))) == entries_map::<T>(s).insert(s[i].0, v),
{
    let k = s[i].0;
    let s2 = s.update(i, (k, v));
    assert forall|a: int, b: int|
        #![trigger s2[a], s2[b]]
        0 <= a < b < s2.len() implies s2[a].0 != s2[b].0 by {
        assert(s2[a].0 == s[a].0);
        assert(s2[b].0 == s[b].0);
    }
    assert forall|k2: T::Id| #[trigger]
        entries_map::<T>(s2).contains_key(k2) == entries_map::<T>(s).insert(k, v).contains_key(
            k2,
        ) && (entries_map::<T>(s2).contains_key(k2) ==> entries_map::<T>(s2)[k2] == entries_map::<
            T,
        >(s).insert(k, v)[k2]) by {
        if k2 == k {
            lemma_entries_map_index::<T>(s2, i);
            assert(s2[i] == (k, v));
        } else {
            if entries_map::<T>(s).contains_key(k2) {
                lemma_entries_map_contains_index::<T>(s, k2);
                let j = choose|j: int| 0 <= j < s.len() && #[trigger] s[j].0 == k2;
                assert(j != i);
                assert(s2[j] == s[j]);
                lemma_entries_map_index::<T>(s2, j);
                lemma_entries_map_index::<T>(s, j);
            } else {
                assert forall|j: int| #![trigger s[j]] 0 <= j < s.len() implies s[j].0 != k2 by {
                    if s[j].0 == k2 {
                        lemma_entries_map_index::<T>(s, j);
                    }
                }
                assert forall|j: int| #![trigger s2[j]] 0 <= j < s2.len() implies s2[j].0
                    != k2 by {
                    assert(s2[j].0 == s[j].0);
                }
                lemma_entries_map_absent::<T>(s2, k2);
            }
        }
    }
    assert(entries_map::<T>(s2) =~= entries_map::<T>(s).insert(k, v));
}

proof fn lemma_swap_remove_entry<T: ActorEntity>(s: Seq<(T::Id, T)>, i: int)
    requires
        distinct_keys::<T>(s),
        0 <= i < s.len(),
    ensures
        distinct_keys::<T>(s.update(i, s.last()).drop_last()),
        entries_map::<T>(s.update(i, s.last()).drop_last()) == entries_map::<T>(s).remove(s[i].0),
{
    let k = s[i].0;
    let s2 = s.update(i, s.last()).drop_last();
    assert(s2.len() == s.len() - 1);
    assert forall|j: int| #![trigger s2[j]] 0 <= j < s2.len() implies s2[j] == (if j == i {
        s.last()
    } else {
        s[j]
    }) by {
        assert(s2[j] == s.update(i, s.last())[j]);
    }
    assert forall|a: int, b: int|
        #![trigger s2[a], s2[b]]
        0 <= a < b < s2.len() implies s2[a].0 != s2[b].0 by {
        let sa = if a == i {
            s.len() - 1
        } else {
            a
        };
        let sb = if b == i {
            s.len() - 1
        } else {
            b
        };
        assert(s2[a] == s[sa]);
        assert(s2[b] == s[sb]);
        assert(sa != sb);
    }
    assert forall|k2: T::Id| #[trigger]
        entries_map::<T>(s2).contains_key(k2) == entries_map::<T>(s).remove(k).contains_key(k2) && (
        entries_map::<T>(s2).contains_key(k2) ==> entries_map::<T>(s2)[k2] == entries_map::<T>(
            s,
        ).remove(k)[k2]) by {
        if k2 == k {
            assert forall|j: int| #![trigger s2[j]] 0 <= j < s2.len() implies s2[j].0 != k by {
                if j == i {
                    assert(s2[j] == s.last());
                    assert(i < s.len() - 1 ==> s[i].0 != s.last().0);
                } else {
                    assert(s2[j] == s[j]);
                }
            }
            lemma_entries_map_absent::<T>(s2, k);
        } else {
            if entries_map::<T>(s).contains_key(k2) {
                lemma_entries_map_contains_index::<T>(s, k2);
                let j = choose|j: int| 0 <= j < s.len() && #[trigger] s[j].0 == k2;
                lemma_entries_map_index::<T>(s, j);
                assert(j != i);
                if j == s.len() - 1 {
                    assert(i < s.len() - 1);
                    assert(s2[i] == s[j]);
                    lemma_entries_map_index::<T>(s2, i);
                } else {
                    assert(s2[j] == s[j]);
                    lemma_entries_map_index::<T>(s2, j);
                }
            } else {
                assert forall|j: int| #![trigger s[j]] 0 <= j < s.len() implies s[j].0 != k2 by {
                    if s[j].0 == k2 {
                        lemma_entries_map_index::<T>(s, j);
                    }
                }
                assert forall|j: int| #![trigger s2[j]] 0 <= j < s2.len() implies s2[j].0
                    != k2 by {
                    if j == i {
                        assert(s2[j] == s.last());
                    } else {
                        assert(s2[j] == s[j]);
                    }
                }
                lemma_entries_map_absent::<T>(s2, k2);
            }
        }
    }
    assert(entries_map::<T>(s2) =~= entries_map::<T>(s).remove(k));
}

/// What a `Get` request answers when the store holds `m`.
pub open spec fn get_transition<T: ActorEntity>(m: Map<T::Id, T>, id: T::Id) -> Option<T> {
    if m.contains_key(id) {
        Some(m[id])
    } else {
        None
    }
}

/// What a `Create` request does to the store `m` and the id counter
/// `next_id`, and which reply it produces: the counter is consumed even when
/// construction fails, so an id is never reused.
pub open spec fn create_transition<T: ActorEntity>(
    m: Map<T::Id, T>,
    next_id: u64,
    params: T::Create,
    ctx: T::Context,
) -> (Map<T::Id, T>, u64, Result<T::Id, FrameworkError<T::Id, T::Error>>) {
    let id = T::id_of_spec(next_id);
    let bumped = (next_id + 1) as u64;
    match T::construct_spec(id, params) {
        Err(e) => (m, bumped, Err(FrameworkError::EntityError(e))),
        Ok(e0) => match T::on_create_spec(e0, ctx) {
            Err(e) => (m, bumped, Err(FrameworkError::EntityError(e))),
            Ok(e1) => (m.insert(id, e1), bumped, Ok(id)),
        },
    }
}

/// What an `Update` request does to the store and which reply it produces:
/// an absent id is reported as such, a failed hook leaves the stored entity
/// untouched, a successful hook replaces it and a copy is returned.
pub open spec fn update_transition<T: ActorEntity>(
    m: Map<T::Id, T>,
    id: T::Id,
    update: T::Update,
    ctx: T::Context,
) -> (Map<T::Id, T>, Result<T, FrameworkError<T::Id, T::Error>>) {
    if !m.contains_key(id) {
        (m, Err(FrameworkError::NotFound(id)))
    } else {
        match T::on_update_spec(m[id], update, ctx) {
            Err(e) => (m, Err(FrameworkError::EntityError(e))),
            Ok(post) => (m.insert(id, post), Ok(post)),
        }
    }
}

/// What a `Delete` request does to the store: an absent id is reported, a
/// refusing hook aborts the removal, otherwise the entry disappears.
pub open spec fn delete_transition<T: ActorEntity>(
    m: Map<T::Id, T>,
    id: T::Id,
    ctx: T::Context,
) -> (Map<T::Id, T>, Result<(), FrameworkError<T::Id, T::Error>>) {
    if !m.contains_key(id) {
        (m, Err(FrameworkError::NotFound(id)))
    } else {
        match T::on_delete_spec(m[id], ctx) {
            Err(e) => (m, Err(FrameworkError::EntityError(e))),
            Ok(u) => (m.remove(id), Ok(u)),
        }
    }
}

/// What an `Action` request does to the store: the entity stays present
/// whatever the outcome, a failed handler leaves it untouched, a successful
/// one replaces it and its answer is returned.
pub open spec fn action_transition<T: ActorEntity>(
    m: Map<T::Id, T>,
    id: T::Id,
    action: T::Action,
    ctx: T::Context,
) -> (Map<T::Id, T>, Result<T::ActionResult, FrameworkError<T::Id, T::Error>>) {
    if !m.contains_key(id) {
        (m, Err(FrameworkError::NotFound(id)))
    } else {
        match T::handle_action_spec(m[id], action, ctx) {
            Err(e) => (m, Err(FrameworkError::EntityError(e))),
            Ok((post, res)) => (m.insert(id, post), Ok(res)),
        }
    }
}

/// The worker state: the entity store and the id counter, the only data the
/// processing loop ever mutates. The surrounding mailbox loop feeds one
/// request at a time into the `handle_*` methods below.
pub struct ResourceActor<T: ActorEntity> {
    store: Vec<(T::Id, T)>,
    next_id: u64,
}

impl<T: ActorEntity> ResourceActor<T> {
    /// The store as a mapping from id to entity.
    pub closed spec fn store_map(&self) -> Map<T::Id, T> {
        entries_map::<T>(self.store@)
    }

    /// The current value of the id counter.
    pub closed spec fn next_id_spec(&self) -> u64 {
        self.next_id
    }

    /// Every id this worker has issued so far.
    pub open spec fn issued_ids(&self) -> Set<T::Id> {
        Set::new(
            |i: T::Id| exists|n: u64| 1 <= n < self.next_id_spec() && i == T::id_of_spec(n),
        )
    }

    /// Well-formedness: the counter is seeded at 1, keys are unique, and
    /// every stored key was issued by this worker.
    pub closed spec fn wf(&self) -> bool {
        &&& 1 <= self.next_id
        &&& distinct_keys::<T>(self.store@)
        &&& forall|i: int|
            #![trigger self.store@[i]]
            0 <= i < self.store@.len() ==> self.issued_ids().contains(self.store@[i].0)
    }

    /// Creates a worker with an empty store and the id counter at its seed.
    pub fn new() -> (r: Self)
        ensures
            r.wf(),
            r.store_map() == Map::<T::Id, T>::empty(),
            r.next_id_spec() == 1,
            r.issued_ids() == Set::<T::Id>::empty(),
    {
        let r = ResourceActor { store: Vec::new(), next_id: 1u64 };
        proof {
            assert(r.issued_ids() =~= Set::<T::Id>::empty());
        }
        r
    }

    /// The counter value the next create will consume; lets the caller
    /// test, before handing a create to the worker, that the id space is
    /// not exhausted.
    pub fn peek_next_id(&self) -> (r: u64)
        ensures
            r == self.next_id_spec(),
    {
        self.next_id
    }

    fn find_index(&self, id: &T::Id) -> (r: Option<usize>)
        requires
            self.wf(),
        ensures
            match r {
                Some(i) => i < self.store@.len() && self.store@[i as int].0 == *id
                    && self.store_map().contains_key(*id) && self.store_map()[*id]
                    == self.store@[i as int].1,
                None => !self.store_map().contains_key(*id),
            },
    {
        let mut i: usize = 0;
        while i < self.store.len()
            invariant
                self.wf(),
                i <= self.store@.len(),
                forall|j: int| #![trigger self.store@[j]] 0 <= j < i ==> self.store@[j].0 != *id,
            decreases self.store@.len() - i,
        {
            if T::id_eq(&self.store[i].0, id) {
                proof {
                    lemma_entries_map_index::<T>(self.store@, i as int);
                }
                return Some(i);
            }
            i = i + 1;
        }
        proof {
            lemma_entries_map_absent::<T>(self.store@, *id);
        }
        None
    }

    /// Whether the store currently holds the given id.
    pub fn contains_id(&self, id: &T::Id) -> (r: bool)
        requires
            self.wf(),
        ensures
            r == self.store_map().contains_key(*id),
    {
        self.find_index(id).is_some()
    }

    /// Answers a `Get` request: a copy of the stored entity, or absence.
    /// This never fails, so the reply sent back is always `Ok` of the result.
    pub fn handle_get(&self, id: T::Id) -> (r: Option<T>)
        requires
            self.wf(),
        ensures
            r == get_transition::<T>(self.store_map(), id),
    {
        match self.find_index(&id) {
            Some(i) => Some(self.store[i].1.entity_clone()),
            None => None,
        }
    }

    /// First half of a `Create`: consumes the next id and constructs the
    /// entity, without touching the store. The id counter moves on even when
    /// construction fails, so an issued id is never reused. Pairs with
    /// [`Self::finish_create`] when the post-construction hook has to run
    /// outside the worker (for instance because it talks to other workers).
    pub fn begin_create(&mut self, params: T::Create) -> (r: Result<
        (T::Id, T),
        FrameworkError<T::Id, T::Error>,
    >)
        requires
            old(self).wf(),
            old(self).next_id_spec() < u64::MAX,
        ensures
            final(self).wf(),
            final(self).store_map() == old(self).store_map(),
            final(self).next_id_spec() == old(self).next_id_spec() + 1,
            !old(self).issued_ids().contains(T::id_of_spec(old(self).next_id_spec())),
            final(self).issued_ids() == old(self).issued_ids().insert(
                T::id_of_spec(old(self).next_id_spec()),
            ),
            !final(self).store_map().contains_key(T::id_of_spec(old(self).next_id_spec())),
            final(self).issued_ids().contains(T::id_of_spec(old(self).next_id_spec())),
            match T::construct_spec(T::id_of_spec(old(self).next_id_spec()), params) {
                Ok(e0) => r == Ok::<(T::Id, T), FrameworkError<T::Id, T::Error>>(
                    (T::id_of_spec(old(self).next_id_spec()), e0),
                ),
                Err(e) => r == Err::<(T::Id, T), FrameworkError<T::Id, T::Error>>(
                    FrameworkError::EntityError(e),
                ),
            },
    {
        let ghost pre = *self;
        let id = T::id_of(self.next_id);
        proof {
            if pre.issued_ids().contains(T::id_of_spec(pre.next_id_spec())) {
                let n = choose|n: u64|
                    1 <= n < pre.next_id_spec() && T::id_of_spec(pre.next_id_spec())
                        == #[trigger] T::id_of_spec(n);
                T::lemma_id_of_injective(n, pre.next_id_spec());
            }
        }
        self.next_id = self.next_id + 1;
        proof {
            assert(self.issued_ids() =~= pre.issued_ids().insert(
                T::id_of_spec(pre.next_id_spec()),
            )) by {
                assert forall|i: T::Id| pre.issued_ids().insert(
                    T::id_of_spec(pre.next_id_spec()),
                ).contains(i) implies self.issued_ids().contains(i) by {
                    if i == T::id_of_spec(pre.next_id_spec()) {
                        assert(1 <= pre.next_id_spec() < self.next_id_spec());
                    }
                }
            }
            assert forall|i: int|
                #![trigger self.store@[i]]
                0 <= i < self.store@.len() implies self.issued_ids().contains(
                self.store@[i].0,
            ) by {
                assert(pre.issued_ids().contains(self.store@[i].0));
            }
            if self.store_map().contains_key(T::id_of_spec(pre.next_id_spec())) {
                lemma_entries_map_contains_index::<T>(
                    self.store@,
                    T::id_of_spec(pre.next_id_spec()),
                );
                let j = choose|j: int|
                    0 <= j < self.store@.len() && #[trigger] self.store@[j].0 == T::id_of_spec(
                        pre.next_id_spec(),
                    );
                assert(pre.issued_ids().contains(self.store@[j].0));
            }
        }
        match T::from_create_params(id, params) {
            Ok(e0) => Ok((id, e0)),
            Err(e) => Err(FrameworkError::EntityError(e)),
        }
    }

    /// Second half of a `Create`: given the constructed entity and the
    /// outcome of its post-construction hook, either inserts it and replies
    /// with its id, or discards it and replies with the wrapped hook error —
    /// in which case nothing was ever stored.
    pub fn finish_create(&mut self, id: T::Id, entity: T, hook: Result<(), T::Error>) -> (r: Result<
        T::Id,
        FrameworkError<T::Id, T::Error>,
    >)
        requires
            old(self).wf(),
            !old(self).store_map().contains_key(id),
            old(self).issued_ids().contains(id),
        ensures
            final(self).wf(),
            final(self).next_id_spec() == old(self).next_id_spec(),
            final(self).issued_ids() == old(self).issued_ids(),
            match hook {
                Ok(u) => final(self).store_map() == old(self).store_map().insert(id, entity) && r
                    == Ok::<T::Id, FrameworkError<T::Id, T::Error>>(id),
                Err(e) => final(self).store_map() == old(self).store_map() && r == Err::<
                    T::Id,
                    FrameworkError<T::Id, T::Error>,
                >(FrameworkError::EntityError(e)),
            },
    {
        match hook {
            Ok(()) => {
                proof {
                    assert forall|j: int|
                        #![trigger old(self).store@[j]]
                        0 <= j < old(self).store@.len() implies old(self).store@[j].0 != id by {
                        if old(self).store@[j].0 == id {
                            lemma_entries_map_index::<T>(old(self).store@, j);
                        }
                    }
                    lemma_push_entry::<T>(old(self).store@, id, entity);
                }
                self.store.push((id, entity));
                Ok(id)
            },
            Err(e) => Err(FrameworkError::EntityError(e)),
        }
    }

    /// Handles a `Create` request whose post-construction hook runs inside
    /// the worker: allocate the next id, construct, run the hook, and only
    /// then insert. A failed construction or hook aborts the create, nothing
    /// is stored, and the reply wraps the entity's error; the id is consumed
    /// either way, so every id a create ever returns is fresh.
    pub fn handle_create(&mut self, params: T::Create, ctx: &T::Context) -> (r: Result<
        T::Id,
        FrameworkError<T::Id, T::Error>,
    >)
        requires
            old(self).wf(),
            old(self).next_id_spec() < u64::MAX,
        ensures
            final(self).wf(),
            !old(self).issued_ids().contains(T::id_of_spec(old(self).next_id_spec())),
            final(self).issued_ids() == old(self).issued_ids().insert(
                T::id_of_spec(old(self).next_id_spec()),
            ),
            ({
                let t = create_transition::<T>(
                    old(self).store_map(),
                    old(self).next_id_spec(),
                    params,
                    *ctx,
                );
                final(self).store_map() == t.0 && final(self).next_id_spec() == t.1 && r == t.2
            }),
    {
        match self.begin_create(params) {
            Err(e) => Err(e),
            Ok((id, mut e0)) => {
                let hook = e0.on_create(ctx);
                self.finish_create(id, e0, hook)
            },
        }
    }

    /// Handles an `Update` request: an absent id answers not-found; a failed
    /// hook answers the wrapped entity error and the stored entity is
    /// exactly as it was, so no partial write is ever observable; a
    /// successful hook replaces the stored entity and a copy of the new
    /// state is returned.
    pub fn handle_update(&mut self, id: T::Id, update: T::Update, ctx: &T::Context) -> (r: Result<
        T,
        FrameworkError<T::Id, T::Error>,
    >)
        requires
            old(self).wf(),
        ensures
            final(self).wf(),
            final(self).next_id_spec() == old(self).next_id_spec(),
            final(self).issued_ids() == old(self).issued_ids(),
            ({
                let t = update_transition::<T>(old(self).store_map(), id, update, *ctx);
                final(self).store_map() == t.0 && r == t.1
            }),
    {
        match self.find_index(&id) {
            None => Err(FrameworkError::NotFound(id)),
            Some(i) => {
                let mut item = self.store[i].1.entity_clone();
                match item.on_update(update, ctx) {
                    Err(e) => Err(FrameworkError::EntityError(e)),
                    Ok(()) => {
                        let reply = item.entity_clone();
                        proof {
                            lemma_set_entry::<T>(self.store@, i as int, item);
                        }
                        let ghost pre_store = self.store@;
                        self.store[i] = (id, item);
                        proof {
                            assert(self.store@ == pre_store.update(i as int, (id, item)));
                            assert forall|j: int|
                                #![trigger self.store@[j]]
                                0 <= j < self.store@.len() implies self.issued_ids().contains(
                                self.store@[j].0,
                            ) by {
                                assert(self.store@[j].0 == pre_store[j].0);
                                assert(old(self).issued_ids().contains(pre_store[j].0));
                            }
                        }
                        Ok(reply)
                    },
                }
            },
        }
    }

    /// Handles a `Delete` request: an absent id answers not-found; a
    /// refusing hook answers the wrapped entity error and the entity stays
    /// stored with unchanged state; otherwise the entry is removed.
    pub fn handle_delete(&mut self, id: T::Id, ctx: &T::Context) -> (r: Result<
        (),
        FrameworkError<T::Id, T::Error>,
    >)
        requires
            old(self).wf(),
        ensures
            final(self).wf(),
            final(self).next_id_spec() == old(self).next_id_spec(),
            final(self).issued_ids() == old(self).issued_ids(),
            ({
                let t = delete_transition::<T>(old(self).store_map(), id, *ctx);
                final(self).store_map() == t.0 && r == t.1
            }),
    {
        match self.find_index(&id) {
            None => Err(FrameworkError::NotFound(id)),
            Some(i) => {
                match self.store[i].1.on_delete(ctx) {
                    Err(e) => Err(FrameworkError::EntityError(e)),
                    Ok(()) => {
                        proof {
                            lemma_swap_remove_entry::<T>(self.store@, i as int);
                        }
                        let ghost pre_store = self.store@;
                        let _removed = self.store.swap_remove(i);
                        proof {
                            assert(self.store@ == pre_store.update(
                                i as int,
                                pre_store.last(),
                            ).drop_last());
                            assert forall|j: int|
                                #![trigger self.store@[j]]
                                0 <= j < self.store@.len() implies self.issued_ids().contains(
                                self.store@[j].0,
                            ) by {
                                let s2 = pre_store.update(i as int, pre_store.last()).drop_last();
                                assert(s2[j] == pre_store.update(i as int, pre_store.last())[j]);
                                if j == i {
                                    assert(self.store@[j].0 == pre_store.last().0);
                                    assert(old(self).issued_ids().contains(
                                        pre_store[pre_store.len() - 1].0,
                                    ));
                                } else {
                                    assert(old(self).issued_ids().contains(pre_store[j].0));
                                }
                            }
                        }
                        Ok(())
                    },
                }
            },
        }
    }

    /// Handles an `Action` request: an absent id answers not-found; the
    /// entity stays in the store whatever the handler decides — a failed
    /// action is a no-op on its state, a successful one replaces it and
    /// its answer is returned.
    pub fn handle_action(&mut self, id: T::Id, action: T::Action, ctx: &T::Context) -> (r: Result<
        T::ActionResult,
        FrameworkError<T::Id, T::Error>,
    >)
        requires
            old(self).wf(),
        ensures
            final(self).wf(),
            final(self).next_id_spec() == old(self).next_id_spec(),
            final(self).issued_ids() == old(self).issued_ids(),
            ({
                let t = action_transition::<T>(old(self).store_map(), id, action, *ctx);
                final(self).store_map() == t.0 && r == t.1
            }),
    {
        match self.find_index(&id) {
            None => Err(FrameworkError::NotFound(id)),
            Some(i) => {
                let mut item = self.store[i].1.entity_clone();
                match item.handle_action(action, ctx) {
                    Err(e) => Err(FrameworkError::EntityError(e)),
                    Ok(res) => {
                        proof {
                            lemma_set_entry::<T>(self.store@, i as int, item);
                        }
                        let ghost pre_store = self.store@;
                        self.store[i] = (id, item);
                        proof {
                            assert(self.store@ == pre_store.update(i as int, (id, item)));
                            assert forall|j: int|
                                #![trigger self.store@[j]]
                                0 <= j < self.store@.len() implies self.issued_ids().contains(
                                self.store@[j].0,
                            ) by {
                                assert(self.store@[j].0 == pre_store[j].0);
                                assert(old(self).issued_ids().contains(pre_store[j].0));
                            }
                        }
                        Ok(res)
                    },
                }
            },
        }
    }
}

/// For every id the store does not hold, a `Get` answers absence and an
/// `Update`, `Delete` or `Action` answers not-found, each leaving the store
/// as it was.
pub proof fn lemma_absent_id_observations<T: ActorEntity>(
    m: Map<T::Id, T>,
    id: T::Id,
    update: T::Update,
    action: T::Action,
    ctx: T::Context,
)
    requires
        !m.contains_key(id),
    ensures
        get_transition::<T>(m, id) is None,
        update_transition::<T>(m, id, update, ctx) == (
            m,
            Err::<T, FrameworkError<T::Id, T::Error>>(FrameworkError::NotFound(id)),
        ),
        delete_transition::<T>(m, id, ctx) == (
            m,
            Err::<(), FrameworkError<T::Id, T::Error>>(FrameworkError::NotFound(id)),
        ),
        action_transition::<T>(m, id, action, ctx) == (
            m,
            Err::<T::ActionResult, FrameworkError<T::Id, T::Error>>(FrameworkError::NotFound(id)),
        ),
{
}

/// Every id a worker can issue next is distinct from every id it issued
/// before: the id counter never repeats a value.
pub proof fn lemma_issued_id_fresh<T: ActorEntity>(next_id: u64)
    ensures
        forall|n: u64| 1 <= n < next_id ==> T::id_of_spec(n) != T::id_of_spec(next_id),
{
    assert forall|n: u64| 1 <= n < next_id implies T::id_of_spec(n) != T::id_of_spec(next_id) by {
        T::lemma_id_of_injective(n, next_id);
    }
}

/// After a create that succeeds, a `Get` on the returned id answers exactly
/// the entity that construction produced and the post-construction hook
/// transformed.
pub proof fn lemma_create_then_get<T: ActorEntity>(
    m: Map<T::Id, T>,
    next_id: u64,
    params: T::Create,
    ctx: T::Context,
)
    requires
        T::construct_spec(T::id_of_spec(next_id), params) is Ok,
        T::on_create_spec(T::construct_spec(T::id_of_spec(next_id), params)->Ok_0, ctx) is Ok,
    ensures
        ({
            let t = create_transition::<T>(m, next_id, params, ctx);
            let id = T::id_of_spec(next_id);
            t.2 == Ok::<T::Id, FrameworkError<T::Id, T::Error>>(id) && get_transition::<T>(t.0, id)
                == Some(
                T::on_create_spec(T::construct_spec(id, params)->Ok_0, ctx)->Ok_0,
            )
        }),
{
}

/// If the update hook fails, the store after the update request is exactly
/// the store before it, and a `Get` on the id still answers the old entity:
/// no partial mutation ever leaks.
pub proof fn lemma_failed_update_is_noop<T: ActorEntity>(
    m: Map<T::Id, T>,
    id: T::Id,
    update: T::Update,
    ctx: T::Context,
)
    requires
        m.contains_key(id),
        T::on_update_spec(m[id], update, ctx) is Err,
    ensures
        update_transition::<T>(m, id, update, ctx).0 == m,
        get_transition::<T>(update_transition::<T>(m, id, update, ctx).0, id) == Some(m[id]),
{
}

/// If the delete hook refuses, the entity remains retrievable afterward
/// with unchanged state.
pub proof fn lemma_failed_delete_keeps_entity<T: ActorEntity>(
    m: Map<T::Id, T>,
    id: T::Id,
    ctx: T::Context,
)
    requires
        m.contains_key(id),
        T::on_delete_spec(m[id], ctx) is Err,
    ensures
        delete_transition::<T>(m, id, ctx).0 == m,
        get_transition::<T>(delete_transition::<T>(m, id, ctx).0, id) == Some(m[id]),
{
}

/// A failed action is a no-op on the entity's state: the entity remains in
/// the store, unchanged and retrievable.
pub proof fn lemma_failed_action_is_noop<T: ActorEntity>(
    m: Map<T::Id, T>,
    id: T::Id,
    action: T::Action,
    ctx: T::Context,
)
    requires
        m.contains_key(id),
        T::handle_action_spec(m[id], action, ctx) is Err,
    ensures
        action_transition::<T>(m, id, action, ctx).0 == m,
        get_transition::<T>(action_transition::<T>(m, id, action, ctx).0, id) == Some(m[id]),
{
}

} // verus!
