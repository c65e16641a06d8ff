//! The preference store: the set of conversations that have opted in to
//! having their plain messages translated.

use nohash_hasher::{IntSet, NoHashHasher};
use std::hash::BuildHasherDefault;
use vstd::prelude::*;

verus! {

/// `NoHashHasher` of `nohash_hasher`: the hasher that takes an integer key
/// as its own hash.
#[verifier::external_type_specification]
#[verifier::external_body]
#[verifier::reject_recursive_types(T)]
pub struct ExNoHashHasher<T>(NoHashHasher<T>);

/// `BuildHasherDefault` of std: the builder that makes a hasher by
/// `Default`.
#[verifier::external_type_specification]
#[verifier::external_body]
#[verifier::reject_recursive_types(H)]
pub struct ExBuildHasherDefault<H>(BuildHasherDefault<H>);

/// `HashSet::contains` on an `IntSet` of `nohash_hasher`: membership in the
/// set, as the crate documents for its integer sets.
#[verifier::external_body]
fn int_set_contains(ids: &IntSet<i64>, id: i64) -> (found: bool)
    ensures
        found == ids@.contains(id),
{
    ids.contains(&id)
}

/// `HashSet::insert` on an `IntSet` of `nohash_hasher`: the set gains `id`,
/// and the result tells whether it was new.
#[verifier::external_body]
fn int_set_insert(ids: &mut IntSet<i64>, id: i64) -> (added: bool)
    ensures
        final(ids)@ == old(ids)@.insert(id),
        added == !old(ids)@.contains(id),
{
    ids.insert(id)
}

/// `HashSet::remove` on an `IntSet` of `nohash_hasher`: the set loses `id`,
/// and the result tells whether it was there.
#[verifier::external_body]
fn int_set_remove(ids: &mut IntSet<i64>, id: i64) -> (removed: bool)
    ensures
        final(ids)@ == old(ids)@.remove(id),
        removed == old(ids)@.contains(id),
{
    ids.remove(&id)
}

/// `HashSet::iter` on an `IntSet` of `nohash_hasher`, copied out: every
/// member once. The order in which a hash set is walked is left open.
#[verifier::external_body]
fn int_set_members(ids: &IntSet<i64>) -> (members: Vec<i64>)
    ensures
        members@.to_set() == ids@,
        members@.no_duplicates(),
{
    ids.iter().copied().collect()
}

/// The set `s` with the membership of `id` flipped.
pub open spec fn toggled(s: Set<i64>, id: i64) -> Set<i64> {
    if s.contains(id) {
        s.remove(id)
    } else {
        s.insert(id)
    }
}

/// The set `s` after the membership of `id` was flipped `n` times.
pub open spec fn toggled_times(s: Set<i64>, id: i64, n: nat) -> Set<i64>
    decreases n,
{
    if n == 0 {
        s
    } else {
        toggled(toggled_times(s, id, (n - 1) as nat), id)
    }
}

/// The set `s` after one flip for each entry of `ids`, taken in order.
pub open spec fn toggled_each(s: Set<i64>, ids: Seq<i64>) -> Set<i64>
    decreases ids.len(),
{
    if ids.len() == 0 {
        s
    } else {
        toggled(toggled_each(s, ids.drop_last()), ids.last())
    }
}

/// What was found where the preferences are kept, when the store is opened.
#[derive(Debug, PartialEq, Eq)]
pub enum Storage {
    /// Nothing has been kept there yet.
    Absent,
    /// The conversations that were kept there.
    Present(Vec<i64>),
    /// Something is there that cannot be read as preferences.
    Unreadable,
}

/// Why the preferences could not be loaded or kept.
#[derive(Clone, Copy, Debug, PartialEq, Eq, Structural)]
pub enum PersistenceError {
    /// What is kept cannot be read; it is never replaced by an empty store.
    Load,
    /// The preferences could not be written.
    Flush,
}

/// The preferences that a store opens with on what was found in storage.
pub open spec fn opened(storage: Storage) -> Result<Set<i64>, PersistenceError> {
    match storage {
        Storage::Absent => Ok(Set::empty()),
        Storage::Present(ids) => Ok(ids@.to_set()),
        Storage::Unreadable => Err(PersistenceError::Load),
    }
}

/// The set of conversations for which plain messages are translated.
pub struct PreferenceStore {
    enabled: IntSet<i64>,
}

impl View for PreferenceStore {
    type V = Set<i64>;

    closed spec fn view(&self) -> Set<i64> {
        self.enabled@
    }
}

impl PreferenceStore {
    /// A store in which no conversation has opted in.
    pub fn new() -> (store: PreferenceStore)
        ensures
            store@ == Set::<i64>::empty(),
    {
        PreferenceStore { enabled: IntSet::default() }
    }

    /// The store that holds exactly the conversations listed in `ids`.
    pub fn from_ids(ids: &Vec<i64>) -> (store: PreferenceStore)
        ensures
            store@ == ids@.to_set(),
    {
        let mut enabled: IntSet<i64> = IntSet::default();
        let mut i: usize = 0;
        while i < ids.len()
            invariant
                i <= ids.len(),
                enabled@ == ids@.take(i as int).to_set(),
            decreases ids.len() - i,
        {
            int_set_insert(&mut enabled, ids[i]);
            proof {
                let before = ids@.take(i as int);
                assert(ids@.take(i + 1) =~= before.push(ids@[i as int]));
                assert(before.push(ids@[i as int]).to_set() =~= before.to_set().insert(
                    ids@[i as int],
                )) by {
                    assert forall|x: i64|
                        before.push(ids@[i as int]).contains(x) <==> before.contains(x) || x
                            == ids@[i as int] by {
                        if before.contains(x) {
                            let j = choose|j: int| 0 <= j < before.len() && before[j] == x;
                            assert(before.push(ids@[i as int])[j] == x);
                        }
                        if x == ids@[i as int] {
                            assert(before.push(ids@[i as int])[before.len() as int] == x);
                        }
                    }
                }
            }
            i += 1;
        }
        assert(ids@.take(ids@.len() as int) =~= ids@);
        PreferenceStore { enabled }
    }

    /// Opens the store on what was found in storage. A first run, on which
    /// nothing is kept yet, opens empty; what is kept is loaded as it
    /// is; what cannot be read is an error, never a silent reset.
    pub fn open(storage: &Storage) -> (store: Result<PreferenceStore, PersistenceError>)
        ensures
            match store {
                Ok(store) => opened(*storage) == Ok::<Set<i64>, PersistenceError>(store@),
                Err(error) => opened(*storage) == Err::<Set<i64>, PersistenceError>(error),
            },
    {
        match storage {
            Storage::Absent => Ok(PreferenceStore::new()),
            Storage::Present(ids) => Ok(PreferenceStore::from_ids(ids)),
            Storage::Unreadable => Err(PersistenceError::Load),
        }
    }

    /// Whether `chat_id` has opted in.
    pub fn contains(&self, chat_id: i64) -> (enabled: bool)
        ensures
            enabled == self@.contains(chat_id),
    {
        int_set_contains(&self.enabled, chat_id)
    }

    /// Flips the preference of `chat_id` and tells whether it is now enabled.
    pub fn toggle(&mut self, chat_id: i64) -> (now_enabled: bool)
        ensures
            final(self)@ == toggled(old(self)@, chat_id),
            now_enabled == !old(self)@.contains(chat_id),
            now_enabled == final(self)@.contains(chat_id),
    {
        if int_set_insert(&mut self.enabled, chat_id) {
            true
        } else {
            int_set_remove(&mut self.enabled, chat_id);
            false
        }
    }

    /// The conversations that have opted in, each once: what a flush writes.
    /// A store opened on them again holds the same set.
    pub fn snapshot(&self) -> (ids: Vec<i64>)
        ensures
            ids@.to_set() == self@,
            ids@.no_duplicates(),
    {
        int_set_members(&self.enabled)
    }
}

/// A store that is opened on a snapshot of another holds the same
/// preferences, in whatever order the snapshot lists them.
pub proof fn lemma_snapshot_opens_equal(enabled: Set<i64>, snapshot: Vec<i64>)
    requires
        snapshot@.to_set() == enabled,
    ensures
        opened(Storage::Present(snapshot)) == Ok::<Set<i64>, PersistenceError>(enabled),
{
}

/// After `n` flips of `id` its membership has changed exactly if `n` is odd,
/// and no other conversation is touched. From a store that does not hold
/// `id`, it is a member after an odd number of flips and none after an
/// even number.
pub proof fn lemma_toggle_parity(s: Set<i64>, id: i64, n: nat)
    ensures
        toggled_times(s, id, n).contains(id) == (s.contains(id) != (n % 2 == 1)),
        !s.contains(id) ==> (toggled_times(s, id, n).contains(id) <==> n % 2 == 1),
        forall|other: i64|
            other != id ==> toggled_times(s, id, n).contains(other) == s.contains(other),
    decreases n,
{
    if n > 0 {
        lemma_toggle_parity(s, id, (n - 1) as nat);
    }
}

/// A conversation is a member after a series of flips exactly if its
/// membership before differs from whether it was flipped an odd number of
/// times: every flip counts, in whatever order they came.
pub proof fn lemma_toggled_each_membership(s: Set<i64>, ids: Seq<i64>, id: i64)
    ensures
        toggled_each(s, ids).contains(id) == (s.contains(id) != (ids.to_multiset().count(id) % 2
            == 1)),
    decreases ids.len(),
{
    broadcast use vstd::seq_lib::group_to_multiset_ensures;

    if ids.len() > 0 {
        let front = ids.drop_last();
        lemma_toggled_each_membership(s, front, id);
        assert(ids =~= front.push(ids.last()));
        assert(ids.to_multiset() =~= front.to_multiset().insert(ids.last()));
    } else {
        assert(ids.to_multiset().count(id) == 0);
    }
}

/// Flips applied one after another give the same store in every order:
/// two series that hold the same flips, each as often, end in the same set.
pub proof fn lemma_toggle_order(s: Set<i64>, first: Seq<i64>, second: Seq<i64>)
    requires
        first.to_multiset() == second.to_multiset(),
    ensures
        toggled_each(s, first) == toggled_each(s, second),
{
    assert forall|id: i64| toggled_each(s, first).contains(id) == toggled_each(s, second).contains(
        id,
    ) by {
        lemma_toggled_each_membership(s, first, id);
        lemma_toggled_each_membership(s, second, id);
    }
    assert(toggled_each(s, first) =~= toggled_each(s, second));
}

} // verus!
