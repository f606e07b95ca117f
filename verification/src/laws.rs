//! What holds of every cache of tilesets, stated over the functions that the
//! cache contract is written in.
//!
//! Two handles are equal here when the tilesets behind them are equal; which
//! allocation a handle points at is not something these statements can see.

use crate::cache::{answer, cached, entries_after, runs_constructor, Entries};
use crate::tileset::Tileset;
use std::sync::Arc;
use vstd::prelude::*;

verus! {

/// One get-or-construct as the cache sees it.
pub struct Request<E> {
    /// The path asked for.
    pub key: Seq<char>,
    /// What the constructor returns if it is run.
    pub built: Result<Tileset, E>,
}

/// The entries after a run of get-or-construct calls, oldest first. Lookups
/// change nothing, so they have no place in a history.
pub open spec fn replay<E>(entries: Entries, history: Seq<Request<E>>) -> Entries
    decreases history.len(),
{
    if history.len() == 0 {
        entries
    } else {
        entries_after(replay(entries, history.drop_last()), history.last().key, history.last().built)
    }
}

/// A hit never consults the constructor: whatever it would have built, the
/// handle already held is the answer and the entries stay as they are.
pub proof fn lemma_hit_ignores_constructor<E>(
    entries: Entries,
    key: Seq<char>,
    handle: Arc<Tileset>,
    built: Result<Tileset, E>,
)
    requires
        cached(entries, key) == Some(handle),
    ensures
        !runs_constructor(entries, key),
        answer(entries, key, built) == Ok::<Arc<Tileset>, E>(handle),
        entries_after(entries, key, built) == entries,
{
}

/// Population is idempotent: after a get-or-construct of `key` that
/// succeeded, a second one for the same key does not run its constructor,
/// returns a handle equal to the one the first returned, and changes nothing.
pub proof fn lemma_population_is_idempotent<E1, E2>(
    entries: Entries,
    key: Seq<char>,
    first: Result<Tileset, E1>,
    second: Result<Tileset, E2>,
)
    requires
        answer(entries, key, first) is Ok,
    ensures
        !runs_constructor(entries_after(entries, key, first), key),
        answer(entries_after(entries, key, first), key, second) is Ok,
        answer(entries_after(entries, key, first), key, second)->Ok_0 == answer(
            entries,
            key,
            first,
        )->Ok_0,
        entries_after(entries_after(entries, key, first), key, second) == entries_after(
            entries,
            key,
            first,
        ),
{
}

/// A key that no call has asked for is absent: an empty cache holds nothing,
/// and calls for other keys leave `key` absent.
pub proof fn lemma_absent_until_requested<E>(history: Seq<Request<E>>, key: Seq<char>)
    requires
        forall|i: int| 0 <= i < history.len() ==> (#[trigger] history[i]).key != key,
    ensures
        cached(replay(Entries::empty(), history), key) is None,
    decreases history.len(),
{
    if history.len() > 0 {
        let earlier = history.drop_last();
        assert forall|i: int| 0 <= i < earlier.len() implies (#[trigger] earlier[i]).key != key by {
            assert(earlier[i] == history[i]);
        }
        lemma_absent_until_requested(earlier, key);
    }
}

/// Miss, then hit: a get-or-construct that succeeds leaves under its key a
/// handle equal to the one it returned, which is what a lookup that follows
/// finds.
pub proof fn lemma_hit_after_success<E>(
    entries: Entries,
    key: Seq<char>,
    built: Result<Tileset, E>,
)
    requires
        answer(entries, key, built) is Ok,
    ensures
        cached(entries_after(entries, key, built), key) == Some(answer(entries, key, built)->Ok_0),
{
}

/// Failure is not cached: a miss whose constructor fails hands the error back
/// as it came and leaves the key absent, so the next get-or-construct for that
/// key runs its own constructor, and if that one succeeds its tileset is
/// returned and stored.
pub proof fn lemma_failure_is_not_cached<E1, E2>(
    entries: Entries,
    key: Seq<char>,
    error: E1,
    tileset: Tileset,
)
    requires
        cached(entries, key) is None,
    ensures
        answer(entries, key, Err::<Tileset, E1>(error)) == Err::<Arc<Tileset>, E1>(error),
        entries_after(entries, key, Err::<Tileset, E1>(error)) == entries,
        cached(entries_after(entries, key, Err::<Tileset, E1>(error)), key) is None,
        runs_constructor(entries_after(entries, key, Err::<Tileset, E1>(error)), key),
        answer(
            entries_after(entries, key, Err::<Tileset, E1>(error)),
            key,
            Ok::<Tileset, E2>(tileset),
        ) == Ok::<Arc<Tileset>, E2>(Arc::new(tileset)),
        cached(
            entries_after(
                entries_after(entries, key, Err::<Tileset, E1>(error)),
                key,
                Ok::<Tileset, E2>(tileset),
            ),
            key,
        ) == Some(Arc::new(tileset)),
{
}

/// Keys are independent: a get-or-construct under one key changes the answer
/// of a lookup under no other key.
pub proof fn lemma_keys_are_independent<E>(
    entries: Entries,
    key: Seq<char>,
    built: Result<Tileset, E>,
    other: Seq<char>,
)
    requires
        other != key,
    ensures
        cached(entries_after(entries, key, built), other) == cached(entries, other),
{
}

/// Handles are shared: once a handle stands under `key`, every later
/// retrieval observes a handle equal to it, whatever calls came in between.
/// The entry is never replaced and never removed, so a lookup after any
/// history finds it, and so does a get-or-construct, whose constructor is not
/// run.
pub proof fn lemma_handles_are_shared<E>(
    entries: Entries,
    key: Seq<char>,
    handle: Arc<Tileset>,
    history: Seq<Request<E>>,
    built: Result<Tileset, E>,
)
    requires
        cached(entries, key) == Some(handle),
    ensures
        cached(replay(entries, history), key) == Some(handle),
        answer(replay(entries, history), key, built) == Ok::<Arc<Tileset>, E>(handle),
        !runs_constructor(replay(entries, history), key),
    decreases history.len(),
{
    if history.len() > 0 {
        lemma_handles_are_shared(entries, key, handle, history.drop_last(), built);
    }
}

/// Entries only accumulate: after any history the cache still holds every
/// entry it held before, unchanged.
pub proof fn lemma_entries_persist<E>(entries: Entries, history: Seq<Request<E>>)
    ensures
        entries.submap_of(replay(entries, history)),
    decreases history.len(),
{
    if history.len() > 0 {
        let earlier = replay(entries, history.drop_last());
        lemma_entries_persist(entries, history.drop_last());
        assert(earlier.submap_of(
            entries_after(earlier, history.last().key, history.last().built),
        ));
    }
}

} // verus!
