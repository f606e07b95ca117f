//! The cache contract and the cache keyed by filesystem path.

use crate::tileset::Tileset;
use std::sync::Arc;
use vstd::hash_map::StringHashMap;
use vstd::prelude::*;

verus! {

/// A borrowed resource key: the text of a path. Two keys are the same key
/// exactly when their texts are equal; a path is never resolved or normalised.
pub type ResourcePath = str;

/// An owned resource key.
pub type ResourcePathBuf = String;

/// What a cache holds: the shared handle under each path text. Two handles
/// are equal when the tilesets behind them are equal.
pub type Entries = Map<Seq<char>, Arc<Tileset>>;

/// The answer of a lookup of `key`.
pub open spec fn cached(entries: Entries, key: Seq<char>) -> Option<Arc<Tileset>> {
    if entries.contains_key(key) {
        Some(entries[key])
    } else {
        None
    }
}

/// Whether a get-or-construct of `key` runs its constructor: only on a miss.
pub open spec fn runs_constructor(entries: Entries, key: Seq<char>) -> bool {
    cached(entries, key) is None
}

/// The entries after a get-or-construct of `key`, where `built` is what the
/// constructor returns if it is run. Only a miss whose constructor succeeds
/// adds an entry; nothing is ever replaced or removed.
pub open spec fn entries_after<E>(
    entries: Entries,
    key: Seq<char>,
    built: Result<Tileset, E>,
) -> Entries {
    match built {
        Ok(tileset) if runs_constructor(entries, key) => entries.insert(key, Arc::new(tileset)),
        _ => entries,
    }
}

/// The answer of that get-or-construct: the handle already held on a hit, and
/// on a miss the new tileset behind a fresh handle or the constructor's error
/// as it came.
pub open spec fn answer<E>(entries: Entries, key: Seq<char>, built: Result<Tileset, E>) -> Result<
    Arc<Tileset>,
    E,
> {
    match cached(entries, key) {
        Some(handle) => Ok(handle),
        None => match built {
            Ok(tileset) => Ok(Arc::new(tileset)),
            Err(error) => Err(error),
        },
    }
}

/// What every cache of tilesets offers: a lookup that never constructs, and a
/// get-or-construct that constructs at most once per key.
pub trait ResourceCache: View<V = Entries> {
    /// Looks `path` up. Absence is an answer, not an error.
    fn get_tileset(&self, path: &ResourcePath) -> (result: Option<Arc<Tileset>>)
        ensures
            result == cached(self@, path@),
    ;

    /// Returns the handle held under `path`, or runs `f` to build the tileset,
    /// stores it under `path` and returns its handle.
    ///
    /// The precondition of `f` is owed only on a miss, so an implementation
    /// cannot call `f` on a hit. When `f` fails the cache is left as it was and
    /// the error is returned as `f` gave it.
    fn get_or_try_insert_tileset_with<F, E>(&mut self, path: ResourcePathBuf, f: F) -> (result:
        Result<Arc<Tileset>, E>) where F: FnOnce() -> Result<Tileset, E>
        requires
            runs_constructor(old(self)@, path@) ==> f.requires(()),
        ensures
            !runs_constructor(old(self)@, path@) ==> (final(self)@ == old(self)@ && result == Ok::<
                Arc<Tileset>,
                E,
            >(old(self)@[path@])),
            runs_constructor(old(self)@, path@) ==> (exists|built: Result<Tileset, E>|
                #[trigger] f.ensures((), built) && final(self)@ == entries_after(
                    old(self)@,
                    path@,
                    built,
                ) && result == answer(old(self)@, path@, built)),
            result matches Ok(handle) ==> cached(final(self)@, path@) == Some(handle),
            result is Err ==> final(self)@ == old(self)@,
            old(self)@.submap_of(final(self)@),
            forall|other: Seq<char>|
                other != path@ ==> #[trigger] cached(final(self)@, other) == cached(
                    old(self)@,
                    other,
                ),
    ;
}

/// A cache that identifies resources by their path in the user's filesystem.
pub struct FilesystemResourceCache {
    tilesets: StringHashMap<Arc<Tileset>>,
}

impl FilesystemResourceCache {
    /// An empty cache.
    pub fn new() -> (result: Self)
        ensures
            result@ == Entries::empty(),
    {
        Self { tilesets: StringHashMap::new() }
    }
}

impl View for FilesystemResourceCache {
    type V = Entries;

    /// The entries held.
    closed spec fn view(&self) -> Entries {
        self.tilesets@
    }
}

impl ResourceCache for FilesystemResourceCache {
    fn get_tileset(&self, path: &ResourcePath) -> (result: Option<Arc<Tileset>>) {
        match self.tilesets.get(path) {
            Some(handle) => Some(handle.clone()),
            None => None,
        }
    }

    fn get_or_try_insert_tileset_with<F, E>(&mut self, path: ResourcePathBuf, f: F) -> (result:
        Result<Arc<Tileset>, E>) where F: FnOnce() -> Result<Tileset, E> {
        match self.tilesets.get(path.as_str()) {
            Some(handle) => Ok(handle.clone()),
            None => match f() {
                Ok(tileset) => {
                    let handle = Arc::new(tileset);
                    self.tilesets.insert(path, handle.clone());
                    Ok(handle)
                },
                Err(error) => Err(error),
            },
        }
    }
}

} // verus!
