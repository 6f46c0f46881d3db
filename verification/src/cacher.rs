//! Name-keyed texture cache: the fixed list of required asset names, and a
//! cache that a caller-supplied loader fills with one texture handle per
//! required asset, in order, stopping at the first failure.

use crate::chess::{spec_variant_list, spec_variant_names, ChessPiece};
use vstd::prelude::*;

verus! {

/// Population state of a cache: freshly constructed, fully loaded, or
/// abandoned after a load failure. A failed cache is not usable and is
/// never re-populated.
#[derive(Copy, Clone, Debug, PartialEq, Eq, Structural)]
pub enum CacheState {
    /// Constructed; not every required asset is loaded yet.
    Unpopulated,
    /// Every required asset is loaded.
    Populated,
    /// A load failed; the cache holds an unspecified subset of the assets
    /// and must be discarded.
    Failed,
}

/// Error raised while building or filling a cache.
#[derive(Debug, PartialEq, Eq)]
pub enum CacheError {
    /// No assets directory was found by the caller-side search.
    AssetDirectoryNotFound,
    /// A required asset failed to load; carries the logical asset name and
    /// the loader's description of the underlying cause.
    TextureLoadFailed {
        /// The logical name of the asset whose load failed.
        name: String,
        /// The loader's description of the failure.
        cause: String,
    },
}

/// The required logical asset names in load order: the file name of each
/// piece variant in enumeration order, then the three fixed extra images.
pub open spec fn spec_asset_names() -> Seq<Seq<char>> {
    spec_variant_names() + seq!["board_alt.png"@, "highlight.png"@, "selected.png"@]
}

/// The views of a sequence of owned strings.
pub open spec fn spec_string_views(v: Seq<String>) -> Seq<Seq<char>> {
    v.map_values(|s: String| s@)
}

/// Appending a string appends its view to the views of a string sequence.
proof fn lemma_string_views_push(v: Seq<String>, x: String)
    ensures
        spec_string_views(v.push(x)) == spec_string_views(v).push(x@),
{
    assert forall|j: int|
        0 <= j < v.push(x).len() implies spec_string_views(v.push(x))[j] == spec_string_views(
        v,
    ).push(x@)[j] by {
        if j < v.len() {
            assert(v.push(x)[j] == v[j]);
        } else {
            assert(v.push(x)[j] == x);
        }
    }
    assert(spec_string_views(v.push(x)) =~= spec_string_views(v).push(x@));
}

/// Fifteen assets are required: twelve piece variants and three extras.
pub proof fn lemma_asset_names_len()
    ensures
        spec_asset_names().len() == 15,
{
}

/// A cache of loaded texture handles, keyed by logical asset name.
///
/// The cache owns a resolved base directory path and a mapping filled once
/// by [`Cacher::populate`]; entries are never removed or replaced.
#[derive(Debug)]
pub struct Cacher<T> {
    path: String,
    entries: Vec<(String, T)>,
    state: CacheState,
}

impl<T> Cacher<T> {
    /// The loaded entries, each a logical asset name with its handle.
    pub closed spec fn spec_entries(&self) -> Seq<(Seq<char>, T)> {
        self.entries@.map_values(|e: (String, T)| (e.0@, e.1))
    }

    /// The loaded logical asset names, in load order.
    pub open spec fn spec_names(&self) -> Seq<Seq<char>> {
        self.spec_entries().map_values(|e: (Seq<char>, T)| e.0)
    }

    /// The resolved base directory path.
    pub closed spec fn spec_path(&self) -> Seq<char> {
        self.path@
    }

    /// The population state.
    pub closed spec fn spec_state(&self) -> CacheState {
        self.state
    }

    /// The handle stored at entry `i` is one the loader produced for
    /// exactly the required asset at `i`, joined to the base path.
    pub open spec fn spec_loaded_from<F: Fn(String) -> Result<T, String>>(
        load: F,
        base: Seq<char>,
        entries: Seq<(Seq<char>, T)>,
        i: int,
    ) -> bool {
        exists|p: String, h: T|
            #[trigger] call_ensures(load, (p,), Ok::<T, String>(h)) && p@ == base + "/"@
                + spec_asset_names()[i] && entries[i].1 == h
    }

    /// Well-formedness: the loaded names are exactly the first entries of
    /// the required list, every required asset is loaded when the cache is
    /// populated, and not all of them are while it is unpopulated.
    pub open spec fn wf(&self) -> bool {
        &&& self.spec_names() == spec_asset_names().take(self.spec_entries().len() as int)
        &&& self.spec_entries().len() <= spec_asset_names().len()
        &&& (self.spec_state() == CacheState::Unpopulated ==> self.spec_entries().len()
            < spec_asset_names().len())
        &&& (self.spec_state() == CacheState::Populated ==> self.spec_entries().len()
            == spec_asset_names().len())
    }

    /// An empty, unpopulated cache over an already-resolved assets
    /// directory. The directory search itself is the caller's: it is
    /// filesystem work outside this library.
    pub fn new(path: String) -> (r: Self)
        ensures
            r.wf(),
            r.spec_state() == CacheState::Unpopulated,
            r.spec_entries() == Seq::<(Seq<char>, T)>::empty(),
            r.spec_path() == path@,
    {
        let r = Cacher { path, entries: Vec::new(), state: CacheState::Unpopulated };
        proof {
            assert(r.spec_entries() =~= Seq::<(Seq<char>, T)>::empty());
            assert(r.spec_names() =~= spec_asset_names().take(0));
        }
        r
    }

    /// The population state of this cache.
    pub fn state(&self) -> (r: CacheState)
        ensures
            r == self.spec_state(),
    {
        self.state
    }

    /// The required logical asset names, in load order.
    pub fn asset_names() -> (r: Vec<String>)
        ensures
            spec_string_views(r@) == spec_asset_names(),
    {
        let variants = ChessPiece::all_variants();
        proof {
            crate::chess::lemma_all_variants_list();
        }
        let mut v: Vec<String> = Vec::new();
        let mut i: usize = 0;
        while i < variants.len()
            invariant
                variants@ == spec_variant_list(),
                0 <= i <= variants@.len(),
                spec_string_views(v@) =~= spec_variant_names().take(i as int),
            decreases variants@.len() - i,
        {
            let name = variants[i].to_file_name();
            let ghost vold = v@;
            v.push(name);
            proof {
                lemma_string_views_push(vold, name);
                assert(spec_variant_names().take(i + 1) =~= spec_variant_names().take(
                    i as int,
                ).push(spec_variant_names()[i as int]));
            }
            i += 1;
        }
        let extra1 = String::from_str("board_alt.png");
        let ghost v1 = v@;
        v.push(extra1);
        let extra2 = String::from_str("highlight.png");
        let ghost v2 = v@;
        v.push(extra2);
        let extra3 = String::from_str("selected.png");
        let ghost v3 = v@;
        v.push(extra3);
        proof {
            lemma_string_views_push(v1, extra1);
            lemma_string_views_push(v2, extra2);
            lemma_string_views_push(v3, extra3);
            assert(spec_variant_names().take(12) =~= spec_variant_names());
            assert(spec_string_views(v@) =~= spec_asset_names());
        }
        v
    }

    /// The full path of an asset inside the resolved directory.
    pub fn join_path(&self, name: &str) -> (r: String)
        ensures
            r@ == self.spec_path() + "/"@ + name@,
    {
        String::from_str(self.path.as_str()).concat("/").concat(name)
    }

    /// The name of the next asset to load, or `None` once the cache is
    /// populated or has failed.
    pub fn pending_asset(&self) -> (r: Option<String>)
        requires
            self.wf(),
        ensures
            match r {
                Some(name) => self.spec_state() == CacheState::Unpopulated && name@
                    == spec_asset_names()[self.spec_entries().len() as int],
                None => self.spec_state() != CacheState::Unpopulated,
            },
    {
        match self.state {
            CacheState::Unpopulated => {
                let names = Self::asset_names();
                Some(names[self.entries.len()].clone())
            },
            _ => None,
        }
    }

    /// Stores a handle for the next pending asset. Once the last required
    /// asset is stored, the cache becomes populated.
    pub fn insert(&mut self, tex: T)
        requires
            old(self).wf(),
            old(self).spec_state() == CacheState::Unpopulated,
        ensures
            final(self).wf(),
            final(self).spec_path() == old(self).spec_path(),
            final(self).spec_entries() == old(self).spec_entries().push(
                (spec_asset_names()[old(self).spec_entries().len() as int], tex),
            ),
            final(self).spec_state() == (if old(self).spec_entries().len() + 1
                == spec_asset_names().len() {
                CacheState::Populated
            } else {
                CacheState::Unpopulated
            }),
    {
        let names = Self::asset_names();
        let name = names[self.entries.len()].clone();
        self.entries.push((name, tex));
        proof {
            assert(self.spec_entries() =~= old(self).spec_entries().push(
                (spec_asset_names()[old(self).spec_entries().len() as int], tex),
            ));
            assert(self.spec_names() =~= spec_asset_names().take(
                self.spec_entries().len() as int,
            ));
        }
        if self.entries.len() == 15 {
            self.state = CacheState::Populated;
        }
    }

    /// Abandons a not-yet-populated cache after a failed load; it stays
    /// failed for good. A populated cache is never abandoned: the state
    /// machine has no transition out of the populated state.
    pub fn mark_failed(&mut self)
        requires
            old(self).wf(),
            old(self).spec_state() == CacheState::Unpopulated,
        ensures
            final(self).wf(),
            final(self).spec_state() == CacheState::Failed,
            final(self).spec_entries() == old(self).spec_entries(),
            final(self).spec_path() == old(self).spec_path(),
    {
        self.state = CacheState::Failed;
    }

    /// Loads every required asset in order through the given loader, which
    /// maps a full file path to a handle or to a description of the
    /// failure. Stops at the first failure, reporting the asset whose load
    /// failed and leaving the cache failed; on success the cache holds one
    /// handle per required asset name, each one produced by the loader for
    /// that asset's own path.
    pub fn populate<F: Fn(String) -> Result<T, String>>(&mut self, load: F) -> (r: Result<
        (),
        CacheError,
    >)
        requires
            old(self).wf(),
            old(self).spec_state() == CacheState::Unpopulated,
            forall|p: String| #[trigger] call_requires(load, (p,)),
        ensures
            final(self).wf(),
            final(self).spec_path() == old(self).spec_path(),
            match r {
                Ok(()) => final(self).spec_state() == CacheState::Populated
                    && final(self).spec_names() == spec_asset_names(),
                Err(e) => final(self).spec_state() == CacheState::Failed
                    && (e matches CacheError::TextureLoadFailed { name, cause }
                    && old(self).spec_entries().len() <= final(self).spec_entries().len()
                    && final(self).spec_entries().len() < spec_asset_names().len()
                    && name@ == spec_asset_names()[final(self).spec_entries().len() as int]),
            },
            forall|i: int|
                old(self).spec_entries().len() <= i < final(self).spec_entries().len()
                    ==> #[trigger] Self::spec_loaded_from(
                    load,
                    old(self).spec_path(),
                    final(self).spec_entries(),
                    i,
                ),
            r matches Err(CacheError::TextureLoadFailed { name, cause }) ==> exists|
                p: String,
                err: String,
            |
                #[trigger] call_ensures(load, (p,), Err::<T, String>(err)) && err == cause && p@
                    == old(self).spec_path() + "/"@ + name@,
    {
        loop
            invariant
                self.wf(),
                self.spec_state() == CacheState::Unpopulated,
                self.spec_path() == old(self).spec_path(),
                old(self).spec_entries().len() <= self.spec_entries().len(),
                forall|p: String| #[trigger] call_requires(load, (p,)),
                forall|i: int|
                    old(self).spec_entries().len() <= i < self.spec_entries().len()
                        ==> #[trigger] Self::spec_loaded_from(
                        load,
                        old(self).spec_path(),
                        self.spec_entries(),
                        i,
                    ),
            decreases spec_asset_names().len() - self.spec_entries().len(),
        {
            let name = match self.pending_asset() {
                Some(name) => name,
                None => unreached(),
            };
            let full = self.join_path(name.as_str());
            let ghost gfull = full;
            match load(full) {
                Ok(tex) => {
                    let ghost gtex = tex;
                    let ghost prev = self.spec_entries();
                    self.insert(tex);
                    proof {
                        assert forall|i: int|
                            old(self).spec_entries().len() <= i
                                < self.spec_entries().len() implies #[trigger] Self::spec_loaded_from(
                            load,
                            old(self).spec_path(),
                            self.spec_entries(),
                            i,
                        ) by {
                            if i < prev.len() {
                                assert(Self::spec_loaded_from(
                                    load,
                                    old(self).spec_path(),
                                    prev,
                                    i,
                                ));
                                assert(self.spec_entries()[i] == prev[i]);
                            } else {
                                assert(call_ensures(load, (gfull,), Ok::<T, String>(gtex)));
                                assert(gfull@ == old(self).spec_path() + "/"@
                                    + spec_asset_names()[i]);
                                assert(self.spec_entries()[i].1 == gtex);
                            }
                        }
                    }
                    if self.state() == CacheState::Populated {
                        proof {
                            assert(self.spec_names() =~= spec_asset_names());
                        }
                        return Ok(());
                    }
                },
                Err(cause) => {
                    self.mark_failed();
                    proof {
                        assert(call_ensures(load, (gfull,), Err::<T, String>(cause)));
                        assert(gfull@ == self.spec_path() + "/"@ + name@);
                    }
                    return Err(CacheError::TextureLoadFailed { name, cause });
                },
            }
        }
    }

    /// A cache over the given directory, fully populated through the
    /// loader; fails with whichever step failed first. On failure the
    /// partially filled cache is discarded. On success every required
    /// asset name carries a handle the loader produced for that asset's
    /// own path.
    pub fn new_and_populate<F: Fn(String) -> Result<T, String>>(path: String, load: F) -> (r:
        Result<Self, CacheError>)
        requires
            forall|p: String| #[trigger] call_requires(load, (p,)),
        ensures
            match r {
                Ok(c) => c.wf() && c.spec_state() == CacheState::Populated && c.spec_path()
                    == path@ && c.spec_names() == spec_asset_names(),
                Err(e) => e matches CacheError::TextureLoadFailed { .. },
            },
            r matches Ok(c) ==> forall|i: int|
                0 <= i < c.spec_entries().len() ==> #[trigger] Self::spec_loaded_from(
                    load,
                    path@,
                    c.spec_entries(),
                    i,
                ),
            r matches Err(CacheError::TextureLoadFailed { name, cause }) ==> exists|
                p: String,
                err: String,
            |
                #[trigger] call_ensures(load, (p,), Err::<T, String>(err)) && err == cause && p@
                    == path@ + "/"@ + name@,
    {
        let mut c = Self::new(path);
        match c.populate(load) {
            Ok(()) => Ok(c),
            Err(e) => Err(e),
        }
    }

    /// A populated cache holds an entry for every required asset name.
    pub proof fn lemma_populated_has_required(&self, j: int)
        requires
            self.wf(),
            self.spec_state() == CacheState::Populated,
            0 <= j < spec_asset_names().len(),
        ensures
            exists|i: int|
                0 <= i < self.spec_entries().len() && self.spec_entries()[i].0
                    == spec_asset_names()[j],
    {
        assert(spec_asset_names().take(spec_asset_names().len() as int) =~= spec_asset_names());
        assert(self.spec_names()[j] == self.spec_entries()[j].0);
        assert(self.spec_entries()[j].0 == spec_asset_names()[j]);
    }

    /// Looks the given logical asset name up; returns the handle stored
    /// under exactly that name, or `None` when no load ever stored one.
    /// Purely a lookup: nothing is loaded on demand.
    pub fn get(&self, p: &str) -> (r: Option<&T>)
        ensures
            match r {
                Some(t) => exists|i: int|
                    0 <= i < self.spec_entries().len() && self.spec_entries()[i].0 == p@ && *t
                        == self.spec_entries()[i].1,
                None => forall|i: int|
                    0 <= i < self.spec_entries().len() ==> self.spec_entries()[i].0 != p@,
            },
    {
        let mut i: usize = 0;
        while i < self.entries.len()
            invariant
                0 <= i <= self.entries@.len(),
                forall|j: int| 0 <= j < i ==> self.spec_entries()[j].0 != p@,
            decreases self.entries@.len() - i,
        {
            let e = &self.entries[i];
            if crate::text::str_eq(e.0.as_str(), p) {
                proof {
                    assert(self.spec_entries()[i as int].0 == p@ && self.spec_entries()[
                        i as int
                    ].1 == e.1);
                }
                return Some(&e.1);
            }
            i += 1;
        }
        None
    }
}

} // verus!
