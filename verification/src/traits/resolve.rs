//! Resolution of resource descriptors into canonical resources, without
//! duplicates.

use std::sync::Arc;
use vstd::prelude::*;

use crate::error::ResolveError;
use crate::models::{bestdori, webgal};

verus! {

pub type ResolveResult<T> = Result<T, ResolveError>;

/// The use a descriptor is resolved for. The same descriptor resolved for two
/// uses gives two cache entries.
#[derive(Debug, Clone, Copy, PartialEq, Eq, Hash, Structural)]
pub enum ResourceType {
    Image,
    Bgm,
    Se,
}

/// What a lookup in the cache found.
#[derive(Debug)]
pub enum ResourceEntry {
    /// No entry existed. One was made, and the caller has to schedule its fetch.
    Vacant(Arc<webgal::Resource>),
    /// An entry existed. Its fetch is already scheduled.
    Occupied(Arc<webgal::Resource>),
}

impl ResourceEntry {
    /// The canonical resource of the entry.
    pub open spec fn resource(self) -> webgal::ResourceView {
        match self {
            ResourceEntry::Vacant(r) => r@,
            ResourceEntry::Occupied(r) => r@,
        }
    }

    /// Tests whether the lookup made the entry.
    pub fn is_vacant(&self) -> (b: bool)
        ensures
            b == (self is Vacant),
    {
        match self {
            ResourceEntry::Vacant(_) => true,
            ResourceEntry::Occupied(_) => false,
        }
    }

    /// The canonical resource of the entry.
    pub fn as_ref(&self) -> (r: &webgal::Resource)
        ensures
            r@ == self.resource(),
    {
        match self {
            ResourceEntry::Vacant(r) => &**r,
            ResourceEntry::Occupied(r) => &**r,
        }
    }
}

/// The key of a cache entry: a descriptor with the use it is resolved for, or
/// the name of a character model.
pub enum CacheKey {
    Normal(bestdori::ResourceView, ResourceType),
    Model(Seq<char>),
}

/// The outcome of one lookup, as a mathematical value.
pub enum Lookup {
    Vacant(webgal::ResourceView),
    Occupied(webgal::ResourceView),
    Unresolved,
}

/// The cache as a mathematical value.
pub type Cache = Map<CacheKey, webgal::ResourceView>;

/// One indivisible check-and-insert on `cache`. Where `key` is known, the
/// cache is unchanged and the known resource is handed out. Where it is not,
/// and `canonical` is the resource the key resolves to, that resource is
/// entered; where the key resolves to nothing, the cache is unchanged.
pub open spec fn check_and_insert(
    cache: Cache,
    key: CacheKey,
    canonical: Option<webgal::ResourceView>,
) -> (Cache, Lookup) {
    if cache.dom().contains(key) {
        (cache, Lookup::Occupied(cache[key]))
    } else {
        match canonical {
            Some(resource) => (cache.insert(key, resource), Lookup::Vacant(resource)),
            None => (cache, Lookup::Unresolved),
        }
    }
}

/// Whether the result of a plain lookup is the exec form of `found`, for a
/// descriptor `res` resolved as `kind`.
pub open spec fn reports(
    result: ResolveResult<ResourceEntry>,
    found: Lookup,
    res: bestdori::ResourceView,
    kind: ResourceType,
) -> bool {
    match found {
        Lookup::Vacant(resource) => result matches Ok(ResourceEntry::Vacant(r)) && r@ == resource,
        Lookup::Occupied(resource) => result matches Ok(ResourceEntry::Occupied(r)) && r@
            == resource,
        Lookup::Unresolved => result matches Err(e) && e.kind == kind && e.resource@ == res,
    }
}

/// The outcomes of looking up `keys` one after another, starting from `cache`,
/// where `canonical` gives what each key resolves to.
pub open spec fn replay(
    cache: Cache,
    keys: Seq<CacheKey>,
    canonical: spec_fn(CacheKey) -> Option<webgal::ResourceView>,
) -> Seq<Lookup>
    decreases keys.len(),
{
    if keys.len() == 0 {
        Seq::empty()
    } else {
        let (next, found) = check_and_insert(cache, keys[0], canonical(keys[0]));
        seq![found] + replay(next, keys.drop_first(), canonical)
    }
}

/// Every lookup has an outcome.
pub proof fn lemma_replay_len(
    cache: Cache,
    keys: Seq<CacheKey>,
    canonical: spec_fn(CacheKey) -> Option<webgal::ResourceView>,
)
    ensures
        replay(cache, keys, canonical).len() == keys.len(),
    decreases keys.len(),
{
    if keys.len() > 0 {
        let (next, found) = check_and_insert(cache, keys[0], canonical(keys[0]));
        lemma_replay_len(next, keys.drop_first(), canonical);
    }
}

/// Once a key is known, every later lookup of it is occupied, and hands out
/// the resource that was entered.
pub proof fn lemma_known_stays_occupied(
    cache: Cache,
    keys: Seq<CacheKey>,
    canonical: spec_fn(CacheKey) -> Option<webgal::ResourceView>,
    key: CacheKey,
    i: int,
)
    requires
        cache.dom().contains(key),
        0 <= i < keys.len(),
        keys[i] == key,
    ensures
        replay(cache, keys, canonical)[i] == Lookup::Occupied(cache[key]),
    decreases keys.len(),
{
    let (next, found) = check_and_insert(cache, keys[0], canonical(keys[0]));
    let rest = replay(next, keys.drop_first(), canonical);
    lemma_replay_len(next, keys.drop_first(), canonical);
    if i > 0 {
        lemma_known_stays_occupied(next, keys.drop_first(), canonical, key, i - 1);
        assert(replay(cache, keys, canonical)[i] == rest[i - 1]);
    }
}

/// The dedup invariant. Take any run of lookups on a cache that does not know
/// `key` yet, and let `key` resolve to a resource. Then the first lookup of
/// `key` in the run is vacant, and every later lookup of `key` is occupied;
/// all of them hand out the same canonical resource. So exactly one lookup of
/// a key is ever vacant.
pub proof fn lemma_one_vacant_per_key(
    cache: Cache,
    keys: Seq<CacheKey>,
    canonical: spec_fn(CacheKey) -> Option<webgal::ResourceView>,
    key: CacheKey,
    i: int,
)
    requires
        !cache.dom().contains(key),
        canonical(key) is Some,
        0 <= i < keys.len(),
        keys[i] == key,
    ensures
        replay(cache, keys, canonical)[i] == if exists|j: int| 0 <= j < i && keys[j] == key {
            Lookup::Occupied(canonical(key).unwrap())
        } else {
            Lookup::Vacant(canonical(key).unwrap())
        },
    decreases keys.len(),
{
    let (next, found) = check_and_insert(cache, keys[0], canonical(keys[0]));
    let tail = keys.drop_first();
    let rest = replay(next, tail, canonical);
    lemma_replay_len(next, tail, canonical);
    if i > 0 {
        assert(replay(cache, keys, canonical)[i] == rest[i - 1]);
        if keys[0] == key {
            lemma_known_stays_occupied(next, tail, canonical, key, i - 1);
            assert(0 <= 0 < i && keys[0] == key);
        } else {
            lemma_one_vacant_per_key(next, tail, canonical, key, i - 1);
            if exists|j: int| 0 <= j < i - 1 && tail[j] == key {
                let j = choose|j: int| 0 <= j < i - 1 && tail[j] == key;
                assert(keys[j + 1] == key);
            }
            if exists|j: int| 0 <= j < i && keys[j] == key {
                let j = choose|j: int| 0 <= j < i && keys[j] == key;
                assert(tail[j - 1] == key);
            }
        }
    }
}

/// A resolver: maps descriptors to canonical resources and remembers which it
/// has handed out, so that no resource is scheduled twice.
pub trait Resolve {
    /// What the resolver has handed out so far.
    spec fn cache(&self) -> Cache;

    /// The canonical resource of a descriptor under a use, if it has one.
    spec fn canonical(res: bestdori::ResourceView, kind: ResourceType) -> Option<
        webgal::ResourceView,
    >;

    /// The canonical resource of a character model. Every name has one.
    spec fn canonical_model(costume: Seq<char>) -> webgal::ResourceView;

    /// Resolves a plain descriptor for the use `kind`.
    fn resolve_normal(&mut self, res: &bestdori::Resource, kind: ResourceType) -> (result:
        ResolveResult<ResourceEntry>)
        ensures
            ({
                let (cache, found) = check_and_insert(
                    old(self).cache(),
                    CacheKey::Normal(res@, kind),
                    Self::canonical(res@, kind),
                );
                final(self).cache() == cache && reports(result, found, res@, kind)
            }),
    ;

    /// Resolves a character model by name. This never fails.
    fn resolve_model(&mut self, costume: &str) -> (entry: ResourceEntry)
        ensures
            ({
                let (cache, found) = check_and_insert(
                    old(self).cache(),
                    CacheKey::Model(costume@),
                    Some(Self::canonical_model(costume@)),
                );
                final(self).cache() == cache && match found {
                    Lookup::Vacant(resource) => entry is Vacant && entry.resource() == resource,
                    Lookup::Occupied(resource) => entry is Occupied && entry.resource()
                        == resource,
                    Lookup::Unresolved => false,
                }
            }),
    ;
}

} // verus!
