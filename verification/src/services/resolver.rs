//! The resolver: a cache of canonical resources, keyed by descriptor.

use std::sync::Arc;
use vstd::prelude::*;
use vstd::string::*;

use crate::error::ResolveError;
use crate::models::bestdori::{
    self, BESTDORI_ASSET_URL_MODEL, BESTDORI_ASSET_URL_MODEL_BUILDER, BESTDORI_ASSET_URL_ROOT,
    BESTDORI_ASSET_URL_SE,
};
use crate::models::webgal;
use crate::traits::resolve::{
    Cache, CacheKey, Resolve, ResolveResult, ResourceEntry, ResourceType,
};
use crate::utils::{gen_name_from_url, lower_first_alphabetic, lowered_first_alphabetic, name_from_url};

verus! {

/// The file extension of every image.
pub const RESOURCE_IMAGE_EXTEND: &'static str = ".png";

/// The file extension of every sound.
pub const RESOURCE_SOUND_EXTEND: &'static str = ".mp3";

/// The file extension of the resources of a kind. Figures have none.
pub open spec fn extend_of(kind: webgal::ResourceType) -> Option<Seq<char>> {
    match kind {
        webgal::ResourceType::Background => Some(RESOURCE_IMAGE_EXTEND@),
        webgal::ResourceType::Bgm | webgal::ResourceType::Vocal => Some(RESOURCE_SOUND_EXTEND@),
        webgal::ResourceType::Figure => None,
    }
}

/// The canonical resource of an uploaded file: it is fetched from its own
/// URL, and named after that URL.
pub open spec fn custom_resource(
    path: bestdori::ResourcePathView,
    kind: webgal::ResourceType,
) -> Option<webgal::ResourceView> {
    match (path, extend_of(kind)) {
        (bestdori::ResourcePathView::Url { url }, Some(extend)) => Some(
            webgal::ResourceView { kind, url, path: name_from_url(url, extend) },
        ),
        _ => None,
    }
}

/// The address of `file` in the bundle `bundle`.
pub open spec fn bundle_url(bundle: Seq<char>, file: Seq<char>) -> Seq<char> {
    BESTDORI_ASSET_URL_ROOT@ + bundle + "_rip/"@ + file
}

/// The canonical resource of a file that names its bundle.
pub open spec fn bundle_resource(
    path: bestdori::ResourcePathView,
    kind: webgal::ResourceType,
) -> Option<webgal::ResourceView> {
    match (path, extend_of(kind)) {
        (bestdori::ResourcePathView::File { file, bundle: Some(bundle) }, Some(extend)) => Some(
            webgal::ResourceView {
                kind,
                url: bundle_url(bundle, file),
                path: bundle + "-"@ + file + extend,
            },
        ),
        _ => None,
    }
}

/// The canonical resource of an image.
pub open spec fn image_resource(res: bestdori::ResourceView) -> Option<webgal::ResourceView> {
    match res.kind {
        bestdori::ResourceType::Custom => custom_resource(
            res.path,
            webgal::ResourceType::Background,
        ),
        bestdori::ResourceType::Bandori => bundle_resource(
            res.path,
            webgal::ResourceType::Background,
        ),
        bestdori::ResourceType::Common => None,
    }
}

/// The canonical resource of a piece of background music. A piece of the
/// platform's own is found in the bundle named after its file, with the first
/// letter in lower case.
pub open spec fn bgm_resource(res: bestdori::ResourceView) -> Option<webgal::ResourceView> {
    match (res.kind, res.path) {
        (bestdori::ResourceType::Custom, path) => custom_resource(path, webgal::ResourceType::Bgm),
        (
            bestdori::ResourceType::Bandori,
            bestdori::ResourcePathView::File { file, bundle: None },
        ) => {
            let file = file + RESOURCE_SOUND_EXTEND@;
            Some(
                webgal::ResourceView {
                    kind: webgal::ResourceType::Bgm,
                    url: bundle_url(lowered_first_alphabetic(file), file),
                    path: file,
                },
            )
        },
        _ => None,
    }
}

/// The canonical resource of a sound effect.
pub open spec fn se_resource(res: bestdori::ResourceView) -> Option<webgal::ResourceView> {
    match (res.kind, res.path) {
        (bestdori::ResourceType::Custom, path) => custom_resource(
            path,
            webgal::ResourceType::Vocal,
        ),
        (
            bestdori::ResourceType::Bandori,
            bestdori::ResourcePathView::File { file, bundle: Some(bundle) },
        ) => {
            let file = file + RESOURCE_SOUND_EXTEND@;
            Some(
                webgal::ResourceView {
                    kind: webgal::ResourceType::Vocal,
                    url: bundle_url(bundle, file),
                    path: file,
                },
            )
        },
        (
            bestdori::ResourceType::Common,
            bestdori::ResourcePathView::File { file, bundle: None },
        ) => {
            let file = file + RESOURCE_SOUND_EXTEND@;
            Some(
                webgal::ResourceView {
                    kind: webgal::ResourceType::Vocal,
                    url: BESTDORI_ASSET_URL_SE@ + file,
                    path: file,
                },
            )
        },
        _ => None,
    }
}

/// The canonical resource of a descriptor resolved for the use `kind`, if it
/// has one.
pub open spec fn canonical_resource(res: bestdori::ResourceView, kind: ResourceType) -> Option<
    webgal::ResourceView,
> {
    match kind {
        ResourceType::Image => image_resource(res),
        ResourceType::Bgm => bgm_resource(res),
        ResourceType::Se => se_resource(res),
    }
}

/// The canonical resource of the character model `costume`: its manifest in
/// the model's bundle, landing in a directory named after the model.
pub open spec fn model_resource(costume: Seq<char>) -> webgal::ResourceView {
    webgal::ResourceView {
        kind: webgal::ResourceType::Figure,
        url: BESTDORI_ASSET_URL_MODEL@ + costume + "_rip/"@ + BESTDORI_ASSET_URL_MODEL_BUILDER@,
        path: costume + "/"@,
    }
}

/// The key of a cache entry.
#[derive(Debug)]
pub enum ResourceKey {
    Normal(bestdori::Resource, ResourceType),
    Model(String),
}

impl View for ResourceKey {
    type V = CacheKey;

    open spec fn view(&self) -> CacheKey {
        match self {
            ResourceKey::Normal(res, kind) => CacheKey::Normal(res@, *kind),
            ResourceKey::Model(costume) => CacheKey::Model(costume@),
        }
    }
}

impl ResourceKey {
    /// Tests whether two keys are the same key.
    pub fn same(&self, other: &Self) -> (b: bool)
        ensures
            b == (self@ == other@),
    {
        match (self, other) {
            (ResourceKey::Normal(ra, ka), ResourceKey::Normal(rb, kb)) => *ka == *kb && ra.same(rb),
            (ResourceKey::Model(a), ResourceKey::Model(b)) => *a == *b,
            _ => false,
        }
    }
}

/// One entry of the cache.
struct Slot {
    key: ResourceKey,
    resource: Arc<webgal::Resource>,
}

/// The resolver. It maps descriptors to canonical resources and hands each
/// canonical resource out as vacant exactly once.
pub struct Resolver {
    slots: Vec<Slot>,
    known: Ghost<Cache>,
}

impl Resolver {
    /// Every slot is an entry of the cache, and every entry has its slot.
    #[verifier::type_invariant]
    spec fn wf(self) -> bool {
        &&& forall|i: int|
            0 <= i < self.slots@.len() ==> self.known@.dom().contains(
                (#[trigger] self.slots@[i]).key@,
            ) && self.known@[self.slots@[i].key@] == self.slots@[i].resource@
        &&& forall|key: CacheKey|
            self.known@.dom().contains(key) ==> exists|i: int|
                0 <= i < self.slots@.len() && (#[trigger] self.slots@[i]).key@ == key
    }

    /// What the resolver has handed out so far.
    pub closed spec fn entries(&self) -> Cache {
        self.known@
    }

    /// A resolver that has handed out nothing.
    pub fn new() -> (resolver: Self)
        ensures
            resolver.entries() == Map::<CacheKey, webgal::ResourceView>::empty(),
    {
        Resolver { slots: Vec::new(), known: Ghost(Map::empty()) }
    }

    /// The resource entered under `key`, if there is one.
    fn lookup(&self, key: &ResourceKey) -> (found: Option<Arc<webgal::Resource>>)
        ensures
            found is Some == self.entries().dom().contains(key@),
            found matches Some(r) ==> r@ == self.entries()[key@],
    {
        proof {
            use_type_invariant(self);
        }
        let mut i: usize = 0;
        while i < self.slots.len()
            invariant
                i <= self.slots@.len(),
                forall|j: int| 0 <= j < i ==> (#[trigger] self.slots@[j]).key@ != key@,
                self.wf(),
            decreases self.slots.len() - i,
        {
            if self.slots[i].key.same(key) {
                return Some(self.slots[i].resource.clone());
            }
            i += 1;
        }
        None
    }

    /// Enters `resource` under `key`, which is not yet known.
    fn insert(&mut self, key: ResourceKey, resource: webgal::Resource) -> (shared: Arc<
        webgal::Resource,
    >)
        requires
            !old(self).entries().dom().contains(key@),
        ensures
            final(self).entries() == old(self).entries().insert(key@, resource@),
            shared@ == resource@,
    {
        let mut taken = Resolver::new();
        std::mem::swap(self, &mut taken);
        proof {
            use_type_invariant(&taken);
        }
        let Resolver { slots, known } = taken;
        let mut slots = slots;
        let shared = Arc::new(resource);
        let ghost before = slots@;
        let ghost entry = key@;
        slots.push(Slot { key, resource: shared.clone() });
        let ghost cache = known@.insert(entry, resource@);
        proof {
            assert forall|i: int| 0 <= i < slots@.len() implies cache.dom().contains(
                (#[trigger] slots@[i]).key@,
            ) && cache[slots@[i].key@] == slots@[i].resource@ by {
                if i < before.len() {
                    assert(slots@[i] == before[i]);
                }
            }
            assert forall|k: CacheKey| cache.dom().contains(k) implies exists|i: int|
                0 <= i < slots@.len() && (#[trigger] slots@[i]).key@ == k by {
                if k == entry {
                    assert(slots@[before.len() as int].key@ == k);
                } else {
                    let i = choose|i: int| 0 <= i < before.len() && (#[trigger] before[i]).key@ == k;
                    assert(slots@[i] == before[i]);
                }
            }
        }
        *self = Resolver { slots, known: Ghost(cache) };
        shared
    }

    /// Resolves an uploaded file.
    pub fn resolve_custom(res: &bestdori::ResourcePath, kind: webgal::ResourceType) -> (r: Option<
        webgal::Resource,
    >)
        ensures
            r is Some == custom_resource(res@, kind) is Some,
            r matches Some(resource) ==> resource@ == custom_resource(res@, kind).unwrap(),
    {
        match res {
            bestdori::ResourcePath::Url { url } => {
                let extend = match kind {
                    webgal::ResourceType::Background => RESOURCE_IMAGE_EXTEND,
                    webgal::ResourceType::Bgm | webgal::ResourceType::Vocal => RESOURCE_SOUND_EXTEND,
                    webgal::ResourceType::Figure => {
                        return None;
                    },
                };
                Some(
                    webgal::Resource {
                        kind,
                        url: url.clone(),
                        path: gen_name_from_url(url.as_str(), extend),
                    },
                )
            },
            _ => None,
        }
    }

    /// Builds the address of `file` in the bundle `bundle`.
    fn bundle_to_url(bundle: &str, file: &str) -> (url: String)
        ensures
            url@ == bundle_url(bundle@, file@),
    {
        let mut url = String::from_str(BESTDORI_ASSET_URL_ROOT);
        url.append(bundle);
        url.append("_rip/");
        url.append(file);
        url
    }

    /// Resolves a file that names its bundle.
    pub fn resolve_bundle(res: &bestdori::ResourcePath, kind: webgal::ResourceType) -> (r: Option<
        webgal::Resource,
    >)
        ensures
            r is Some == bundle_resource(res@, kind) is Some,
            r matches Some(resource) ==> resource@ == bundle_resource(res@, kind).unwrap(),
    {
        match res {
            bestdori::ResourcePath::File { file, bundle: Some(bundle) } => {
                let extend = match kind {
                    webgal::ResourceType::Background => RESOURCE_IMAGE_EXTEND,
                    webgal::ResourceType::Bgm | webgal::ResourceType::Vocal => RESOURCE_SOUND_EXTEND,
                    webgal::ResourceType::Figure => {
                        return None;
                    },
                };
                let mut path = bundle.clone();
                path.append("-");
                path.append(file.as_str());
                path.append(extend);
                Some(
                    webgal::Resource {
                        kind,
                        url: Self::bundle_to_url(bundle.as_str(), file.as_str()),
                        path,
                    },
                )
            },
            _ => None,
        }
    }

    /// Resolves an image.
    pub fn resolve_image(res: &bestdori::Resource) -> (r: Option<webgal::Resource>)
        ensures
            r is Some == image_resource(res@) is Some,
            r matches Some(resource) ==> resource@ == image_resource(res@).unwrap(),
    {
        match res.kind {
            bestdori::ResourceType::Custom => Self::resolve_custom(
                &res.path,
                webgal::ResourceType::Background,
            ),
            bestdori::ResourceType::Bandori => Self::resolve_bundle(
                &res.path,
                webgal::ResourceType::Background,
            ),
            _ => None,
        }
    }

    /// Resolves a piece of background music.
    pub fn resolve_bgm(res: &bestdori::Resource) -> (r: Option<webgal::Resource>)
        ensures
            r is Some == bgm_resource(res@) is Some,
            r matches Some(resource) ==> resource@ == bgm_resource(res@).unwrap(),
    {
        match res.kind {
            bestdori::ResourceType::Custom => Self::resolve_custom(
                &res.path,
                webgal::ResourceType::Bgm,
            ),
            bestdori::ResourceType::Bandori => match &res.path {
                bestdori::ResourcePath::File { file, bundle: None } => {
                    let mut file = file.clone();
                    file.append(RESOURCE_SOUND_EXTEND);
                    let bundle = lower_first_alphabetic(file.as_str());
                    Some(
                        webgal::Resource {
                            kind: webgal::ResourceType::Bgm,
                            url: Self::bundle_to_url(bundle.as_str(), file.as_str()),
                            path: file,
                        },
                    )
                },
                _ => None,
            },
            _ => None,
        }
    }

    /// Resolves a sound effect.
    pub fn resolve_se(res: &bestdori::Resource) -> (r: Option<webgal::Resource>)
        ensures
            r is Some == se_resource(res@) is Some,
            r matches Some(resource) ==> resource@ == se_resource(res@).unwrap(),
    {
        match res.kind {
            bestdori::ResourceType::Custom => Self::resolve_custom(
                &res.path,
                webgal::ResourceType::Vocal,
            ),
            bestdori::ResourceType::Bandori => match &res.path {
                bestdori::ResourcePath::File { file, bundle: Some(bundle) } => {
                    let mut file = file.clone();
                    file.append(RESOURCE_SOUND_EXTEND);
                    Some(
                        webgal::Resource {
                            kind: webgal::ResourceType::Vocal,
                            url: Self::bundle_to_url(bundle.as_str(), file.as_str()),
                            path: file,
                        },
                    )
                },
                _ => None,
            },
            bestdori::ResourceType::Common => match &res.path {
                bestdori::ResourcePath::File { file, bundle: None } => {
                    let mut file = file.clone();
                    file.append(RESOURCE_SOUND_EXTEND);
                    let mut url = String::from_str(BESTDORI_ASSET_URL_SE);
                    url.append(file.as_str());
                    Some(webgal::Resource { kind: webgal::ResourceType::Vocal, url, path: file })
                },
                _ => None,
            },
        }
    }

    /// Resolves a descriptor for the use `kind`, without looking at the cache.
    pub fn resolve(res: &bestdori::Resource, kind: ResourceType) -> (r: Option<webgal::Resource>)
        ensures
            r is Some == canonical_resource(res@, kind) is Some,
            r matches Some(resource) ==> resource@ == canonical_resource(res@, kind).unwrap(),
    {
        match kind {
            ResourceType::Image => Self::resolve_image(res),
            ResourceType::Bgm => Self::resolve_bgm(res),
            ResourceType::Se => Self::resolve_se(res),
        }
    }
}

impl Resolve for Resolver {
    open spec fn cache(&self) -> Cache {
        self.entries()
    }

    open spec fn canonical(res: bestdori::ResourceView, kind: ResourceType) -> Option<
        webgal::ResourceView,
    > {
        canonical_resource(res, kind)
    }

    open spec fn canonical_model(costume: Seq<char>) -> webgal::ResourceView {
        model_resource(costume)
    }

    fn resolve_normal(&mut self, res: &bestdori::Resource, kind: ResourceType) -> (result:
        ResolveResult<ResourceEntry>) {
        let key = ResourceKey::Normal(res.clone(), kind);
        match self.lookup(&key) {
            Some(shared) => Ok(ResourceEntry::Occupied(shared)),
            None => match Self::resolve(res, kind) {
                Some(resource) => Ok(ResourceEntry::Vacant(self.insert(key, resource))),
                None => Err(ResolveError { kind, resource: res.clone() }),
            },
        }
    }

    fn resolve_model(&mut self, costume: &str) -> (entry: ResourceEntry) {
        let key = ResourceKey::Model(String::from_str(costume));
        match self.lookup(&key) {
            Some(shared) => ResourceEntry::Occupied(shared),
            None => {
                let mut url = String::from_str(BESTDORI_ASSET_URL_MODEL);
                url.append(costume);
                url.append("_rip/");
                url.append(BESTDORI_ASSET_URL_MODEL_BUILDER);
                let mut path = String::from_str(costume);
                path.append("/");
                let resource = webgal::Resource { kind: webgal::ResourceType::Figure, url, path };
                ResourceEntry::Vacant(self.insert(key, resource))
            },
        }
    }
}

} // verus!
