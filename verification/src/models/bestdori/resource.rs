//! Resource descriptors as they occur in a source script.

use vstd::prelude::*;
use vstd::string::*;

verus! {

/// Where every asset bundle of the source platform is served from.
pub const BESTDORI_ASSET_URL_ROOT: &'static str = "https://bestdori.com/assets/jp/";

/// Where the scenario background music is served from.
pub const BESTDORI_ASSET_URL_BGM: &'static str = "https://bestdori.com/assets/jp/sound/scenario/bgm/";

/// Where the shared sound effects are served from.
pub const BESTDORI_ASSET_URL_SE: &'static str = "https://bestdori.com/res/CommonSE/";

/// Where the character models are served from.
pub const BESTDORI_ASSET_URL_MODEL: &'static str = "https://bestdori.com/assets/jp/live2d/chara/";

/// The manifest file of a character model, inside its bundle.
pub const BESTDORI_ASSET_URL_MODEL_BUILDER: &'static str = "buildData.asset";

/// Who owns a resource.
#[derive(Debug, Clone, Copy, PartialEq, Eq, Hash, Structural)]
pub enum ResourceType {
    Bandori,
    Custom,
    Common,
}

impl ResourceType {
    /// The name of the owner.
    pub open spec fn name(self) -> Seq<char> {
        match self {
            ResourceType::Bandori => "Bandori"@,
            ResourceType::Custom => "Custom"@,
            ResourceType::Common => "Common"@,
        }
    }

    /// The name of the owner.
    pub fn as_str(&self) -> (name: &'static str)
        ensures
            name@ == self.name(),
    {
        match self {
            ResourceType::Bandori => "Bandori",
            ResourceType::Custom => "Custom",
            ResourceType::Common => "Common",
        }
    }
}

impl Default for ResourceType {
    fn default() -> (kind: Self)
        ensures
            kind == ResourceType::Bandori,
    {
        ResourceType::Bandori
    }
}

/// Where a resource is found: at a plain URL, or as a file of a bundle.
#[derive(Debug, PartialEq, Eq, Hash)]
pub enum ResourcePath {
    Url { url: String },
    File { file: String, bundle: Option<String> },
}

/// The mathematical value of a [`ResourcePath`].
pub enum ResourcePathView {
    Url { url: Seq<char> },
    File { file: Seq<char>, bundle: Option<Seq<char>> },
}

impl View for ResourcePath {
    type V = ResourcePathView;

    open spec fn view(&self) -> ResourcePathView {
        match self {
            ResourcePath::Url { url } => ResourcePathView::Url { url: url@ },
            ResourcePath::File { file, bundle } => ResourcePathView::File {
                file: file@,
                bundle: match bundle {
                    Some(b) => Some(b@),
                    None => None,
                },
            },
        }
    }
}

impl Clone for ResourcePath {
    fn clone(&self) -> (r: Self)
        ensures
            r@ == self@,
    {
        match self {
            ResourcePath::Url { url } => ResourcePath::Url { url: url.clone() },
            ResourcePath::File { file, bundle } => ResourcePath::File {
                file: file.clone(),
                bundle: match bundle {
                    Some(b) => Some(b.clone()),
                    None => None,
                },
            },
        }
    }
}

impl ResourcePath {
    /// Tests whether two paths denote the same place.
    pub fn same(&self, other: &Self) -> (b: bool)
        ensures
            b == (self@ == other@),
    {
        match (self, other) {
            (ResourcePath::Url { url: a }, ResourcePath::Url { url: b }) => *a == *b,
            (
                ResourcePath::File { file: fa, bundle: ba },
                ResourcePath::File { file: fb, bundle: bb },
            ) => {
                if !(*fa == *fb) {
                    return false;
                }
                match (ba, bb) {
                    (Some(x), Some(y)) => *x == *y,
                    (None, None) => true,
                    _ => false,
                }
            },
            _ => false,
        }
    }
}

/// A resource as a source script refers to it.
#[derive(Debug, PartialEq, Eq, Hash)]
pub struct Resource {
    pub kind: ResourceType,
    pub path: ResourcePath,
}

/// The mathematical value of a [`Resource`].
pub struct ResourceView {
    pub kind: ResourceType,
    pub path: ResourcePathView,
}

impl View for Resource {
    type V = ResourceView;

    open spec fn view(&self) -> ResourceView {
        ResourceView { kind: self.kind, path: self.path@ }
    }
}

impl Clone for Resource {
    fn clone(&self) -> (r: Self)
        ensures
            r@ == self@,
    {
        Resource { kind: self.kind, path: self.path.clone() }
    }
}

impl ResourceView {
    /// The descriptor in words: its owner, and its address, or its file with
    /// the bundle it is in before it.
    pub open spec fn text(self) -> Seq<char> {
        match self.path {
            ResourcePathView::Url { url } => self.kind.name() + ": "@ + url,
            ResourcePathView::File { file, bundle: Some(bundle) } => self.kind.name() + ": "@
                + bundle + " -> "@ + file,
            ResourcePathView::File { file, bundle: None } => self.kind.name() + ": "@ + file,
        }
    }
}

impl Resource {
    /// Writes the descriptor in words, for a message.
    pub fn to_string(&self) -> (text: String)
        ensures
            text@ == self@.text(),
    {
        let mut text = String::from_str(self.kind.as_str());
        text.append(": ");
        match &self.path {
            ResourcePath::Url { url } => {
                text.append(url.as_str());
            },
            ResourcePath::File { file, bundle } => {
                match bundle {
                    Some(b) => {
                        text.append(b.as_str());
                        text.append(" -> ");
                    },
                    None => {},
                }
                text.append(file.as_str());
            },
        }
        text
    }

    /// Tests whether two descriptors denote the same resource.
    pub fn same(&self, other: &Self) -> (b: bool)
        ensures
            b == (self@ == other@),
    {
        self.kind == other.kind && self.path.same(&other.path)
    }
}

} // verus!
