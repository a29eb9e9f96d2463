//! What the stages of the streaming pipeline hand to each other.

use std::rc::Rc;
use vstd::prelude::*;
use vstd::string::*;

use crate::pipeline::models::live2d;

verus! {

/// The directory of a kind of file, below the project root.
#[derive(Debug, Clone, Copy, PartialEq, Eq, Structural)]
pub enum Root {
    Background,
    Bgm,
    Vocal,
    Figure,
    Scene,
}

impl Root {
    /// The name of the directory.
    pub open spec fn name(self) -> Seq<char> {
        match self {
            Root::Background => "background"@,
            Root::Bgm => "bgm"@,
            Root::Vocal => "vocal"@,
            Root::Figure => "figure"@,
            Root::Scene => "scene"@,
        }
    }

    /// The name of the directory.
    pub fn as_str(&self) -> (name: &'static str)
        ensures
            name@ == self.name(),
    {
        match self {
            Root::Background => "background",
            Root::Bgm => "bgm",
            Root::Vocal => "vocal",
            Root::Figure => "figure",
            Root::Scene => "scene",
        }
    }

    /// The name of the directory as an owned string.
    pub fn to_string(&self) -> (name: String)
        ensures
            name@ == self.name(),
    {
        String::from_str(self.as_str())
    }
}

/// The path of a file below the project root: its directory, then its own
/// path.
pub open spec fn full_path(root: Root, path: Seq<char>) -> Seq<char> {
    root.name() + "/"@ + path
}

fn join(root: Root, path: &str) -> (full: String)
    ensures
        full@ == full_path(root, path@),
{
    let mut full = root.to_string();
    full.append("/");
    full.append(path);
    full
}

/// A resource: where it is fetched from, if that is known, and where it
/// lands.
#[derive(Debug, PartialEq, Eq)]
pub struct Resource {
    pub root: Root,
    pub url: Option<String>,
    pub path: String,
}

/// The mathematical value of a [`Resource`].
pub struct ResourceView {
    pub root: Root,
    pub url: Option<Seq<char>>,
    pub path: Seq<char>,
}

impl View for Resource {
    type V = ResourceView;

    open spec fn view(&self) -> ResourceView {
        ResourceView {
            root: self.root,
            url: match self.url {
                Some(u) => Some(u@),
                None => None,
            },
            path: self.path@,
        }
    }
}

impl Resource {
    /// The path of the resource below the project root.
    pub fn get_full_path(&self) -> (path: String)
        ensures
            path@ == full_path(self.root, self.path@),
    {
        join(self.root, self.path.as_str())
    }
}

/// The configuration of a character model, and where it is written.
#[derive(Debug, PartialEq, Eq)]
pub struct ModelConfig {
    pub root: Root,
    pub path: String,
    pub data: live2d::ModelConfig,
}

impl ModelConfig {
    /// The path of the configuration below the project root.
    pub fn get_full_path(&self) -> (path: String)
        ensures
            path@ == full_path(self.root, self.path@),
    {
        join(self.root, self.path.as_str())
    }
}

/// The manifest of a model that is being fetched: the model it belongs to.
/// What the manifest names is known once its bytes are there.
#[derive(Debug, PartialEq, Eq)]
pub struct BindTicket {
    pub character: u8,
    pub model: String,
}

/// Something to fetch.
#[derive(Debug)]
pub enum ResourceTask {
    /// A resource: fetch it and write it.
    Task(Rc<Resource>),
    /// A manifest: fetch it, and hand its bytes to the resolver with `task`
    /// to learn what else is to be fetched.
    Bind { url: String, task: BindTicket },
}

} // verus!
