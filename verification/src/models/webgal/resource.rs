//! Canonical resources: what is fetched, and where it lands.

use std::path::PathBuf;
use vstd::prelude::*;
use vstd::string::*;

use super::live2d::{default_model_config_path, model_config_path};
use crate::traits::asset::{join_path, Asset};

verus! {

/// The part of the asset namespace a resource belongs to.
#[derive(Debug, Clone, Copy, PartialEq, Eq, Hash, Structural)]
pub enum ResourceType {
    Background,
    Bgm,
    Vocal,
    Figure,
}

impl ResourceType {
    /// The name of the kind, which is also the name of its directory.
    pub open spec fn name(self) -> Seq<char> {
        match self {
            ResourceType::Background => "background"@,
            ResourceType::Bgm => "bgm"@,
            ResourceType::Vocal => "vocal"@,
            ResourceType::Figure => "figure"@,
        }
    }

    /// The name of the kind, which is also the name of its directory.
    pub fn as_str(&self) -> (name: &'static str)
        ensures
            name@ == self.name(),
    {
        match self {
            ResourceType::Background => "background",
            ResourceType::Bgm => "bgm",
            ResourceType::Vocal => "vocal",
            ResourceType::Figure => "figure",
        }
    }

    /// The name of the kind as an owned string.
    pub fn to_string(&self) -> (name: String)
        ensures
            name@ == self.name(),
    {
        String::from_str(self.as_str())
    }
}

/// A canonical resource: the result of resolving a descriptor, and what the
/// downloader takes.
#[derive(Debug, PartialEq, Eq, Hash)]
pub struct Resource {
    pub kind: ResourceType,
    pub url: String,
    pub path: String,
}

/// The mathematical value of a [`Resource`].
pub struct ResourceView {
    pub kind: ResourceType,
    pub url: Seq<char>,
    pub path: Seq<char>,
}

impl ResourceView {
    /// The path by which a script refers to the resource: a figure is referred
    /// to by its configuration file, anything else by its own path.
    pub open spec fn relative_path(self) -> Seq<char> {
        match self.kind {
            ResourceType::Figure => model_config_path(self.path),
            _ => self.path,
        }
    }

    /// The path of the resource below the project root: the directory of its
    /// kind, then its own path.
    pub open spec fn rooted_path(self) -> Seq<char> {
        self.kind.name() + "/"@ + self.path
    }
}

impl View for Resource {
    type V = ResourceView;

    open spec fn view(&self) -> ResourceView {
        ResourceView { kind: self.kind, url: self.url@, path: self.path@ }
    }
}

impl Clone for Resource {
    fn clone(&self) -> (r: Self)
        ensures
            r@ == self@,
    {
        Resource { kind: self.kind, url: self.url.clone(), path: self.path.clone() }
    }
}

impl Asset for Resource {
    open spec fn script_path(&self) -> Seq<char> {
        self@.relative_path()
    }

    open spec fn project_path(&self) -> Seq<char> {
        self@.rooted_path()
    }

    fn relative_path(&self) -> (path: String) {
        match self.kind {
            ResourceType::Figure => default_model_config_path(self.path.as_str()),
            _ => self.path.clone(),
        }
    }

    fn rooted_path(&self) -> (path: String) {
        let mut path = self.kind.to_string();
        path.append("/");
        path.append(self.path.as_str());
        path
    }

    fn absolute_path(&self, root: &PathBuf) -> (path: PathBuf) {
        let tail = self.rooted_path();
        join_path(root, tail.as_str())
    }
}

} // verus!
