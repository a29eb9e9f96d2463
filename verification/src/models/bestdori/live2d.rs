//! The manifest that the source platform publishes for a character model.

use vstd::prelude::*;
use vstd::string::*;

use super::resource::BESTDORI_ASSET_URL_ROOT;

verus! {

/// A file of a model, named by its bundle and its file name.
#[derive(Debug, PartialEq, Eq, Hash)]
pub struct Live2dPath {
    pub file: String,
    pub bundle: String,
}

/// The mathematical value of a [`Live2dPath`].
pub struct Live2dPathView {
    pub file: Seq<char>,
    pub bundle: Seq<char>,
}

impl View for Live2dPath {
    type V = Live2dPathView;

    open spec fn view(&self) -> Live2dPathView {
        Live2dPathView { file: self.file@, bundle: self.bundle@ }
    }
}

impl Live2dPathView {
    /// The bundle directory and the file name, joined.
    pub open spec fn path(self) -> Seq<char> {
        self.bundle + "_rip/"@ + self.file
    }

    /// The address the file is served from.
    pub open spec fn url(self) -> Seq<char> {
        BESTDORI_ASSET_URL_ROOT@ + self.path()
    }
}

impl Clone for Live2dPath {
    fn clone(&self) -> (r: Self)
        ensures
            r@ == self@,
    {
        Live2dPath { file: self.file.clone(), bundle: self.bundle.clone() }
    }
}

impl Live2dPath {
    /// Joins the bundle directory and the file name.
    pub fn path(&self) -> (r: String)
        ensures
            r@ == self@.path(),
    {
        let mut r = self.bundle.clone();
        r.append("_rip/");
        r.append(self.file.as_str());
        r
    }

    /// The address the file is served from.
    pub fn url(&self) -> (r: String)
        ensures
            r@ == self@.url(),
    {
        let mut r = String::from_str(BESTDORI_ASSET_URL_ROOT);
        let path = self.path();
        r.append(path.as_str());
        assert(r@ == self@.url());
        r
    }
}

/// The manifest of a character model.
#[derive(Debug)]
pub struct Model {
    pub model: Live2dPath,
    pub physics: Live2dPath,
    pub textures: Vec<Live2dPath>,
    pub motions: Vec<Live2dPath>,
    pub expessions: Vec<Live2dPath>,
}

/// The mathematical value of a [`Model`].
pub struct ModelView {
    pub model: Live2dPathView,
    pub physics: Live2dPathView,
    pub textures: Seq<Live2dPathView>,
    pub motions: Seq<Live2dPathView>,
    pub expessions: Seq<Live2dPathView>,
}

impl View for Model {
    type V = ModelView;

    open spec fn view(&self) -> ModelView {
        ModelView {
            model: self.model@,
            physics: self.physics@,
            textures: self.textures@.map_values(|p: Live2dPath| p@),
            motions: self.motions@.map_values(|p: Live2dPath| p@),
            expessions: self.expessions@.map_values(|p: Live2dPath| p@),
        }
    }
}

} // verus!
