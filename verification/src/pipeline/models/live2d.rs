//! The manifest of a character model and the configuration that is written
//! for it, as the streaming pipeline holds them.

use vstd::prelude::*;
use vstd::string::*;

use crate::pipeline::constant::WEBGAL_LIVE2D_VERSION;
use crate::utils::{maybe_strip_suffix, strip_suffix};

pub use crate::models::webgal::live2d::{Expression, ExpressionView, Layout, Motion};

verus! {

/// A file of a model, named by its bundle and its file name.
#[derive(Debug, PartialEq, Eq)]
pub struct Bundle {
    pub bundle: String,
    pub file: String,
}

impl Clone for Bundle {
    fn clone(&self) -> (r: Self)
        ensures
            r.bundle@ == self.bundle@,
            r.file@ == self.file@,
    {
        Bundle { bundle: self.bundle.clone(), file: self.file.clone() }
    }
}

/// The manifest of a character model.
#[derive(Debug, PartialEq, Eq)]
pub struct ModelBundle {
    pub model: Bundle,
    pub physics: Bundle,
    pub textures: Vec<Bundle>,
}

impl ModelBundle {
    /// The manifest of the parts that a manifest file names. The mesh is
    /// served with `.bytes` behind its name, which is left off.
    pub fn from_parts(model: Bundle, physics: Bundle, textures: Vec<Bundle>) -> (bundle: Self)
        ensures
            bundle.model.bundle@ == model.bundle@,
            bundle.model.file@ == strip_suffix(model.file@, ".bytes"@),
            bundle.physics == physics,
            bundle.textures == textures,
    {
        let file = String::from_str(maybe_strip_suffix(model.file.as_str(), ".bytes"));
        ModelBundle { model: Bundle { bundle: model.bundle, file }, physics, textures }
    }
}

/// The files of a model, as its configuration names them.
#[derive(Debug, PartialEq, Eq)]
pub struct Model {
    pub model: String,
    pub physics: String,
    pub textures: Vec<String>,
}

/// The configuration of a character model.
#[derive(Debug, PartialEq, Eq)]
pub struct ModelConfig {
    pub version: String,
    pub layout: Layout,
    pub model: Model,
    pub motions: Vec<(String, Vec<Motion>)>,
    pub expressions: Vec<Expression>,
}

impl ModelConfig {
    /// The configuration of `model` with the motions and expressions of its
    /// character.
    pub fn new(
        model: Model,
        motions: Vec<(String, Vec<Motion>)>,
        expressions: Vec<Expression>,
    ) -> (config: Self)
        ensures
            config.version@ == WEBGAL_LIVE2D_VERSION@,
            config.layout == (Layout { x: 0, y: 0, width: 2 }),
            config.model == model,
            config.motions == motions,
            config.expressions == expressions,
    {
        ModelConfig {
            version: String::from_str(WEBGAL_LIVE2D_VERSION),
            layout: Layout::default(),
            model,
            motions,
            expressions,
        }
    }
}

} // verus!
