//! Translation of a source script into a target script.

use std::sync::Arc;
use vstd::prelude::*;

use crate::error::ConvertError;
use crate::models::bestdori;
use crate::models::webgal::{self, Resource};

verus! {

/// What a translation gives: the target script, every resource that has to
/// be fetched for it, and every action that could not be translated.
#[derive(Debug)]
pub struct TranspileResult {
    pub story: webgal::Story,
    pub resources: Vec<Arc<Resource>>,
    pub errors: Vec<ConvertError>,
}

/// A translator of scripts. A translation never fails as a whole: an action
/// that cannot be translated is left out and reported.
pub trait Transpile {
    /// Whether the translator is in a state to translate: one that was made
    /// by its constructor and has only been used through its methods is.
    spec fn ready(&self) -> bool;

    /// Whether `result` is what this translator makes of `story`: its
    /// target script, its resources and its failures.
    spec fn translates(&self, story: bestdori::Story, result: TranspileResult) -> bool;

    /// Translates `story`.
    fn transpile(self, story: &bestdori::Story) -> (result: TranspileResult)
        requires
            self.ready(),
        ensures
            self.translates(*story, result),
    ;
}

} // verus!
