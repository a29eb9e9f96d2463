//! The transpile pipeline: what is counted and what is written once a script
//! has been translated.

use vstd::prelude::*;

use crate::models::webgal::{Scene, Story};
use crate::traits::asset::Asset;
use crate::traits::pipeline::TranspileState;

verus! {

/// The snapshot of a finished translation: the scenes and the commands it has
/// produced.
pub fn state_of(story: &Story) -> (state: TranspileState)
    ensures
        state.scene == story.0@.len(),
        state.action == crate::models::webgal::story::capped(
            crate::models::webgal::story::action_count(story.0@),
        ),
{
    let (scene, action) = story.len();
    TranspileState { scene, action }
}

/// A scene file to write: its path below the project root, and its text.
pub open spec fn file_of(scene: Scene) -> (Seq<char>, Seq<char>) {
    (scene.project_path(), scene.text())
}

/// The scene files of a target script, in the order of the scenes.
pub fn scene_files(story: &Story) -> (files: Vec<(String, String)>)
    ensures
        files@.len() == story.0@.len(),
        forall|i: int|
            0 <= i < files@.len() ==> ((#[trigger] files@[i]).0@, files@[i].1@) == file_of(
                story.0@[i],
            ),
{
    let mut files: Vec<(String, String)> = Vec::new();
    let mut i: usize = 0;
    while i < story.0.len()
        invariant
            i <= story.0@.len(),
            files@.len() == i,
            forall|j: int|
                0 <= j < i ==> ((#[trigger] files@[j]).0@, files@[j].1@) == file_of(story.0@[j]),
        decreases story.0@.len() - i,
    {
        files.push((story.0[i].rooted_path(), story.0[i].to_string()));
        i += 1;
    }
    files
}

} // verus!
