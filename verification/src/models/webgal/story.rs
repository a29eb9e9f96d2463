//! A target script: scenes, each a file of commands.

use std::path::PathBuf;
use vstd::prelude::*;
use vstd::string::*;

use super::action::{display_action_iter, script_text, Action};
use crate::traits::asset::{join_path, Asset};

verus! {

/// The file of the scene a project starts with.
pub const START_SCENE_PATH: &'static str = "start.txt";

/// A scene: a file of commands.
#[derive(Debug, PartialEq, Eq)]
pub struct Scene {
    pub path: String,
    pub actions: Vec<Action>,
}

impl Scene {
    /// The text of the scene file.
    pub open spec fn text(&self) -> Seq<char> {
        script_text(self.actions@)
    }

    /// An empty scene at `path`.
    pub fn new(path: &str) -> (scene: Self)
        ensures
            scene.path@ == path@,
            scene.actions@ == Seq::<Action>::empty(),
    {
        Scene { path: String::from_str(path), actions: Vec::new() }
    }

    /// The empty scene a project starts with.
    pub fn new_start_scene() -> (scene: Self)
        ensures
            scene.path@ == START_SCENE_PATH@,
            scene.actions@ == Seq::<Action>::empty(),
    {
        Scene::new(START_SCENE_PATH)
    }

    /// Writes the scene file: one statement per line.
    pub fn to_string(&self) -> (text: String)
        ensures
            text@ == self.text(),
    {
        display_action_iter(&self.actions)
    }
}

impl Asset for Scene {
    open spec fn script_path(&self) -> Seq<char> {
        "scene/"@ + self.path@
    }

    open spec fn project_path(&self) -> Seq<char> {
        "scene/"@ + self.path@
    }

    fn relative_path(&self) -> (path: String) {
        let mut path = String::from_str("scene/");
        path.append(self.path.as_str());
        path
    }

    fn rooted_path(&self) -> (path: String) {
        self.relative_path()
    }

    fn absolute_path(&self, root: &PathBuf) -> (path: PathBuf) {
        let tail = self.rooted_path();
        join_path(root, tail.as_str())
    }
}

/// A target script.
#[derive(Debug, PartialEq, Eq)]
pub struct Story(pub Vec<Scene>);

/// The number of commands in `scenes`, all together.
pub open spec fn action_count(scenes: Seq<Scene>) -> nat
    decreases scenes.len(),
{
    if scenes.len() == 0 {
        0
    } else {
        action_count(scenes.drop_last()) + scenes.last().actions@.len()
    }
}

/// `n`, or the largest number the machine counts to where `n` is larger.
pub open spec fn capped(n: nat) -> usize {
    if n <= usize::MAX {
        n as usize
    } else {
        usize::MAX
    }
}

impl Story {
    /// The number of scenes, and the number of commands in all of them. A
    /// number of commands beyond what the machine counts to is reported as the
    /// largest it counts to.
    pub fn len(&self) -> (n: (usize, usize))
        ensures
            n.0 == self.0@.len(),
            n.1 == capped(action_count(self.0@)),
    {
        let mut total: usize = 0;
        let mut i: usize = 0;
        assert(self.0@.take(0) =~= Seq::empty());
        while i < self.0.len()
            invariant
                i <= self.0@.len(),
                total == capped(action_count(self.0@.take(i as int))),
            decreases self.0@.len() - i,
        {
            let n = self.0[i].actions.len();
            total = if n <= usize::MAX - total {
                total + n
            } else {
                usize::MAX
            };
            i += 1;
            assert(self.0@.take(i as int).drop_last() =~= self.0@.take(i - 1));
        }
        assert(self.0@.take(self.0@.len() as int) =~= self.0@);
        (self.0.len(), total)
    }
}

} // verus!
