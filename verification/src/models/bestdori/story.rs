//! A source script: its actions in order.

use vstd::prelude::*;

use super::action::{Action, Effect, EffectAction, SoundAction};
use super::resource::Resource;

verus! {

/// A source script.
#[derive(Debug, PartialEq, Eq)]
pub struct Story(pub Vec<Action>);

impl Story {
    /// Whether the action behind position `i` waits. The last action has none
    /// behind it.
    pub open spec fn next_waits(&self, i: int) -> bool {
        i + 1 < self.0@.len() && self.0@[i + 1].waits()
    }

    /// The script of a parsed file: the music and the background that the
    /// file declares for the whole script come first, as actions of their own
    /// that do not wait, and then the actions of the file.
    pub fn new(bgm: Option<Resource>, background: Option<Resource>, actions: Vec<Action>) -> (story:
        Self)
        ensures
            story.0@.len() == (if bgm is Some {
                1int
            } else {
                0
            }) + (if background is Some {
                1int
            } else {
                0
            }) + actions@.len(),
            bgm matches Some(res) ==> story.0@[0] == Action::Sound(
                SoundAction { wait: false, bgm: Some(res), se: None },
            ),
            background matches Some(res) ==> story.0@[if bgm is Some {
                1int
            } else {
                0
            }] == Action::Effect(
                EffectAction { wait: false, effect: Effect::ChangeBackground { image: res } },
            ),
            story.0@.skip(story.0@.len() - actions@.len()) == actions@,
    {
        let mut story: Vec<Action> = Vec::new();
        if let Some(res) = bgm {
            story.push(Action::Sound(SoundAction { wait: false, bgm: Some(res), se: None }));
        }
        if let Some(res) = background {
            story.push(
                Action::Effect(
                    EffectAction { wait: false, effect: Effect::ChangeBackground { image: res } },
                ),
            );
        }
        let ghost head = story@;
        let ghost tail = actions@;
        let mut actions = actions;
        story.append(&mut actions);
        assert(story@.skip(head.len() as int) =~= tail) by {
            assert(story@ == head + tail);
        }
        Story(story)
    }

    /// The number of actions.
    pub fn len(&self) -> (n: usize)
        ensures
            n == self.0@.len(),
    {
        self.0.len()
    }

    /// Every action with the wait of the action behind it.
    pub fn iter_with_wait(&self) -> (pairs: Vec<(&Action, bool)>)
        ensures
            pairs@.len() == self.0@.len(),
            forall|i: int|
                0 <= i < pairs@.len() ==> *(#[trigger] pairs@[i]).0 == self.0@[i] && pairs@[i].1
                    == self.next_waits(i),
    {
        let mut pairs: Vec<(&Action, bool)> = Vec::new();
        let mut i: usize = 0;
        while i < self.0.len()
            invariant
                i <= self.0@.len(),
                pairs@.len() == i,
                forall|j: int|
                    0 <= j < i ==> *(#[trigger] pairs@[j]).0 == self.0@[j] && pairs@[j].1
                        == self.next_waits(j),
            decreases self.0@.len() - i,
        {
            let wait = if i + 1 < self.0.len() {
                self.0[i + 1].is_wait()
            } else {
                false
            };
            pairs.push((&self.0[i], wait));
            i += 1;
        }
        pairs
    }
}

} // verus!
