//! The actions of a source script.

use vstd::prelude::*;

use super::resource::Resource;

verus! {

/// What a figure does: a motion and an expression of one character.
#[derive(Debug, PartialEq, Eq)]
pub struct Motion {
    pub character: u8,
    pub motion: String,
    pub expression: String,
}

impl Clone for Motion {
    fn clone(&self) -> (r: Self)
        ensures
            r.character == self.character,
            r.motion@ == self.motion@,
            r.expression@ == self.expression@,
    {
        Motion {
            character: self.character,
            motion: self.motion.clone(),
            expression: self.expression.clone(),
        }
    }
}

/// A line of dialogue, with what the figures do while it is spoken.
#[derive(Debug, Clone, PartialEq, Eq)]
pub struct TalkAction {
    pub wait: bool,
    pub name: String,
    pub text: String,
    pub motions: Vec<Motion>,
    pub characters: Vec<u8>,
}

/// A change of the background music, a sound effect, or both.
#[derive(Debug, Clone, PartialEq, Eq)]
pub struct SoundAction {
    pub wait: bool,
    pub bgm: Option<Resource>,
    pub se: Option<Resource>,
}

/// A scene effect.
#[derive(Debug, Clone, PartialEq, Eq)]
pub enum Effect {
    ChangeBackground { image: Resource },
    ChangeCardStill { image: Resource },
    Telop { text: String },
    BlackIn,
    BlackOut,
    WhiteIn,
    WhiteOut,
}

/// A scene effect, as an action.
#[derive(Debug, Clone, PartialEq, Eq)]
pub struct EffectAction {
    pub wait: bool,
    pub effect: Effect,
}

/// What happens to a figure on the stage.
#[derive(Debug, Clone, Copy, PartialEq, Eq, Structural)]
pub enum LayoutType {
    Appear,
    Hide,
    Move,
}

/// A place for a figure on the stage.
#[derive(Debug, Clone, Copy, PartialEq, Eq, Structural)]
pub enum LayoutSideType {
    LeftInside,
    LeftOver,
    Center,
    RightInside,
    RightOver,
}

/// From where to where a figure goes.
#[derive(Debug, Clone, Copy, PartialEq, Eq, Structural)]
pub struct LayoutSide {
    pub from: LayoutSideType,
    pub to: LayoutSideType,
    pub from_x: i16,
    pub to_x: i16,
}

/// A figure comes, goes or moves.
#[derive(Debug, Clone, PartialEq, Eq)]
pub struct LayoutAction {
    pub wait: bool,
    pub kind: LayoutType,
    pub model: String,
    pub motion: Motion,
    pub side: LayoutSide,
}

/// A figure changes its motion and expression.
#[derive(Debug, Clone, PartialEq, Eq)]
pub struct MotionAction {
    pub wait: bool,
    pub model: String,
    pub motion: Motion,
}

/// An action of a source script.
#[derive(Debug, Clone, PartialEq, Eq)]
pub enum Action {
    Talk(TalkAction),
    Sound(SoundAction),
    Effect(EffectAction),
    Layout(LayoutAction),
    Motion(MotionAction),
    Unknown,
}

impl Action {
    /// Whether the script waits before this action. An unknown action never
    /// waits.
    pub open spec fn waits(&self) -> bool {
        match self {
            Action::Talk(a) => a.wait,
            Action::Sound(a) => a.wait,
            Action::Effect(a) => a.wait,
            Action::Layout(a) => a.wait,
            Action::Motion(a) => a.wait,
            Action::Unknown => false,
        }
    }

    /// Tests whether the script waits before this action.
    pub fn is_wait(&self) -> (wait: bool)
        ensures
            wait == self.waits(),
    {
        match self {
            Action::Talk(a) => a.wait,
            Action::Sound(a) => a.wait,
            Action::Effect(a) => a.wait,
            Action::Layout(a) => a.wait,
            Action::Motion(a) => a.wait,
            Action::Unknown => false,
        }
    }
}

} // verus!
