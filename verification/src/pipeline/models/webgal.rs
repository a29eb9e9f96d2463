//! The commands of a target script as the streaming pipeline writes them: one
//! command per line, without a terminator.

use vstd::prelude::*;

use crate::models::webgal::action::{
    animation_body, bgm_body, call_scene_body, change_bg_body, change_figure_body, choose_body,
    play_effect_body, say_body, set_effect_body, text_of, textbox_body,
};
use crate::models::webgal::action as terminated;
use crate::models::webgal::Actionable as Statement;

pub use crate::models::webgal::{FigureSide, Position, Transform};

verus! {

/// A command of a target script: something that is written as one line.
pub trait Actionable {
    /// The line, as it stands in a scene file.
    spec fn line(&self) -> Seq<char>;

    /// Writes the command as a line.
    fn to_string(&self) -> (text: String)
        ensures
            text@ == self.line(),
    ;
}

/// A copy of a string that may be missing.
fn copy(value: &Option<String>) -> (r: Option<String>)
    ensures
        text_of(r) == text_of(*value),
{
    match value {
        Some(v) => Some(v.clone()),
        None => None,
    }
}

/// Goes on with another scene.
#[derive(Debug, Clone, PartialEq, Eq)]
pub struct CallSceneAction {
    pub file: String,
}

impl Actionable for CallSceneAction {
    open spec fn line(&self) -> Seq<char> {
        call_scene_body(self.file@)
    }

    fn to_string(&self) -> (text: String) {
        (terminated::CallSceneAction { file: self.file.clone() }).to_body()
    }
}

/// Offers a choice that leads to another scene.
#[derive(Debug, Clone, PartialEq, Eq)]
pub struct ChooseAction {
    pub file: String,
    pub text: String,
}

impl Actionable for ChooseAction {
    open spec fn line(&self) -> Seq<char> {
        choose_body(self.file@, self.text@)
    }

    fn to_string(&self) -> (text: String) {
        (terminated::ChooseAction { file: self.file.clone(), text: self.text.clone() }).to_body()
    }
}

/// A line of dialogue.
#[derive(Debug, Clone, PartialEq, Eq)]
pub struct SayAction {
    pub name: String,
    pub text: String,
    pub next: bool,
    pub character: Option<u8>,
}

impl Actionable for SayAction {
    open spec fn line(&self) -> Seq<char> {
        say_body(self.name@, self.text@, self.next, self.character)
    }

    fn to_string(&self) -> (text: String) {
        (terminated::SayAction {
            name: self.name.clone(),
            text: self.text.clone(),
            next: self.next,
            character: self.character,
        }).to_body()
    }
}

/// Shows or hides the text box.
#[derive(Debug, Clone, PartialEq, Eq)]
pub struct SetTextboxAction {
    pub visible: bool,
}

impl Actionable for SetTextboxAction {
    open spec fn line(&self) -> Seq<char> {
        textbox_body(self.visible)
    }

    fn to_string(&self) -> (text: String) {
        (terminated::SetTextboxAction { visible: self.visible }).to_body()
    }
}

/// Shows, changes or hides a figure.
#[derive(Debug, Clone, PartialEq, Eq)]
pub struct ChangeFigureAction {
    pub model: Option<String>,
    pub id: u8,
    pub next: bool,
    pub side: FigureSide,
    pub transform: Option<Transform>,
    pub motion: Option<String>,
    pub expression: Option<String>,
}

impl ChangeFigureAction {
    /// The command that hides the figure `id`.
    pub fn new_hide(id: u8, next: bool) -> (action: Self)
        ensures
            action.model is None,
            action.id == id,
            action.next == next,
            action.side == FigureSide::Center,
            action.transform is None,
            action.motion is None,
            action.expression is None,
    {
        ChangeFigureAction {
            model: None,
            id,
            next,
            side: FigureSide::Center,
            transform: None,
            motion: None,
            expression: None,
        }
    }
}

impl Actionable for ChangeFigureAction {
    open spec fn line(&self) -> Seq<char> {
        change_figure_body(
            text_of(self.model),
            self.id,
            self.next,
            self.side,
            self.transform,
            text_of(self.motion),
            text_of(self.expression),
        )
    }

    fn to_string(&self) -> (text: String) {
        (terminated::ChangeFigureAction {
            model: copy(&self.model),
            id: self.id,
            next: self.next,
            side: self.side,
            transform: self.transform,
            motion: copy(&self.motion),
            expression: copy(&self.expression),
        }).to_body()
    }
}

/// Moves a figure or the scene.
#[derive(Debug, Clone, PartialEq, Eq)]
pub struct SetEffectAction {
    pub transform: Transform,
    pub target: u8,
    pub next: bool,
}

impl Actionable for SetEffectAction {
    open spec fn line(&self) -> Seq<char> {
        set_effect_body(self.transform, self.target, self.next)
    }

    fn to_string(&self) -> (text: String) {
        (terminated::SetEffectAction {
            transform: self.transform,
            target: self.target,
            next: self.next,
        }).to_body()
    }
}

/// Changes the background.
#[derive(Debug, Clone, PartialEq, Eq)]
pub struct ChangeBgAction {
    pub image: Option<String>,
    pub next: bool,
}

impl Actionable for ChangeBgAction {
    open spec fn line(&self) -> Seq<char> {
        change_bg_body(text_of(self.image), self.next)
    }

    fn to_string(&self) -> (text: String) {
        (terminated::ChangeBgAction { image: copy(&self.image), next: self.next }).to_body()
    }
}

/// Changes the background music.
#[derive(Debug, Clone, PartialEq, Eq)]
pub struct BgmAction {
    pub sound: Option<String>,
}

impl Actionable for BgmAction {
    open spec fn line(&self) -> Seq<char> {
        bgm_body(text_of(self.sound))
    }

    fn to_string(&self) -> (text: String) {
        (terminated::BgmAction { sound: copy(&self.sound) }).to_body()
    }
}

/// Plays a sound effect.
#[derive(Debug, Clone, PartialEq, Eq)]
pub struct PlayEffectAction {
    pub sound: Option<String>,
}

impl Actionable for PlayEffectAction {
    open spec fn line(&self) -> Seq<char> {
        play_effect_body(text_of(self.sound))
    }

    fn to_string(&self) -> (text: String) {
        (terminated::PlayEffectAction { sound: copy(&self.sound) }).to_body()
    }
}

/// Starts an animation on a target.
#[derive(Debug, Clone, PartialEq, Eq)]
pub struct SetAnimation {
    pub animation: String,
    pub target: String,
    pub next: bool,
}

impl Actionable for SetAnimation {
    open spec fn line(&self) -> Seq<char> {
        animation_body(self.animation@, self.target@, self.next)
    }

    fn to_string(&self) -> (text: String) {
        (terminated::SetAnimation {
            animation: self.animation.clone(),
            target: self.target.clone(),
            next: self.next,
        }).to_body()
    }
}

/// Any command of a target script.
#[derive(Debug, Clone, PartialEq, Eq)]
pub enum Action {
    CallScene(CallSceneAction),
    Choose(ChooseAction),
    Say(SayAction),
    SetTextbox(SetTextboxAction),
    ChangeFigure(ChangeFigureAction),
    SetEffect(SetEffectAction),
    ChangeBg(ChangeBgAction),
    Bgm(BgmAction),
    PlayEffect(PlayEffectAction),
    SetAnimation(SetAnimation),
}

impl Actionable for Action {
    open spec fn line(&self) -> Seq<char> {
        match self {
            Action::CallScene(a) => a.line(),
            Action::Choose(a) => a.line(),
            Action::Say(a) => a.line(),
            Action::SetTextbox(a) => a.line(),
            Action::ChangeFigure(a) => a.line(),
            Action::SetEffect(a) => a.line(),
            Action::ChangeBg(a) => a.line(),
            Action::Bgm(a) => a.line(),
            Action::PlayEffect(a) => a.line(),
            Action::SetAnimation(a) => a.line(),
        }
    }

    fn to_string(&self) -> (text: String) {
        match self {
            Action::CallScene(a) => a.to_string(),
            Action::Choose(a) => a.to_string(),
            Action::Say(a) => a.to_string(),
            Action::SetTextbox(a) => a.to_string(),
            Action::ChangeFigure(a) => a.to_string(),
            Action::SetEffect(a) => a.to_string(),
            Action::ChangeBg(a) => a.to_string(),
            Action::Bgm(a) => a.to_string(),
            Action::PlayEffect(a) => a.to_string(),
            Action::SetAnimation(a) => a.to_string(),
        }
    }
}

} // verus!
