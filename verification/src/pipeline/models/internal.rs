//! Actions between the two stages of the streaming pipeline: the resources a
//! source action refers to are resolved, the rest is as it was.

use vstd::prelude::*;

use super::bestdori::{EffectDetail, LayoutSide, LayoutType, Motion};

verus! {

/// A fade of the scene.
#[derive(Debug, Clone, Copy, PartialEq, Eq, Structural)]
pub enum TransitionType {
    BlackIn,
    BlackOut,
    WhiteIn,
    WhiteOut,
}

impl TransitionType {
    /// Whether `effect` is a fade.
    pub open spec fn is_transition(effect: EffectDetail) -> bool {
        effect is BlackIn || effect is BlackOut || effect is WhiteIn || effect is WhiteOut
    }

    /// The fade that `effect` is.
    pub open spec fn of(effect: EffectDetail) -> TransitionType {
        match effect {
            EffectDetail::BlackIn => TransitionType::BlackIn,
            EffectDetail::BlackOut => TransitionType::BlackOut,
            EffectDetail::WhiteIn => TransitionType::WhiteIn,
            _ => TransitionType::WhiteOut,
        }
    }

    /// Tests whether `effect` is a fade.
    pub fn is_fade(effect: &EffectDetail) -> (b: bool)
        ensures
            b == Self::is_transition(*effect),
    {
        match effect {
            EffectDetail::BlackIn
            | EffectDetail::BlackOut
            | EffectDetail::WhiteIn
            | EffectDetail::WhiteOut => true,
            _ => false,
        }
    }

    /// The fade that `effect` is. Only for an effect that is a fade.
    pub fn unwrap_from(effect: EffectDetail) -> (transition: Self)
        requires
            Self::is_transition(effect),
        ensures
            transition == Self::of(effect),
    {
        match effect {
            EffectDetail::BlackIn => TransitionType::BlackIn,
            EffectDetail::BlackOut => TransitionType::BlackOut,
            EffectDetail::WhiteIn => TransitionType::WhiteIn,
            _ => TransitionType::WhiteOut,
        }
    }
}

/// What an action does, with its resources resolved to paths.
#[derive(Debug, Clone, PartialEq, Eq)]
pub enum ActionDetail {
    Say { name: String, text: String, characters: Vec<u8>, motions: Vec<Motion> },
    Bgm(String),
    Sound(String),
    Background(String),
    CardStill(String),
    Transition(TransitionType),
    Telop(String),
    Layout { model: String, motion: Motion, side: LayoutSide, kind: LayoutType },
    Motion { model: String, motion: Motion },
    Unknown,
}

/// A cleaned action.
#[derive(Debug, Clone, PartialEq, Eq)]
pub struct Action {
    pub wait: bool,
    pub detail: ActionDetail,
}

} // verus!
