//! A source script, as the streaming pipeline names its parts.

use vstd::prelude::*;

pub use crate::models::bestdori::{
    Action, EffectAction, LayoutAction, LayoutSide, LayoutSideType, LayoutType, Motion,
    MotionAction, SoundAction, Story, TalkAction,
};

verus! {

/// Where a resource of a script is found.
pub type Address = crate::models::bestdori::Resource;

/// Who owns a resource.
pub type AddressType = crate::models::bestdori::ResourceType;

/// The path of a resource: a plain URL, or a file of a bundle.
pub type AddressPath = crate::models::bestdori::ResourcePath;

/// A scene effect.
pub type EffectDetail = crate::models::bestdori::Effect;

} // verus!
