//! Data as the source platform represents it.

pub mod action;
pub mod live2d;
pub mod resource;
pub mod story;

pub use action::{
    Action, Effect, EffectAction, LayoutAction, LayoutSide, LayoutSideType, LayoutType, Motion,
    MotionAction, SoundAction, TalkAction,
};
pub use live2d::{Live2dPath, Live2dPathView, Model, ModelView};
pub use resource::{
    Resource, ResourcePath, ResourcePathView, ResourceType, ResourceView, BESTDORI_ASSET_URL_BGM,
    BESTDORI_ASSET_URL_MODEL, BESTDORI_ASSET_URL_MODEL_BUILDER, BESTDORI_ASSET_URL_ROOT,
    BESTDORI_ASSET_URL_SE,
};
pub use story::Story;
