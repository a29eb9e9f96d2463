//! Data as the target engine represents it.

pub mod action;
pub mod live2d;
pub mod resource;
pub mod story;

pub use action::{
    animation_text, bgm_text, call_scene_text, change_bg_text, change_figure_text, choose_text,
    display_action_iter, play_effect_text, say_text, script_text, set_effect_text, textbox_text, Action, ActionCustom, Actionable, BgmAction, CallSceneAction,
    ChangeBgAction, ChangeFigureAction, ChooseAction, FigureSide, PlayEffectAction, Position,
    SayAction, SetAnimation, SetEffectAction, SetTextboxAction, Transform,
};
pub use live2d::{
    default_model_config_path, Expression, ExpressionView, Layout, Model, ModelView, Motion,
    WEBGAL_LIVE2D_CONFIG, WEBGAL_LIVE2D_EXPRESSIONS, WEBGAL_LIVE2D_MODEL, WEBGAL_LIVE2D_MOTIONS,
    WEBGAL_LIVE2D_PHYSICS, WEBGAL_LIVE2D_TEXTURES, WEBGAL_LIVE2D_VERSION,
};
pub use resource::{Resource, ResourceType, ResourceView};
pub use story::{Scene, Story, START_SCENE_PATH};
