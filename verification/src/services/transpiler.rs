//! The translator: source actions in, target commands and resources out.
//!
//! What the translator has produced is modelled by the text of the scenes it
//! has written so far, the figures it knows to be on the stage, and the
//! resources it has scheduled for fetching.

use std::sync::Arc;
use vstd::prelude::*;
use vstd::string::*;

use crate::error::{ConvertError, TranspileError, TranspileErrorKind};
use crate::models::bestdori;
use crate::models::webgal::{
    self, animation_text, bgm_text, change_bg_text, change_figure_text, choose_text,
    play_effect_text, say_text, script_text, Action, Actionable, BgmAction, ChangeBgAction,
    ChangeFigureAction, ChooseAction, FigureSide, PlayEffectAction, Resource, SayAction, Scene,
    SetAnimation, Transform,
};
use crate::models::webgal::action::text_of;
use crate::text::{decimal, push_decimal};
use crate::traits::asset::Asset;
use crate::traits::resolve::{
    check_and_insert, Cache, CacheKey, Lookup, Resolve, ResourceEntry, ResourceType,
};
use crate::traits::transpile::{Transpile, TranspileResult};

verus! {

/// A figure on the stage, as the translator remembers it.
#[derive(Debug)]
pub struct Model {
    pub id: u8,
    pub path: String,
    pub side: FigureSide,
    pub transform: Transform,
    pub motion: Option<String>,
    pub expression: Option<String>,
}

/// The mathematical value of a [`Model`].
pub struct FigureView {
    pub id: u8,
    pub path: Seq<char>,
    pub side: FigureSide,
    pub transform: Transform,
    pub motion: Option<Seq<char>>,
    pub expression: Option<Seq<char>>,
}

impl View for Model {
    type V = FigureView;

    open spec fn view(&self) -> FigureView {
        FigureView {
            id: self.id,
            path: self.path@,
            side: self.side,
            transform: self.transform,
            motion: text_of(self.motion),
            expression: text_of(self.expression),
        }
    }
}

impl Clone for Model {
    fn clone(&self) -> (r: Self)
        ensures
            r@ == self@,
    {
        Model {
            id: self.id,
            path: self.path.clone(),
            side: self.side,
            transform: self.transform,
            motion: match &self.motion {
                Some(m) => Some(m.clone()),
                None => None,
            },
            expression: match &self.expression {
                Some(e) => Some(e.clone()),
                None => None,
            },
        }
    }
}

/// What is on the stage: the background, and the figures in the order in
/// which they came.
#[derive(Debug)]
pub struct Context {
    pub background: Option<String>,
    pub models: Vec<Model>,
}

/// The mathematical value of a [`Context`].
pub struct ContextView {
    pub background: Option<Seq<char>>,
    pub figures: Seq<FigureView>,
}

impl View for Context {
    type V = ContextView;

    open spec fn view(&self) -> ContextView {
        ContextView {
            background: text_of(self.background),
            figures: self.models@.map_values(|m: Model| m@),
        }
    }
}

impl ContextView {
    /// The empty stage.
    pub open spec fn empty() -> ContextView {
        ContextView { background: None, figures: Seq::empty() }
    }

    /// Whether the figure `id` is on the stage.
    pub open spec fn has(self, id: u8) -> bool {
        exists|i: int| 0 <= i < self.figures.len() && #[trigger] self.figures[i].id == id
    }

    /// The place of the figure `id` among the figures.
    pub open spec fn place(self, id: u8) -> int {
        choose|i: int| 0 <= i < self.figures.len() && #[trigger] self.figures[i].id == id
    }

    /// No two figures on the stage have the same number.
    pub open spec fn distinct(self) -> bool {
        forall|i: int, j: int|
            0 <= i < self.figures.len() && 0 <= j < self.figures.len() && i != j
                ==> #[trigger] self.figures[i].id != #[trigger] self.figures[j].id
    }
}

/// A scene as it is written: its file and its text.
pub struct ScriptView {
    pub path: Seq<char>,
    pub text: Seq<char>,
}

/// What a translator has produced so far.
pub struct TranspilerView {
    /// What the resolver has handed out.
    pub cache: Cache,
    /// The scenes, in the order of their making. The last is the one that is
    /// written to.
    pub scripts: Seq<ScriptView>,
    /// What is on the stage.
    pub context: ContextView,
    /// The resources that have to be fetched, in the order of their first
    /// use.
    pub scheduled: Seq<webgal::ResourceView>,
    /// The cache key of each scheduled resource.
    pub keys: Seq<CacheKey>,
}

impl TranspilerView {
    /// The same, with `text` written to the end of the current scene.
    pub open spec fn write(self, text: Seq<char>) -> TranspilerView {
        let last = self.scripts.len() - 1;
        TranspilerView {
            scripts: self.scripts.update(
                last,
                ScriptView { path: self.scripts[last].path, text: self.scripts[last].text + text },
            ),
            ..self
        }
    }

    /// The same, with the statement `line` as a new line of the current scene.
    pub open spec fn emit(self, line: Seq<char>) -> TranspilerView {
        self.write(line + "\n"@)
    }

    /// The same, after the resolver has looked up `key`, which resolves to
    /// `canonical`: the cache may have grown, and a resource that is new is
    /// scheduled.
    pub open spec fn looked_up(
        self,
        key: CacheKey,
        canonical: Option<webgal::ResourceView>,
    ) -> TranspilerView {
        let (cache, found) = check_and_insert(self.cache, key, canonical);
        match found {
            Lookup::Vacant(resource) => TranspilerView {
                cache,
                scheduled: self.scheduled.push(resource),
                keys: self.keys.push(key),
                ..self
            },
            _ => TranspilerView { cache, ..self },
        }
    }

    /// The same, with another stage.
    pub open spec fn staged(self, context: ContextView) -> TranspilerView {
        TranspilerView { context, ..self }
    }

    /// The same, with a new and empty scene at `path` as the current scene.
    pub open spec fn opened(self, path: Seq<char>) -> TranspilerView {
        TranspilerView {
            scripts: self.scripts.push(ScriptView { path, text: Seq::empty() }),
            ..self
        }
    }
}

/// The resource that a lookup hands out, if it hands one out.
pub open spec fn found_resource(
    cache: Cache,
    key: CacheKey,
    canonical: Option<webgal::ResourceView>,
) -> Option<webgal::ResourceView> {
    match check_and_insert(cache, key, canonical).1 {
        Lookup::Vacant(resource) => Some(resource),
        Lookup::Occupied(resource) => Some(resource),
        Lookup::Unresolved => None,
    }
}

impl FigureView {
    /// The statement that shows the figure as it is.
    pub open spec fn line(self, next: bool) -> Seq<char> {
        change_figure_text(
            Some(self.path),
            self.id,
            next,
            self.side,
            Some(self.transform),
            self.motion,
            self.expression,
        )
    }

    /// A figure that has just come on the stage.
    pub open spec fn fresh(id: u8, path: Seq<char>) -> FigureView {
        FigureView {
            id,
            path,
            side: FigureSide::Center,
            transform: Transform { position: webgal::Position { x: 0 } },
            motion: None,
            expression: None,
        }
    }
}

/// The statement that hides the figure `id`.
pub open spec fn hide_line(id: u8, next: bool) -> Seq<char> {
    change_figure_text(None, id, next, FigureSide::Center, None, None, None)
}

impl ContextView {
    /// The same stage, with the figure `id` in another motion and expression.
    pub open spec fn moved(self, id: u8, motion: Seq<char>, expression: Seq<char>) -> ContextView {
        let i = self.place(id);
        ContextView {
            figures: self.figures.update(
                i,
                FigureView {
                    motion: Some(motion),
                    expression: Some(expression),
                    ..self.figures[i]
                },
            ),
            ..self
        }
    }

    /// The same stage, with the figure `id` at another place.
    pub open spec fn placed(self, id: u8, side: FigureSide, x: i16) -> ContextView {
        let i = self.place(id);
        ContextView {
            figures: self.figures.update(
                i,
                FigureView {
                    side,
                    transform: Transform { position: webgal::Position { x } },
                    ..self.figures[i]
                },
            ),
            ..self
        }
    }

    /// The same stage, with the figure `id` on it: where it was not, it comes
    /// last, with the model `path`.
    pub open spec fn entered(self, id: u8, path: Seq<char>) -> ContextView {
        if self.has(id) {
            self
        } else {
            ContextView { figures: self.figures.push(FigureView::fresh(id, path)), ..self }
        }
    }

    /// The same stage, without the figure `id`.
    pub open spec fn left(self, id: u8) -> ContextView {
        ContextView { figures: self.figures.remove(self.place(id)), ..self }
    }

    /// The same stage, before another background.
    pub open spec fn backed(self, image: Seq<char>) -> ContextView {
        ContextView { background: Some(image), ..self }
    }
}

/// A figure that is on the stage stays there when a figure is moved or
/// placed, and no figure comes or goes.
pub proof fn lemma_update_keeps_figures(ctx: ContextView, i: int, f: FigureView)
    requires
        0 <= i < ctx.figures.len(),
        f.id == ctx.figures[i].id,
        ctx.distinct(),
    ensures
        (ContextView { figures: ctx.figures.update(i, f), ..ctx }).distinct(),
        forall|id: u8|
            (ContextView { figures: ctx.figures.update(i, f), ..ctx }).has(id) == ctx.has(id),
        forall|id: u8|
            ctx.has(id) ==> (ContextView { figures: ctx.figures.update(i, f), ..ctx }).place(id)
                == ctx.place(id),
{
    let after = ContextView { figures: ctx.figures.update(i, f), ..ctx };
    assert forall|id: u8| after.has(id) == ctx.has(id) by {
        if ctx.has(id) {
            let j = ctx.place(id);
            assert(after.figures[j].id == id);
        }
        if after.has(id) {
            let j = after.place(id);
            assert(ctx.figures[j].id == id);
        }
    }
    assert forall|id: u8| ctx.has(id) implies after.place(id) == ctx.place(id) by {
        let j = ctx.place(id);
        assert(after.figures[j].id == id);
        let k = after.place(id);
        assert(ctx.figures[k].id == id);
    }
}

impl TranspilerView {
    /// The same, after the figure of `motion` has taken it up: the figure is
    /// shown anew. Nothing happens where the figure is not on the stage.
    pub open spec fn motion_shown(self, motion: bestdori::Motion, next: bool) -> TranspilerView {
        if self.context.has(motion.character) {
            let context = self.context.moved(
                motion.character,
                motion.motion@,
                motion.expression@,
            );
            self.staged(context).emit(
                context.figures[self.context.place(motion.character)].line(next),
            )
        } else {
            self
        }
    }
}

impl TranspilerView {
    /// Whether `res` resolves for the use `kind`, from the cache or anew.
    pub open spec fn resolves<R: Resolve>(self, res: bestdori::ResourceView, kind: ResourceType) -> bool {
        found_resource(self.cache, CacheKey::Normal(res, kind), R::canonical(res, kind)) is Some
    }

    /// The path by which a script refers to `res` under the use `kind`.
    pub open spec fn path_of<R: Resolve>(self, res: bestdori::ResourceView, kind: ResourceType) -> Seq<
        char,
    > {
        found_resource(
            self.cache,
            CacheKey::Normal(res, kind),
            R::canonical(res, kind),
        ).unwrap().relative_path()
    }

    /// The same, after `res` has been looked up for the use `kind`.
    pub open spec fn sought<R: Resolve>(self, res: bestdori::ResourceView, kind: ResourceType) -> TranspilerView {
        self.looked_up(CacheKey::Normal(res, kind), R::canonical(res, kind))
    }

    /// The same, after a change of the background music to `res`: where it
    /// resolves, the music is changed.
    pub open spec fn bgm_changed<R: Resolve>(self, res: bestdori::ResourceView) -> TranspilerView {
        if self.resolves::<R>(res, ResourceType::Bgm) {
            self.sought::<R>(res, ResourceType::Bgm).emit(
                bgm_text(Some(self.path_of::<R>(res, ResourceType::Bgm))),
            )
        } else {
            self.sought::<R>(res, ResourceType::Bgm)
        }
    }

    /// The same, after the sound effect `res`: where it resolves, it is
    /// played.
    pub open spec fn se_played<R: Resolve>(self, res: bestdori::ResourceView) -> TranspilerView {
        if self.resolves::<R>(res, ResourceType::Bgm) {
            self.sought::<R>(res, ResourceType::Bgm).emit(
                play_effect_text(Some(self.path_of::<R>(res, ResourceType::Bgm))),
            )
        } else {
            self.sought::<R>(res, ResourceType::Bgm)
        }
    }

    /// The same, after a change of the background to `res`: where it
    /// resolves, the stage has the new background and shows it.
    pub open spec fn background_changed<R: Resolve>(
        self,
        res: bestdori::ResourceView,
        next: bool,
    ) -> TranspilerView {
        if self.resolves::<R>(res, ResourceType::Image) {
            let path = self.path_of::<R>(res, ResourceType::Image);
            let sought = self.sought::<R>(res, ResourceType::Image);
            sought.staged(sought.context.backed(path)).emit(change_bg_text(Some(path), next))
        } else {
            self.sought::<R>(res, ResourceType::Image)
        }
    }
}

/// The statements that hide `figures`, one after the other.
pub open spec fn hides(figures: Seq<FigureView>) -> Seq<char>
    decreases figures.len(),
{
    if figures.len() == 0 {
        Seq::empty()
    } else {
        hides(figures.drop_last()) + (hide_line(figures.last().id, true) + "\n"@)
    }
}

/// The statements that show `figures` as they are, one after the other.
pub open spec fn shows(figures: Seq<FigureView>) -> Seq<char>
    decreases figures.len(),
{
    if figures.len() == 0 {
        Seq::empty()
    } else {
        shows(figures.drop_last()) + (figures.last().line(true) + "\n"@)
    }
}

/// The first of `motions` whose figure is not on the stage.
pub open spec fn missing(context: ContextView, motions: Seq<bestdori::Motion>) -> Option<u8>
    decreases motions.len(),
{
    if motions.len() == 0 {
        None
    } else {
        match missing(context, motions.drop_last()) {
            Some(c) => Some(c),
            None => if context.has(motions.last().character) {
                None
            } else {
                Some(motions.last().character)
            },
        }
    }
}

/// The first of `characters`, if there is one.
pub open spec fn speaker(characters: Seq<u8>) -> Option<u8> {
    if characters.len() > 0 {
        Some(characters[0])
    } else {
        None
    }
}

/// Why an action could not be translated, as a mathematical value.
pub enum Trouble {
    Unknown,
    UninitFigure(u8),
    Unresolved(bestdori::ResourceView, ResourceType),
}

/// The mathematical value of the reason of a failure.
pub open spec fn trouble_of(kind: TranspileErrorKind) -> Trouble {
    match kind {
        TranspileErrorKind::Unknown => Trouble::Unknown,
        TranspileErrorKind::UninitFigure(c) => Trouble::UninitFigure(c),
        TranspileErrorKind::Resolve(e) => Trouble::Unresolved(e.resource@, e.kind),
    }
}

/// Whether `r` reports `trouble`.
pub open spec fn tells(r: Result<(), TranspileErrorKind>, trouble: Option<Trouble>) -> bool {
    match r {
        Ok(_) => trouble is None,
        Err(e) => trouble == Some(trouble_of(e)),
    }
}

impl TranspilerView {
    /// The same, after the figure of `motion` has come on the stage with the
    /// model `path`, if it was not there, and has taken up the motion.
    pub open spec fn motion_displayed(
        self,
        path: Seq<char>,
        motion: bestdori::Motion,
        next: bool,
    ) -> TranspilerView {
        self.staged(self.context.entered(motion.character, path)).motion_shown(motion, next)
    }

    /// The same, after the figure `id` has left the stage: it is hidden.
    /// Nothing happens where it is not on the stage.
    pub open spec fn figure_removed(self, id: u8, next: bool) -> TranspilerView {
        if self.context.has(id) {
            self.staged(self.context.left(id)).emit(hide_line(id, next))
        } else {
            self
        }
    }

    /// The same, after the stage has been cleared: every figure is hidden, in
    /// the order in which they came, and then the background.
    pub open spec fn cleared(self) -> TranspilerView {
        self.write(
            hides(self.context.figures) + (change_bg_text(None, false) + "\n"@),
        ).staged(ContextView::empty())
    }

    /// The same, after the stage has been set to `context`: the stage is
    /// cleared, then every figure of `context` is shown, and then its
    /// background.
    pub open spec fn restored(self, context: ContextView) -> TranspilerView {
        self.cleared().write(
            shows(context.figures) + (change_bg_text(context.background, false) + "\n"@),
        ).staged(context)
    }

    /// The same, after a still has been shown: where `res` resolves, the stage
    /// is cleared, the still is shown as the background, and the stage is set
    /// again to what it was.
    pub open spec fn cardstill_shown<R: Resolve>(
        self,
        res: bestdori::ResourceView,
        next: bool,
    ) -> TranspilerView {
        let sought = self.sought::<R>(res, ResourceType::Image);
        if self.resolves::<R>(res, ResourceType::Image) {
            let path = self.path_of::<R>(res, ResourceType::Image);
            sought.cleared().emit(change_bg_text(Some(path), next)).restored(sought.context)
        } else {
            sought
        }
    }

    /// The same, after a caption: the current scene ends with a choice that
    /// bears the caption and leads to a new scene, which is the current one
    /// from then on.
    pub open spec fn captioned(self, text: Seq<char>) -> TranspilerView {
        self.emit(choose_text(scene_name(self.scripts.len()), text)).opened(
            scene_name(self.scripts.len()),
        )
    }

    /// The same, after each of `motions` has been taken up by its figure.
    pub open spec fn shown_all(self, motions: Seq<bestdori::Motion>) -> TranspilerView
        decreases motions.len(),
    {
        if motions.len() == 0 {
            self
        } else {
            self.shown_all(motions.drop_last()).motion_shown(motions.last(), true)
        }
    }

    /// The same, after a line of dialogue: the figures take up their motions,
    /// and the line is said.
    pub open spec fn talked(self, action: bestdori::TalkAction, wait: bool) -> TranspilerView {
        self.shown_all(action.motions@).emit(
            say_text(action.name@, action.text@, !wait, speaker(action.characters@)),
        )
    }

    /// The same, after a sound action: the music first, then the effect.
    pub open spec fn sounded<R: Resolve>(self, action: bestdori::SoundAction) -> TranspilerView {
        let first = match action.bgm {
            Some(res) => self.bgm_changed::<R>(res@),
            None => self,
        };
        match action.se {
            Some(res) => first.se_played::<R>(res@),
            None => first,
        }
    }

    /// What is wrong with a sound action: the music that does not resolve,
    /// else the effect that does not.
    pub open spec fn sound_trouble<R: Resolve>(self, action: bestdori::SoundAction) -> Option<
        Trouble,
    > {
        let first = match action.bgm {
            Some(res) => self.bgm_changed::<R>(res@),
            None => self,
        };
        match action.bgm {
            Some(res) if !self.resolves::<R>(res@, ResourceType::Bgm) => Some(
                Trouble::Unresolved(res@, ResourceType::Bgm),
            ),
            _ => match action.se {
                Some(res) if !first.resolves::<R>(res@, ResourceType::Bgm) => Some(
                    Trouble::Unresolved(res@, ResourceType::Bgm),
                ),
                _ => None,
            },
        }
    }

    /// The same, after a scene effect.
    pub open spec fn affected<R: Resolve>(self, effect: bestdori::Effect, wait: bool) -> TranspilerView {
        match effect {
            bestdori::Effect::BlackIn | bestdori::Effect::WhiteIn => self.emit(
                animation_text("enter"@, "bg-main"@, !wait),
            ),
            bestdori::Effect::BlackOut | bestdori::Effect::WhiteOut => self.emit(
                animation_text("exit"@, "bg-main"@, !wait),
            ),
            bestdori::Effect::Telop { text } => self.captioned(text@),
            bestdori::Effect::ChangeBackground { image } => self.background_changed::<R>(
                image@,
                !wait,
            ),
            bestdori::Effect::ChangeCardStill { image } => self.cardstill_shown::<R>(
                image@,
                !wait,
            ),
        }
    }

    /// What is wrong with a scene effect: its image, where it does not
    /// resolve.
    pub open spec fn effect_trouble<R: Resolve>(self, effect: bestdori::Effect) -> Option<Trouble> {
        match effect {
            bestdori::Effect::ChangeBackground { image } | bestdori::Effect::ChangeCardStill {
                image,
            } => if self.resolves::<R>(image@, ResourceType::Image) {
                None
            } else {
                Some(Trouble::Unresolved(image@, ResourceType::Image))
            },
            _ => None,
        }
    }

    /// The same, after a figure has come, gone or moved. A figure that comes
    /// is known by the name of its model; its model is scheduled.
    pub open spec fn laid_out<R: Resolve>(self, action: bestdori::LayoutAction, wait: bool) -> TranspilerView {
        let id = action.motion.character;
        match action.kind {
            bestdori::LayoutType::Hide => self.figure_removed(id, !wait),
            bestdori::LayoutType::Move => if self.context.has(id) {
                self.staged(
                    self.context.placed(id, FigureSide::of(action.side.to), action.side.to_x),
                ).motion_shown(action.motion, !wait)
            } else {
                self
            },
            bestdori::LayoutType::Appear => self.looked_up(
                CacheKey::Model(action.model@),
                Some(R::canonical_model(action.model@)),
            ).motion_displayed(action.model@, action.motion, !wait),
        }
    }

    /// What is wrong with a layout action: a figure that is to go or to move
    /// and is not on the stage.
    pub open spec fn layout_trouble(self, action: bestdori::LayoutAction) -> Option<Trouble> {
        match action.kind {
            bestdori::LayoutType::Appear => None,
            _ => if self.context.has(action.motion.character) {
                None
            } else {
                Some(Trouble::UninitFigure(action.motion.character))
            },
        }
    }

    /// The same, after a figure has changed its motion: its model is looked
    /// up, and the figure comes on the stage if it was not there.
    pub open spec fn motioned<R: Resolve>(self, action: bestdori::MotionAction, wait: bool) -> TranspilerView {
        let key = CacheKey::Model(action.model@);
        let canonical = Some(R::canonical_model(action.model@));
        self.looked_up(key, canonical).motion_displayed(
            found_resource(self.cache, key, canonical).unwrap().relative_path(),
            action.motion,
            !wait,
        )
    }

    /// The same, after one action of a source script. `wait` is whether the
    /// action behind it waits.
    pub open spec fn step<R: Resolve>(self, action: bestdori::Action, wait: bool) -> TranspilerView {
        match action {
            bestdori::Action::Talk(a) => self.talked(a, wait),
            bestdori::Action::Sound(a) => self.sounded::<R>(a),
            bestdori::Action::Effect(a) => self.affected::<R>(a.effect, wait),
            bestdori::Action::Layout(a) => self.laid_out::<R>(a, wait),
            bestdori::Action::Motion(a) => self.motioned::<R>(a, wait),
            bestdori::Action::Unknown => self,
        }
    }

    /// What is wrong with one action of a source script, if anything.
    pub open spec fn trouble<R: Resolve>(self, action: bestdori::Action) -> Option<Trouble> {
        match action {
            bestdori::Action::Talk(a) => match missing(self.context, a.motions@) {
                Some(c) => Some(Trouble::UninitFigure(c)),
                None => None,
            },
            bestdori::Action::Sound(a) => self.sound_trouble::<R>(a),
            bestdori::Action::Effect(a) => self.effect_trouble::<R>(a.effect),
            bestdori::Action::Layout(a) => self.layout_trouble(a),
            bestdori::Action::Motion(a) => None,
            bestdori::Action::Unknown => Some(Trouble::Unknown),
        }
    }
}

impl TranspilerView {
    /// The same, after the first `n` actions of `story`.
    pub open spec fn ran<R: Resolve>(self, story: bestdori::Story, n: nat) -> TranspilerView
        decreases n,
    {
        if n == 0 {
            self
        } else {
            self.ran::<R>(story, (n - 1) as nat).step::<R>(
                story.0@[n - 1],
                story.next_waits(n - 1),
            )
        }
    }

    /// What is wrong with the first `n` actions of `story`, in their order.
    pub open spec fn troubles<R: Resolve>(self, story: bestdori::Story, n: nat) -> Seq<Trouble>
        decreases n,
    {
        if n == 0 {
            Seq::empty()
        } else {
            let before = self.troubles::<R>(story, (n - 1) as nat);
            match self.ran::<R>(story, (n - 1) as nat).trouble::<R>(story.0@[n - 1]) {
                Some(t) => before.push(t),
                None => before,
            }
        }
    }
}

/// Whether `errors` report `troubles`, one for one.
pub open spec fn report(errors: Seq<ConvertError>, troubles: Seq<Trouble>) -> bool {
    &&& errors.len() == troubles.len()
    &&& forall|i: int| 0 <= i < errors.len() ==> reports(#[trigger] errors[i], troubles[i])
}

/// Whether `error` is the report of `trouble`.
pub open spec fn reports(error: ConvertError, trouble: Trouble) -> bool {
    error matches ConvertError::Transpile(t) && trouble_of(t.error) == trouble
}

/// The name of the scene that is made when there are `count` scenes.
pub open spec fn scene_name(count: nat) -> Seq<char> {
    "scene-"@ + decimal(count) + ".txt"@
}

/// The mathematical value of a list of scenes.
pub open spec fn scripts_view(scenes: Seq<Scene>) -> Seq<ScriptView> {
    scenes.map_values(|scene: Scene| ScriptView { path: scene.path@, text: scene.text() })
}

/// The mathematical value of a list of shared resources.
pub open spec fn resources_view(resources: Seq<Arc<Resource>>) -> Seq<webgal::ResourceView> {
    resources.map_values(|r: Arc<Resource>| r@)
}

/// The translator. It owns its resolver, so that every resource it meets is
/// scheduled once.
pub struct Transpiler<R: Resolve> {
    resolver: R,
    context: Context,
    scenes: Vec<Scene>,
    resources: Vec<Arc<Resource>>,
    keys: Ghost<Seq<CacheKey>>,
}

impl<R: Resolve> View for Transpiler<R> {
    type V = TranspilerView;

    closed spec fn view(&self) -> TranspilerView {
        TranspilerView {
            cache: self.resolver.cache(),
            scripts: scripts_view(self.scenes@),
            context: self.context@,
            scheduled: resources_view(self.resources@),
            keys: self.keys@,
        }
    }
}

impl TranspilerView {
    /// What holds of everything a translator produces: there is a current
    /// scene, no two figures on the stage have the same number, and every
    /// scheduled resource is what the cache holds under its key, each key
    /// being scheduled once.
    pub open spec fn wf(self) -> bool {
        &&& self.scripts.len() > 0
        &&& self.context.distinct()
        &&& self.keys.len() == self.scheduled.len()
        &&& self.keys.no_duplicates()
        &&& forall|i: int|
            0 <= i < self.keys.len() ==> self.cache.dom().contains(#[trigger] self.keys[i])
                && self.cache[self.keys[i]] == self.scheduled[i]
    }
}

/// One fetch per resource. In what a translator has scheduled no cache key
/// stands twice, and each scheduled resource is the one that the cache holds
/// under its key: however often a script refers to a descriptor, its resource
/// is scheduled once.
pub proof fn lemma_one_fetch_per_key(s: TranspilerView, i: int, j: int)
    requires
        s.wf(),
        0 <= i < s.scheduled.len(),
        0 <= j < s.scheduled.len(),
        i != j,
    ensures
        s.keys[i] != s.keys[j],
        s.cache.dom().contains(s.keys[i]),
        s.cache[s.keys[i]] == s.scheduled[i],
{
}

/// Writing to the current scene keeps what holds of a translator.
pub proof fn lemma_write_keeps_wf(s: TranspilerView, text: Seq<char>)
    requires
        s.wf(),
    ensures
        s.write(text).wf(),
        s.emit(text).wf(),
{
}

/// Two writes are one write of both texts.
pub proof fn lemma_write_twice(s: TranspilerView, a: Seq<char>, b: Seq<char>)
    requires
        s.scripts.len() > 0,
    ensures
        s.write(a).write(b) == s.write(a + b),
{
    let last = s.scripts.len() - 1;
    assert((s.scripts[last].text + a) + b =~= s.scripts[last].text + (a + b));
    assert(s.write(a).write(b).scripts =~= s.write(a + b).scripts);
}

/// A lookup keeps what holds of a translator: a key that is scheduled anew
/// was not in the cache, so it was not scheduled before.
pub proof fn lemma_lookup_keeps_wf(
    s: TranspilerView,
    key: CacheKey,
    canonical: Option<webgal::ResourceView>,
)
    requires
        s.wf(),
    ensures
        s.looked_up(key, canonical).wf(),
{
    let t = s.looked_up(key, canonical);
    let (cache, found) = check_and_insert(s.cache, key, canonical);
    match found {
        Lookup::Vacant(resource) => {
            assert forall|i: int| 0 <= i < t.keys.len() implies t.cache.dom().contains(
                #[trigger] t.keys[i],
            ) && t.cache[t.keys[i]] == t.scheduled[i] by {
                if i < s.keys.len() {
                    assert(t.keys[i] == s.keys[i]);
                }
            }
            assert forall|i: int, j: int|
                0 <= i < t.keys.len() && 0 <= j < t.keys.len() && i != j implies t.keys[i]
                != t.keys[j] by {
                if i < s.keys.len() {
                    assert(s.cache.dom().contains(s.keys[i]));
                }
                if j < s.keys.len() {
                    assert(s.cache.dom().contains(s.keys[j]));
                }
            }
        },
        _ => {},
    }
}

impl<R: Resolve> Transpiler<R> {
    /// A translator that has written nothing: the start scene is open and
    /// empty, the stage is empty, and nothing is scheduled.
    pub fn new(resolver: R) -> (transpiler: Self)
        ensures
            transpiler@ == (TranspilerView {
                cache: resolver.cache(),
                scripts: seq![ScriptView { path: webgal::START_SCENE_PATH@, text: Seq::empty() }],
                context: ContextView::empty(),
                scheduled: Seq::empty(),
                keys: Seq::empty(),
            }),
            transpiler@.wf(),
    {
        let mut scenes: Vec<Scene> = Vec::new();
        scenes.push(Scene::new_start_scene());
        let transpiler = Transpiler {
            resolver,
            context: Context { background: None, models: Vec::new() },
            scenes,
            resources: Vec::new(),
            keys: Ghost(Seq::empty()),
        };
        proof {
            assert(transpiler@.scripts =~= seq![
                ScriptView { path: webgal::START_SCENE_PATH@, text: Seq::empty() },
            ]);
            assert(transpiler@.context.figures =~= Seq::empty());
            assert(transpiler@.scheduled =~= Seq::empty());
        }
        transpiler
    }

    /// The name of the scene that would be made next.
    fn next_scene_name(&self) -> (name: String)
        ensures
            name@ == scene_name(self@.scripts.len()),
    {
        let mut name = String::from_str("scene-");
        push_decimal(&mut name, self.scenes.len() as u64);
        name.append(".txt");
        name
    }

    /// Writes a command to the current scene.
    fn push_action(&mut self, action: Action)
        requires
            old(self)@.wf(),
        ensures
            final(self)@ == old(self)@.emit(action.statement()),
            final(self)@.wf(),
    {
        let mut scene = self.scenes.pop().unwrap();
        let ghost rest = self.scenes@;
        let ghost before = scene.actions@;
        scene.actions.push(action);
        proof {
            assert(scene.actions@.drop_last() =~= before);
            assert(scene.text() =~= script_text(before) + (action.statement() + "\n"@));
        }
        self.scenes.push(scene);
        proof {
            let want = old(self)@.emit(action.statement());
            assert(self@.scripts =~= want.scripts) by {
                assert forall|i: int| 0 <= i < want.scripts.len() implies self@.scripts[i]
                    == want.scripts[i] by {
                    if i < rest.len() {
                        assert(self.scenes@[i] == old(self).scenes@[i]);
                    }
                }
            }
            lemma_write_keeps_wf(old(self)@, action.statement());
        }
    }

    /// Schedules the resource of a lookup that made its entry.
    fn try_push_resource(&mut self, res: ResourceEntry, Ghost(key): Ghost<CacheKey>)
        ensures
            final(self).resolver == old(self).resolver,
            final(self).scenes == old(self).scenes,
            final(self).context == old(self).context,
            match res {
                ResourceEntry::Vacant(r) => final(self).resources@ == old(self).resources@.push(r)
                    && final(self).keys@ == old(self).keys@.push(key),
                ResourceEntry::Occupied(_) => final(self).resources == old(self).resources
                    && final(self).keys == old(self).keys,
            },
    {
        if let ResourceEntry::Vacant(v) = res {
            self.resources.push(v);
            self.keys = Ghost(self.keys@.push(key));
        }
    }

    /// Writes the start of a transition.
    fn display_transition(&mut self, animation: &str, next: bool)
        requires
            old(self)@.wf(),
        ensures
            final(self)@ == old(self)@.emit(animation_text(animation@, "bg-main"@, next)),
            final(self)@.wf(),
    {
        self.push_action(
            Action::SetAnimation(
                SetAnimation {
                    animation: String::from_str(animation),
                    target: String::from_str("bg-main"),
                    next,
                },
            ),
        );
    }

    /// Shows a caption: the current scene ends with a choice that bears the
    /// caption and leads to a new scene, which becomes the current one.
    fn display_telop(&mut self, text: &str)
        requires
            old(self)@.wf(),
        ensures
            final(self)@ == old(self)@.emit(
                choose_text(scene_name(old(self)@.scripts.len()), text@),
            ).opened(scene_name(old(self)@.scripts.len())),
            final(self)@.wf(),
    {
        let scene = self.next_scene_name();
        self.push_action(
            Action::Choose(ChooseAction { file: scene.clone(), text: String::from_str(text) }),
        );
        let ghost mid = self@;
        self.scenes.push(Scene::new(scene.as_str()));
        proof {
            let want = mid.opened(scene@);
            assert(self@.scripts =~= want.scripts) by {
                assert forall|i: int| 0 <= i < want.scripts.len() implies self@.scripts[i]
                    == want.scripts[i] by {
                    if i < mid.scripts.len() {
                    } else {
                        assert(script_text(Seq::<Action>::empty()) =~= Seq::<char>::empty());
                    }
                }
            }
        }
    }

    /// Looks up a plain descriptor for the use `kind`, schedules its resource
    /// where it is new, and gives the path by which a script refers to it.
    fn lookup_normal(&mut self, res: &bestdori::Resource, kind: ResourceType) -> (r: Result<
        String,
        TranspileErrorKind,
    >)
        requires
            old(self)@.wf(),
        ensures
            final(self)@ == old(self)@.looked_up(
                CacheKey::Normal(res@, kind),
                R::canonical(res@, kind),
            ),
            final(self)@.wf(),
            match found_resource(
                old(self)@.cache,
                CacheKey::Normal(res@, kind),
                R::canonical(res@, kind),
            ) {
                Some(resource) => r matches Ok(path) && path@ == resource.relative_path(),
                None => r matches Err(TranspileErrorKind::Resolve(e)) && e.kind == kind
                    && e.resource@ == res@,
            },
    {
        proof {
            lemma_lookup_keeps_wf(
                old(self)@,
                CacheKey::Normal(res@, kind),
                R::canonical(res@, kind),
            );
        }
        match self.resolver.resolve_normal(res, kind) {
            Ok(entry) => {
                let path = entry.as_ref().relative_path();
                self.try_push_resource(entry, Ghost(CacheKey::Normal(res@, kind)));
                proof {
                    let want = old(self)@.looked_up(
                        CacheKey::Normal(res@, kind),
                        R::canonical(res@, kind),
                    );
                    assert(self@.scheduled =~= want.scheduled);
                }
                Ok(path)
            },
            Err(e) => Err(TranspileErrorKind::Resolve(e)),
        }
    }

    /// Looks up a character model, schedules it where it is new, and gives the
    /// path by which a script refers to it.
    fn lookup_model(&mut self, costume: &str) -> (path: String)
        requires
            old(self)@.wf(),
        ensures
            final(self)@ == old(self)@.looked_up(
                CacheKey::Model(costume@),
                Some(R::canonical_model(costume@)),
            ),
            final(self)@.wf(),
            found_resource(
                old(self)@.cache,
                CacheKey::Model(costume@),
                Some(R::canonical_model(costume@)),
            ) matches Some(resource) && path@ == resource.relative_path(),
    {
        proof {
            lemma_lookup_keeps_wf(
                old(self)@,
                CacheKey::Model(costume@),
                Some(R::canonical_model(costume@)),
            );
        }
        let entry = self.resolver.resolve_model(costume);
        let path = entry.as_ref().relative_path();
        self.try_push_resource(entry, Ghost(CacheKey::Model(costume@)));
        proof {
            let want = old(self)@.looked_up(
                CacheKey::Model(costume@),
                Some(R::canonical_model(costume@)),
            );
            assert(self@.scheduled =~= want.scheduled);
        }
        path
    }

    /// Translates a change of the background music.
    fn transpile_bgm(&mut self, res: &bestdori::Resource) -> (r: Result<(), TranspileErrorKind>)
        requires
            old(self)@.wf(),
        ensures
            final(self)@ == old(self)@.bgm_changed::<R>(res@),
            final(self)@.wf(),
            r is Ok == old(self)@.resolves::<R>(res@, ResourceType::Bgm),
            r matches Err(e) ==> e matches TranspileErrorKind::Resolve(e) && e.kind
                == ResourceType::Bgm && e.resource@ == res@,
    {
        let path = self.lookup_normal(res, ResourceType::Bgm)?;
        self.push_action(Action::Bgm(BgmAction { sound: Some(path) }));
        Ok(())
    }

    /// Translates a sound effect. It is looked up like a piece of music.
    fn transpile_se(&mut self, res: &bestdori::Resource) -> (r: Result<(), TranspileErrorKind>)
        requires
            old(self)@.wf(),
        ensures
            final(self)@ == old(self)@.se_played::<R>(res@),
            final(self)@.wf(),
            r is Ok == old(self)@.resolves::<R>(res@, ResourceType::Bgm),
            r matches Err(e) ==> e matches TranspileErrorKind::Resolve(e) && e.kind
                == ResourceType::Bgm && e.resource@ == res@,
    {
        let path = self.lookup_normal(res, ResourceType::Bgm)?;
        self.push_action(Action::PlayEffect(PlayEffectAction { sound: Some(path) }));
        Ok(())
    }

    /// Changes the background.
    fn display_background(&mut self, res: &bestdori::Resource, next: bool) -> (r: Result<
        (),
        TranspileErrorKind,
    >)
        requires
            old(self)@.wf(),
        ensures
            final(self)@ == old(self)@.background_changed::<R>(res@, next),
            final(self)@.wf(),
            r is Ok == old(self)@.resolves::<R>(res@, ResourceType::Image),
            r matches Err(e) ==> e matches TranspileErrorKind::Resolve(e) && e.kind
                == ResourceType::Image && e.resource@ == res@,
    {
        let path = self.lookup_normal(res, ResourceType::Image)?;
        self.context.background = Some(path.clone());
        self.push_action(Action::ChangeBg(ChangeBgAction { image: Some(path), next }));
        Ok(())
    }

    /// Shows a figure as the stage has it.
    fn display_model(&mut self, model: Model, next: bool)
        requires
            old(self)@.wf(),
        ensures
            final(self)@ == old(self)@.emit(model@.line(next)),
            final(self)@.wf(),
    {
        self.push_action(
            Action::ChangeFigure(
                ChangeFigureAction {
                    model: Some(model.path),
                    id: model.id,
                    next,
                    side: model.side,
                    transform: Some(model.transform),
                    motion: model.motion,
                    expression: model.expression,
                },
            ),
        );
    }

    /// The place of the figure `id` on the stage, if it is there.
    fn find(&self, id: u8) -> (r: Option<usize>)
        requires
            self@.wf(),
        ensures
            r is Some == self@.context.has(id),
            r matches Some(i) ==> i == self@.context.place(id) && i < self.context.models@.len()
                && self.context.models@[i as int].id == id,
    {
        let mut i: usize = 0;
        while i < self.context.models.len()
            invariant
                self@.wf(),
                i <= self.context.models@.len(),
                forall|j: int| 0 <= j < i ==> (#[trigger] self@.context.figures[j]).id != id,
            decreases self.context.models@.len() - i,
        {
            if self.context.models[i].id == id {
                proof {
                    assert(self@.context.figures[i as int].id == id);
                    let j = self@.context.place(id);
                    assert(self@.context.figures[j].id == id);
                }
                return Some(i);
            }
            i += 1;
        }
        None
    }

    /// Gives the figure of `motion` that motion and expression and shows it
    /// anew, if the figure is on the stage.
    fn try_display_motion(&mut self, motion: &bestdori::Motion, next: bool) -> (r: Result<
        (),
        TranspileErrorKind,
    >)
        requires
            old(self)@.wf(),
        ensures
            final(self)@ == old(self)@.motion_shown(*motion, next),
            final(self)@.wf(),
            final(self)@.context.figures.len() == old(self)@.context.figures.len(),
            forall|id: u8| final(self)@.context.has(id) == old(self)@.context.has(id),
            r == if old(self)@.context.has(motion.character) {
                Ok::<(), TranspileErrorKind>(())
            } else {
                Err(TranspileErrorKind::UninitFigure(motion.character))
            },
    {
        match self.find(motion.character) {
            Some(i) => {
                let mut model = self.context.models[i].clone();
                model.motion = Some(motion.motion.clone());
                model.expression = Some(motion.expression.clone());
                let shown = model.clone();
                self.context.models.set(i, model);
                proof {
                    let context = old(self)@.context.moved(
                        motion.character,
                        motion.motion@,
                        motion.expression@,
                    );
                    assert(self@.context.figures =~= context.figures);
                    lemma_update_keeps_figures(
                        old(self)@.context,
                        i as int,
                        context.figures[i as int],
                    );
                    assert(self@ == old(self)@.staged(context));
                }
                self.display_model(shown, next);
                Ok(())
            },
            None => Err(TranspileErrorKind::UninitFigure(motion.character)),
        }
    }

    /// Shows the figure of `motion` in that motion. A figure that is not on
    /// the stage comes on it, with the model `model`.
    fn display_motion(&mut self, model: &str, motion: &bestdori::Motion, next: bool)
        requires
            old(self)@.wf(),
        ensures
            final(self)@ == old(self)@.motion_displayed(model@, *motion, next),
            final(self)@.wf(),
    {
        if self.find(motion.character).is_none() {
            self.context.models.push(
                Model {
                    id: motion.character,
                    path: String::from_str(model),
                    side: FigureSide::Center,
                    transform: Transform::new_with_x(0),
                    motion: None,
                    expression: None,
                },
            );
            proof {
                let context = old(self)@.context.entered(motion.character, model@);
                assert(self@.context.figures =~= context.figures);
                assert(self@ == old(self)@.staged(context));
                assert(context.figures[context.figures.len() - 1].id == motion.character);
            }
        } else {
            assert(self@ == old(self)@.staged(old(self)@.context));
        }
        let _ = self.try_display_motion(motion, next);
    }

    /// Takes the figure `id` off the stage and hides it.
    fn remove_model(&mut self, id: u8, next: bool) -> (r: Result<(), TranspileErrorKind>)
        requires
            old(self)@.wf(),
        ensures
            final(self)@ == old(self)@.figure_removed(id, next),
            final(self)@.wf(),
            r == if old(self)@.context.has(id) {
                Ok::<(), TranspileErrorKind>(())
            } else {
                Err(TranspileErrorKind::UninitFigure(id))
            },
    {
        match self.find(id) {
            Some(i) => {
                let _ = self.context.models.remove(i);
                proof {
                    let context = old(self)@.context.left(id);
                    assert(self@.context.figures =~= context.figures);
                    assert(self@ == old(self)@.staged(context));
                }
                self.push_action(Action::ChangeFigure(ChangeFigureAction::new_hide(id, next)));
                Ok(())
            },
            None => Err(TranspileErrorKind::UninitFigure(id)),
        }
    }

    /// Clears the stage and hands out what was on it.
    fn clear(&mut self) -> (context: Context)
        requires
            old(self)@.wf(),
        ensures
            context@ == old(self)@.context,
            final(self)@ == old(self)@.cleared(),
            final(self)@.wf(),
    {
        let ghost figures = self@.context.figures;
        let mut i: usize = 0;
        proof {
            assert(figures.take(0) =~= Seq::empty());
            assert(old(self)@.write(Seq::empty()).scripts =~= old(self)@.scripts);
        }
        while i < self.context.models.len()
            invariant
                old(self)@.wf(),
                self@.wf(),
                figures == old(self)@.context.figures,
                self@.context == old(self)@.context,
                i <= figures.len(),
                self@ == old(self)@.write(hides(figures.take(i as int))),
            decreases figures.len() - i,
        {
            let id = self.context.models[i].id;
            self.push_action(Action::ChangeFigure(ChangeFigureAction::new_hide(id, true)));
            proof {
                assert(figures.take(i + 1).drop_last() =~= figures.take(i as int));
                lemma_write_twice(
                    old(self)@,
                    hides(figures.take(i as int)),
                    hide_line(id, true) + "\n"@,
                );
            }
            i += 1;
        }
        self.push_action(Action::ChangeBg(ChangeBgAction::default()));
        proof {
            assert(figures.take(figures.len() as int) =~= figures);
            lemma_write_twice(old(self)@, hides(figures), change_bg_text(None, false) + "\n"@);
        }
        let mut context = Context { background: None, models: Vec::new() };
        std::mem::swap(&mut self.context, &mut context);
        proof {
            assert(self@.context.figures =~= ContextView::empty().figures);
        }
        context
    }

    /// Sets the stage to `context`: the stage is cleared, and the figures
    /// and the background of `context` are shown.
    fn set_context(&mut self, context: Context)
        requires
            old(self)@.wf(),
            context@.distinct(),
        ensures
            final(self)@ == old(self)@.restored(context@),
            final(self)@.wf(),
    {
        let _ = self.clear();
        let ghost cleared = self@;
        let ghost figures = context@.figures;
        let mut i: usize = 0;
        proof {
            assert(figures.take(0) =~= Seq::empty());
            assert(cleared.write(Seq::empty()).scripts =~= cleared.scripts);
        }
        while i < context.models.len()
            invariant
                cleared.wf(),
                self@.wf(),
                figures == context@.figures,
                i <= figures.len(),
                self@ == cleared.write(shows(figures.take(i as int))),
            decreases figures.len() - i,
        {
            let model = context.models[i].clone();
            self.display_model(model, true);
            proof {
                assert(figures.take(i + 1).drop_last() =~= figures.take(i as int));
                lemma_write_twice(
                    cleared,
                    shows(figures.take(i as int)),
                    figures[i as int].line(true) + "\n"@,
                );
            }
            i += 1;
        }
        let image = match &context.background {
            Some(b) => Some(b.clone()),
            None => None,
        };
        self.push_action(Action::ChangeBg(ChangeBgAction { image, next: false }));
        proof {
            assert(figures.take(figures.len() as int) =~= figures);
            lemma_write_twice(
                cleared,
                shows(figures),
                change_bg_text(context@.background, false) + "\n"@,
            );
        }
        self.context = context;
    }

    /// Shows a still: the stage is cleared for it and set again behind it.
    fn display_cardstill(&mut self, res: &bestdori::Resource, next: bool) -> (r: Result<
        (),
        TranspileErrorKind,
    >)
        requires
            old(self)@.wf(),
        ensures
            final(self)@ == old(self)@.cardstill_shown::<R>(res@, next),
            final(self)@.wf(),
            r is Ok == old(self)@.resolves::<R>(res@, ResourceType::Image),
            r matches Err(e) ==> e matches TranspileErrorKind::Resolve(e) && e.kind
                == ResourceType::Image && e.resource@ == res@,
    {
        let path = self.lookup_normal(res, ResourceType::Image)?;
        let context = self.clear();
        self.push_action(Action::ChangeBg(ChangeBgAction { image: Some(path), next }));
        self.set_context(context);
        Ok(())
    }

    /// Translates a line of dialogue. Every motion is tried; the first figure
    /// that is not on the stage is reported.
    fn transpile_talk(&mut self, action: &bestdori::TalkAction, wait: bool) -> (r: Result<
        (),
        TranspileErrorKind,
    >)
        requires
            old(self)@.wf(),
        ensures
            final(self)@ == old(self)@.talked(*action, wait),
            final(self)@.wf(),
            r == match missing(old(self)@.context, action.motions@) {
                Some(c) => Err::<(), TranspileErrorKind>(TranspileErrorKind::UninitFigure(c)),
                None => Ok(()),
            },
    {
        let mut res: Result<(), TranspileErrorKind> = Ok(());
        let mut i: usize = 0;
        let ghost motions = action.motions@;
        proof {
            assert(motions.take(0) =~= Seq::empty());
        }
        while i < action.motions.len()
            invariant
                self@.wf(),
                motions == action.motions@,
                i <= motions.len(),
                self@ == old(self)@.shown_all(motions.take(i as int)),
                forall|id: u8| self@.context.has(id) == old(self)@.context.has(id),
                res == match missing(old(self)@.context, motions.take(i as int)) {
                    Some(c) => Err::<(), TranspileErrorKind>(TranspileErrorKind::UninitFigure(c)),
                    None => Ok(()),
                },
            decreases motions.len() - i,
        {
            let shown = self.try_display_motion(&action.motions[i], true);
            res = match res {
                Ok(_) => shown,
                Err(e) => Err(e),
            };
            proof {
                assert(motions.take(i + 1).drop_last() =~= motions.take(i as int));
            }
            i += 1;
        }
        proof {
            assert(motions.take(motions.len() as int) =~= motions);
        }
        let character = if action.characters.len() > 0 {
            Some(action.characters[0])
        } else {
            None
        };
        self.push_action(
            Action::Say(
                SayAction {
                    name: action.name.clone(),
                    text: action.text.clone(),
                    next: !wait,
                    character,
                },
            ),
        );
        res
    }

    /// Translates a sound action: the music first, then the effect. Both are
    /// tried; the first that does not resolve is reported.
    fn transpile_sound(&mut self, action: &bestdori::SoundAction) -> (r: Result<
        (),
        TranspileErrorKind,
    >)
        requires
            old(self)@.wf(),
        ensures
            final(self)@ == old(self)@.sounded::<R>(*action),
            final(self)@.wf(),
            tells(r, old(self)@.sound_trouble::<R>(*action)),
    {
        let first = match &action.bgm {
            Some(bgm) => self.transpile_bgm(bgm),
            None => Ok(()),
        };
        let second = match &action.se {
            Some(se) => self.transpile_se(se),
            None => Ok(()),
        };
        match first {
            Ok(_) => second,
            Err(e) => Err(e),
        }
    }

    /// Translates a scene effect.
    fn transpile_effect(&mut self, action: &bestdori::EffectAction, wait: bool) -> (r: Result<
        (),
        TranspileErrorKind,
    >)
        requires
            old(self)@.wf(),
        ensures
            final(self)@ == old(self)@.affected::<R>(action.effect, wait),
            final(self)@.wf(),
            tells(r, old(self)@.effect_trouble::<R>(action.effect)),
    {
        match &action.effect {
            bestdori::Effect::BlackIn | bestdori::Effect::WhiteIn => {
                self.display_transition("enter", !wait);
                Ok(())
            },
            bestdori::Effect::BlackOut | bestdori::Effect::WhiteOut => {
                self.display_transition("exit", !wait);
                Ok(())
            },
            bestdori::Effect::Telop { text } => {
                self.display_telop(text.as_str());
                Ok(())
            },
            bestdori::Effect::ChangeBackground { image } => self.display_background(image, !wait),
            bestdori::Effect::ChangeCardStill { image } => self.display_cardstill(image, !wait),
        }
    }

    /// Translates the coming, going or moving of a figure.
    fn transpile_layout(&mut self, action: &bestdori::LayoutAction, wait: bool) -> (r: Result<
        (),
        TranspileErrorKind,
    >)
        requires
            old(self)@.wf(),
        ensures
            final(self)@ == old(self)@.laid_out::<R>(*action, wait),
            final(self)@.wf(),
            tells(r, old(self)@.layout_trouble(*action)),
    {
        let id = action.motion.character;
        match action.kind {
            bestdori::LayoutType::Hide => self.remove_model(id, !wait),
            bestdori::LayoutType::Move => match self.find(id) {
                Some(i) => {
                    let mut model = self.context.models[i].clone();
                    model.side = FigureSide::from(action.side.to);
                    model.transform = Transform::new_with_x(action.side.to_x);
                    self.context.models.set(i, model);
                    proof {
                        let context = old(self)@.context.placed(
                            id,
                            FigureSide::of(action.side.to),
                            action.side.to_x,
                        );
                        assert(self@.context.figures =~= context.figures);
                        lemma_update_keeps_figures(
                            old(self)@.context,
                            i as int,
                            context.figures[i as int],
                        );
                        assert(self@ == old(self)@.staged(context));
                    }
                    self.try_display_motion(&action.motion, !wait)
                },
                None => Err(TranspileErrorKind::UninitFigure(id)),
            },
            bestdori::LayoutType::Appear => {
                let _ = self.lookup_model(action.model.as_str());
                self.display_motion(action.model.as_str(), &action.motion, !wait);
                Ok(())
            },
        }
    }

    /// Translates a change of the motion of a figure.
    fn transpile_motion(&mut self, action: &bestdori::MotionAction, wait: bool)
        requires
            old(self)@.wf(),
        ensures
            final(self)@ == old(self)@.motioned::<R>(*action, wait),
            final(self)@.wf(),
    {
        let path = self.lookup_model(action.model.as_str());
        self.display_motion(path.as_str(), &action.motion, !wait);
    }

    /// Translates one action of a source script. `wait` is whether the action
    /// behind it waits. An action that cannot be translated is reported with
    /// its reason; what it has written up to there stays.
    pub fn transpile_action(&mut self, action: &bestdori::Action, wait: bool) -> (r: Result<
        (),
        ConvertError,
    >)
        requires
            old(self)@.wf(),
        ensures
            final(self)@ == old(self)@.step::<R>(*action, wait),
            final(self)@.wf(),
            r is Ok == old(self)@.trouble::<R>(*action) is None,
            r matches Err(e) ==> e matches ConvertError::Transpile(t) && Some(trouble_of(t.error))
                == old(self)@.trouble::<R>(*action),
    {
        let done = match action {
            bestdori::Action::Talk(a) => self.transpile_talk(a, wait),
            bestdori::Action::Sound(a) => self.transpile_sound(a),
            bestdori::Action::Effect(a) => self.transpile_effect(a, wait),
            bestdori::Action::Layout(a) => self.transpile_layout(a, wait),
            bestdori::Action::Motion(a) => {
                self.transpile_motion(a, wait);
                Ok(())
            },
            bestdori::Action::Unknown => Err(TranspileErrorKind::Unknown),
        };
        match done {
            Ok(_) => Ok(()),
            Err(e) => Err(
                ConvertError::Transpile(
                    TranspileError { action: Box::new(action.clone()), error: e },
                ),
            ),
        }
    }

    /// Ends the translation: the scenes become the target script.
    fn into_result(self, errors: Vec<ConvertError>) -> (result: TranspileResult)
        ensures
            scripts_view(result.story.0@) == self@.scripts,
            resources_view(result.resources@) == self@.scheduled,
            result.errors == errors,
    {
        TranspileResult { story: webgal::Story(self.scenes), resources: self.resources, errors }
    }

    /// Translates a whole script, action by action, each with the wait of the
    /// action behind it.
    ///
    /// The target script is what the actions have written, one after the
    /// other, and every action that could not be translated is reported, in
    /// the order of the script. The resources to fetch are those that were
    /// new to the cache when they were met: each stands for one cache key,
    /// and no key stands twice, however often the script refers to it.
    pub fn run(self, story: &bestdori::Story) -> (result: TranspileResult)
        requires
            self@.wf(),
        ensures
            ({
                let end = self@.ran::<R>(*story, story.0@.len());
                &&& end.wf()
                &&& scripts_view(result.story.0@) == end.scripts
                &&& resources_view(result.resources@) == end.scheduled
                &&& report(result.errors@, self@.troubles::<R>(*story, story.0@.len()))
            }),
    {
        let mut transpiler = self;
        let mut errors: Vec<ConvertError> = Vec::new();
        let mut i: usize = 0;
        while i < story.0.len()
            invariant
                i <= story.0@.len(),
                transpiler@.wf(),
                transpiler@ == self@.ran::<R>(*story, i as nat),
                report(errors@, self@.troubles::<R>(*story, i as nat)),
            decreases story.0@.len() - i,
        {
            let wait = if i + 1 < story.0.len() {
                story.0[i + 1].is_wait()
            } else {
                false
            };
            let ghost before = errors@;
            match transpiler.transpile_action(&story.0[i], wait) {
                Ok(_) => {},
                Err(e) => {
                    errors.push(e);
                    assert(errors@.drop_last() =~= before);
                },
            }
            i += 1;
        }
        transpiler.into_result(errors)
    }
}

impl<R: Resolve> Transpile for Transpiler<R> {
    open spec fn ready(&self) -> bool {
        self@.wf()
    }

    /// The target script is what the actions of `story` have written, one
    /// after the other; the resources are those that were new to the cache
    /// when they were met, each for one cache key; and every action that
    /// could not be translated is reported, in the order of the script.
    open spec fn translates(&self, story: bestdori::Story, result: TranspileResult) -> bool {
        let end = self@.ran::<R>(story, story.0@.len());
        &&& end.wf()
        &&& scripts_view(result.story.0@) == end.scripts
        &&& resources_view(result.resources@) == end.scheduled
        &&& report(result.errors@, self@.troubles::<R>(story, story.0@.len()))
    }

    fn transpile(self, story: &bestdori::Story) -> (result: TranspileResult) {
        self.run(story)
    }
}

} // verus!
