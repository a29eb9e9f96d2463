//! The second stage of the streaming pipeline: cleaned actions become the
//! commands of a target script, line by line.

use std::collections::VecDeque;
use vstd::prelude::*;
use vstd::string::*;

use crate::models::webgal::action::{
    animation_body, bgm_body, call_scene_body, change_bg_body, change_figure_body, choose_body,
    play_effect_body, say_body, text_of, textbox_body,
};
use crate::pipeline::error::{Failure, ScriptError};
use crate::pipeline::models::bestdori::{LayoutSide, LayoutType, Motion};
use crate::pipeline::models::internal::{self, ActionDetail, TransitionType};
use crate::pipeline::models::webgal::{
    Action, Actionable, BgmAction, CallSceneAction, ChangeBgAction, ChangeFigureAction,
    ChooseAction, FigureSide, PlayEffectAction, Position, SayAction, SetAnimation,
    SetTextboxAction, Transform,
};
use crate::services::transpiler::{
    lemma_update_keeps_figures, ContextView, FigureView, Model,
};
use crate::text::{decimal, push_decimal, trim, trimmed};

verus! {

/// What the second stage hands on: a command to write, or the file of the
/// scene that is written to from now on.
#[derive(Debug)]
pub enum TranspileResult {
    Action(Action),
    Scene(String),
}

/// The second stage, as the pipeline sees it: something that hands on item
/// after item until the script is at its end.
pub trait Transpiler {
    /// What waits to be handed on, oldest first.
    spec fn queue(&self) -> Seq<Result<TranspileResult, Failure>>;

    /// The next item, if there is one: the oldest that waits.
    fn next(&mut self) -> (item: Option<Result<TranspileResult, Failure>>)
        ensures
            match item {
                Some(x) => old(self).queue().len() > 0 && x == old(self).queue()[0]
                    && final(self).queue() == old(self).queue().drop_first(),
                None => old(self).queue().len() == 0 && final(self).queue() == old(self).queue(),
            },
    ;
}

/// What the second stage hands on, as a mathematical value.
pub enum Produced {
    /// A line of a scene file.
    Line(Seq<char>),
    /// The file of the scene that is written to from now on.
    Scene(Seq<char>),
    /// What is wrong with an action.
    Trouble(ScriptError),
}

/// The mathematical value of one item.
pub open spec fn produced_one(item: Result<TranspileResult, Failure>) -> Produced {
    match item {
        Ok(TranspileResult::Action(a)) => Produced::Line(a.line()),
        Ok(TranspileResult::Scene(s)) => Produced::Scene(s@),
        Err(Failure::Script(e)) => Produced::Trouble(e),
        Err(_) => Produced::Trouble(ScriptError::Unknown),
    }
}

/// The mathematical value of a run of items.
pub open spec fn produced(items: Seq<Result<TranspileResult, Failure>>) -> Seq<Produced> {
    items.map_values(|item: Result<TranspileResult, Failure>| produced_one(item))
}

/// The name of the scene with the number `n`.
pub open spec fn scene_file(n: u16) -> Seq<char> {
    "scene-"@ + decimal(n as nat) + ".txt"@
}

/// The number of the scene behind the scene `n`.
pub open spec fn scene_after(n: u16) -> u16 {
    if n < u16::MAX {
        (n + 1) as u16
    } else {
        0
    }
}

/// The line that shows a figure as it is.
pub open spec fn figure_line(f: FigureView, next: bool) -> Produced {
    Produced::Line(
        change_figure_body(
            Some(f.path),
            f.id,
            next,
            f.side,
            Some(f.transform),
            f.motion,
            f.expression,
        ),
    )
}

/// The line that hides the figure `id`.
pub open spec fn hide_line(id: u8, next: bool) -> Produced {
    Produced::Line(change_figure_body(None, id, next, FigureSide::Center, None, None, None))
}

/// The figure that comes or moves with a layout action.
pub open spec fn laid_out(model: Seq<char>, motion: Motion, side: LayoutSide) -> FigureView {
    FigureView {
        id: motion.character,
        path: model,
        side: FigureSide::of(side.to),
        transform: Transform { position: Position { x: side.to_x } },
        motion: Some(motion.motion@),
        expression: Some(motion.expression@),
    }
}

/// The stage with `figure` on it: in place of the figure of its number, or,
/// where there is none, last.
pub open spec fn put(context: ContextView, figure: FigureView) -> ContextView {
    if context.has(figure.id) {
        ContextView { figures: context.figures.update(context.place(figure.id), figure), ..context }
    } else {
        ContextView { figures: context.figures.push(figure), ..context }
    }
}

/// What a still hands on: the text box goes, the figures go, the still is
/// shown and then the background again, the figures come back as they were,
/// and the text box comes back.
pub open spec fn still(context: ContextView, image: Seq<char>) -> Seq<Produced> {
    seq![Produced::Line(textbox_body(false))] + context.figures.map_values(
        |f: FigureView| hide_line(f.id, true),
    ) + seq![
        Produced::Line(change_bg_body(Some(image), false)),
        Produced::Line(change_bg_body(context.background, true)),
    ] + context.figures.map_values(|f: FigureView| figure_line(f, true)) + seq![
        Produced::Line(textbox_body(true)),
    ]
}

/// What the coming, going or moving of a figure does to the stage, and what
/// it hands on. A figure that comes or moves is on the stage afterwards as the
/// action says, and is shown; one that goes is hidden. A figure that is to go
/// or to move and is not on the stage is reported.
pub open spec fn layout_outcome(
    context: ContextView,
    model: Seq<char>,
    motion: Motion,
    side: LayoutSide,
    kind: LayoutType,
    next_wait: bool,
) -> (ContextView, Seq<Produced>) {
    let figure = laid_out(model, motion, side);
    let missing = seq![Produced::Trouble(ScriptError::IdNotFound(motion.character))];
    match kind {
        LayoutType::Appear => (put(context, figure), seq![figure_line(figure, next_wait)]),
        LayoutType::Hide => if context.has(motion.character) {
            (context.left(motion.character), seq![hide_line(motion.character, next_wait)])
        } else {
            (context, missing)
        },
        LayoutType::Move => if context.has(motion.character) {
            (put(context, figure), seq![figure_line(figure, next_wait)])
        } else {
            (context, missing)
        },
    }
}

/// What a change of the motion of a figure does to the stage, and what it
/// hands on. A figure on the stage takes up the motion and is shown. One that
/// is not on the stage is reported, and comes on it with the model `model`.
pub open spec fn motion_outcome(
    context: ContextView,
    model: Seq<char>,
    motion: Motion,
    next_wait: bool,
) -> (ContextView, Seq<Produced>) {
    if context.has(motion.character) {
        let after = context.moved(motion.character, motion.motion@, motion.expression@);
        (after, seq![figure_line(after.figures[context.place(motion.character)], next_wait)])
    } else {
        let fresh = FigureView {
            motion: Some(motion.motion@),
            expression: Some(motion.expression@),
            ..FigureView::fresh(motion.character, model)
        };
        (
            put(context, fresh),
            seq![
                Produced::Trouble(ScriptError::IdNotFound(motion.character)),
                figure_line(fresh, next_wait),
            ],
        )
    }
}

/// The name of the animation of a fade.
pub open spec fn fade_name(transition: TransitionType) -> Seq<char> {
    match transition {
        TransitionType::BlackIn | TransitionType::WhiteIn => "enter"@,
        TransitionType::BlackOut | TransitionType::WhiteOut => "exit"@,
    }
}

/// What one cleaned action does to the number of the scene and to the stage,
/// and what it hands on. `next_wait` is whether the action behind it waits.
pub open spec fn outcome(
    scene: u16,
    context: ContextView,
    detail: ActionDetail,
    next_wait: bool,
) -> (u16, ContextView, Seq<Produced>) {
    match detail {
        ActionDetail::Say { name, text, characters, motions } => (
            scene,
            context,
            seq![
                Produced::Line(
                    say_body(
                        trimmed(name@),
                        trimmed(text@),
                        !next_wait,
                        if characters@.len() > 0 {
                            Some(characters@[0])
                        } else {
                            None
                        },
                    ),
                ),
            ],
        ),
        ActionDetail::Bgm(sound) => (scene, context, seq![Produced::Line(bgm_body(Some(sound@)))]),
        ActionDetail::Sound(sound) => (
            scene,
            context,
            seq![Produced::Line(play_effect_body(Some(sound@)))],
        ),
        ActionDetail::Background(image) => (
            scene,
            ContextView { background: Some(image@), ..context },
            seq![Produced::Line(change_bg_body(Some(image@), !next_wait))],
        ),
        ActionDetail::CardStill(image) => (scene, context, still(context, image@)),
        ActionDetail::Transition(transition) => (
            scene,
            context,
            seq![Produced::Line(animation_body(fade_name(transition), "bg-main"@, next_wait))],
        ),
        ActionDetail::Telop(text) => (
            scene_after(scene),
            context,
            seq![
                Produced::Line(choose_body(scene_file(scene_after(scene)), text@)),
                Produced::Scene(scene_file(scene_after(scene))),
            ],
        ),
        ActionDetail::Layout { model, motion, side, kind } => {
            let (after, items) = layout_outcome(context, model@, motion, side, kind, next_wait);
            (scene, after, items)
        },
        ActionDetail::Motion { model, motion } => {
            let (after, items) = motion_outcome(context, model@, motion, next_wait);
            (scene, after, items)
        },
        ActionDetail::Unknown => (scene, context, seq![Produced::Trouble(ScriptError::Unknown)]),
    }
}

/// The second stage of the streaming pipeline.
pub struct DefaultTranspiler {
    scene: u16,
    background: Option<String>,
    models: Vec<Model>,
    pending: VecDeque<Result<TranspileResult, Failure>>,
}

impl DefaultTranspiler {
    /// The number of the scene that is written to.
    pub closed spec fn scene(&self) -> u16 {
        self.scene
    }

    /// What is on the stage.
    pub closed spec fn context(&self) -> ContextView {
        ContextView {
            background: text_of(self.background),
            figures: self.models@.map_values(|m: Model| m@),
        }
    }

    /// What has been made of the actions so far and waits to be handed on.
    pub closed spec fn waiting(&self) -> Seq<Result<TranspileResult, Failure>> {
        self.pending@
    }

    /// No two figures on the stage have the same number.
    pub open spec fn wf(&self) -> bool {
        self.context().distinct()
    }

    /// A second stage that has taken in nothing. The start scene goes on with
    /// the first scene, which is written to from then on.
    pub fn new() -> (transpiler: Self)
        ensures
            transpiler.wf(),
            transpiler.scene() == 1,
            transpiler.context() == ContextView::empty(),
            produced(transpiler.waiting()) == seq![
                Produced::Line(call_scene_body(scene_file(1))),
                Produced::Scene(scene_file(1)),
            ],
    {
        let mut transpiler = DefaultTranspiler {
            scene: 0,
            background: None,
            models: Vec::new(),
            pending: VecDeque::new(),
        };
        let scene = transpiler.next_scene();
        transpiler.pending.push_back(
            Ok(TranspileResult::Action(Action::CallScene(CallSceneAction { file: scene.clone() }))),
        );
        transpiler.pending.push_back(Ok(TranspileResult::Scene(scene)));
        proof {
            assert(transpiler.context().figures =~= Seq::empty());
            assert(produced(transpiler.waiting()) =~= seq![
                Produced::Line(call_scene_body(scene_file(1))),
                Produced::Scene(scene_file(1)),
            ]);
        }
        transpiler
    }

    /// Goes on to the next scene and gives its file.
    fn next_scene(&mut self) -> (file: String)
        ensures
            final(self).scene() == scene_after(old(self).scene()),
            file@ == scene_file(final(self).scene()),
            final(self).context() == old(self).context(),
            final(self).waiting() == old(self).waiting(),
    {
        self.scene = if self.scene < u16::MAX {
            self.scene + 1
        } else {
            0
        };
        let mut file = String::from_str("scene-");
        push_decimal(&mut file, self.scene as u64);
        file.append(".txt");
        file
    }

    /// The place of the figure `id` on the stage, if it is there.
    fn find(&self, id: u8) -> (r: Option<usize>)
        requires
            self.wf(),
        ensures
            r is Some == self.context().has(id),
            r matches Some(i) ==> i == self.context().place(id) && i < self.models@.len()
                && self.models@[i as int].id == id,
    {
        let mut i: usize = 0;
        while i < self.models.len()
            invariant
                self.wf(),
                i <= self.models@.len(),
                forall|j: int| 0 <= j < i ==> (#[trigger] self.context().figures[j]).id != id,
            decreases self.models@.len() - i,
        {
            if self.models[i].id == id {
                proof {
                    assert(self.context().figures[i as int].id == id);
                    let j = self.context().place(id);
                    assert(self.context().figures[j].id == id);
                }
                return Some(i);
            }
            i += 1;
        }
        None
    }

    /// The command that shows a figure as the stage has it.
    fn show(model: &Model, next: bool) -> (item: Result<TranspileResult, Failure>)
        ensures
            produced_one(item) == figure_line(model@, next),
    {
        let shown = model.clone();
        Ok(
            TranspileResult::Action(
                Action::ChangeFigure(
                    ChangeFigureAction {
                        model: Some(shown.path),
                        id: shown.id,
                        next,
                        side: shown.side,
                        transform: Some(shown.transform),
                        motion: shown.motion,
                        expression: shown.expression,
                    },
                ),
            ),
        )
    }

    /// The command that hides the figure `id`.
    fn hidden(id: u8, next: bool) -> (item: Result<TranspileResult, Failure>)
        ensures
            produced_one(item) == hide_line(id, next),
    {
        Ok(TranspileResult::Action(Action::ChangeFigure(ChangeFigureAction::new_hide(id, next))))
    }

    /// Translates a line of dialogue. The name and the text lose the white
    /// space around them.
    pub fn transpile_say(name: String, text: String, characters: Vec<u8>, next_wait: bool) -> (items:
        Vec<Result<TranspileResult, Failure>>)
        ensures
            produced(items@) == seq![
                Produced::Line(
                    say_body(
                        trimmed(name@),
                        trimmed(text@),
                        !next_wait,
                        if characters@.len() > 0 {
                            Some(characters@[0])
                        } else {
                            None
                        },
                    ),
                ),
            ],
    {
        let mut items: Vec<Result<TranspileResult, Failure>> = Vec::new();
        let character = if characters.len() > 0 {
            Some(characters[0])
        } else {
            None
        };
        items.push(
            Ok(
                TranspileResult::Action(
                    Action::Say(
                        SayAction {
                            name: trim(name.as_str()),
                            text: trim(text.as_str()),
                            next: !next_wait,
                            character,
                        },
                    ),
                ),
            ),
        );
        assert(produced(items@) =~= seq![produced_one(items@[0])]);
        items
    }

    /// Translates a change of the background music.
    pub fn transpile_bgm(sound: String) -> (items: Vec<Result<TranspileResult, Failure>>)
        ensures
            produced(items@) == seq![Produced::Line(bgm_body(Some(sound@)))],
    {
        let mut items: Vec<Result<TranspileResult, Failure>> = Vec::new();
        items.push(Ok(TranspileResult::Action(Action::Bgm(BgmAction { sound: Some(sound) }))));
        assert(produced(items@) =~= seq![produced_one(items@[0])]);
        items
    }

    /// Translates a sound effect.
    pub fn transpile_sound(sound: String) -> (items: Vec<Result<TranspileResult, Failure>>)
        ensures
            produced(items@) == seq![Produced::Line(play_effect_body(Some(sound@)))],
    {
        let mut items: Vec<Result<TranspileResult, Failure>> = Vec::new();
        items.push(
            Ok(TranspileResult::Action(Action::PlayEffect(PlayEffectAction { sound: Some(sound) }))),
        );
        assert(produced(items@) =~= seq![produced_one(items@[0])]);
        items
    }

    /// Translates a change of the background, which the stage remembers.
    pub fn transpile_background(&mut self, image: String, next_wait: bool) -> (items: Vec<
        Result<TranspileResult, Failure>,
    >)
        ensures
            produced(items@) == seq![Produced::Line(change_bg_body(Some(image@), !next_wait))],
            final(self).context() == (ContextView {
                background: Some(image@),
                ..old(self).context()
            }),
            final(self).scene() == old(self).scene(),
            final(self).waiting() == old(self).waiting(),
    {
        let mut items: Vec<Result<TranspileResult, Failure>> = Vec::new();
        self.background = Some(image.clone());
        items.push(
            Ok(
                TranspileResult::Action(
                    Action::ChangeBg(ChangeBgAction { image: Some(image), next: !next_wait }),
                ),
            ),
        );
        assert(produced(items@) =~= seq![produced_one(items@[0])]);
        items
    }

    /// Translates a still. The stage is as it was afterwards.
    pub fn transpile_cardstill(&self, image: String) -> (items: Vec<
        Result<TranspileResult, Failure>,
    >)
        ensures
            produced(items@) == still(self.context(), image@),
    {
        let mut items: Vec<Result<TranspileResult, Failure>> = Vec::new();
        let ghost figures = self.context().figures;
        let ghost hides = figures.map_values(|f: FigureView| hide_line(f.id, true));
        let ghost shows = figures.map_values(|f: FigureView| figure_line(f, true));
        let ghost first = seq![Produced::Line(textbox_body(false))];
        items.push(
            Ok(TranspileResult::Action(Action::SetTextbox(SetTextboxAction { visible: false }))),
        );
        assert(produced(items@) =~= first + hides.take(0));
        let mut i: usize = 0;
        while i < self.models.len()
            invariant
                i <= self.models@.len(),
                figures == self.context().figures,
                hides == figures.map_values(|f: FigureView| hide_line(f.id, true)),
                first == seq![Produced::Line(textbox_body(false))],
                produced(items@) == first + hides.take(i as int),
            decreases self.models@.len() - i,
        {
            let ghost before = produced(items@);
            items.push(Self::hidden(self.models[i].id, true));
            proof {
                assert(figures[i as int].id == self.models@[i as int].id);
                assert(produced(items@) =~= before.push(hides[i as int]));
                assert(before.push(hides[i as int]) =~= first + hides.take(i + 1));
            }
            i += 1;
        }
        let ghost second = seq![
            Produced::Line(change_bg_body(Some(image@), false)),
            Produced::Line(change_bg_body(self.context().background, true)),
        ];
        let ghost head = first + hides + second;
        let ghost before = produced(items@);
        items.push(
            Ok(
                TranspileResult::Action(
                    Action::ChangeBg(ChangeBgAction { image: Some(image), next: false }),
                ),
            ),
        );
        let ghost middle = produced(items@);
        items.push(
            Ok(
                TranspileResult::Action(
                    Action::ChangeBg(
                        ChangeBgAction {
                            image: match &self.background {
                                Some(b) => Some(b.clone()),
                                None => None,
                            },
                            next: true,
                        },
                    ),
                ),
            ),
        );
        proof {
            assert(hides.take(figures.len() as int) =~= hides);
            assert(middle =~= before.push(second[0]));
            assert(produced(items@) =~= middle.push(second[1]));
            assert(produced(items@) =~= head + shows.take(0));
        }
        let mut i: usize = 0;
        while i < self.models.len()
            invariant
                i <= self.models@.len(),
                figures == self.context().figures,
                shows == figures.map_values(|f: FigureView| figure_line(f, true)),
                produced(items@) == head + shows.take(i as int),
            decreases self.models@.len() - i,
        {
            let ghost before = produced(items@);
            items.push(Self::show(&self.models[i], true));
            proof {
                assert(figures[i as int] == self.models@[i as int]@);
                assert(produced(items@) =~= before.push(shows[i as int]));
                assert(before.push(shows[i as int]) =~= head + shows.take(i + 1));
            }
            i += 1;
        }
        let ghost before = produced(items@);
        items.push(
            Ok(TranspileResult::Action(Action::SetTextbox(SetTextboxAction { visible: true }))),
        );
        proof {
            assert(shows.take(figures.len() as int) =~= shows);
            assert(produced(items@) =~= before.push(Produced::Line(textbox_body(true))));
            assert(produced(items@) =~= still(self.context(), image@));
        }
        items
    }

    /// Translates a fade.
    pub fn transpile_transition(transition: TransitionType, next_wait: bool) -> (items: Vec<
        Result<TranspileResult, Failure>,
    >)
        ensures
            produced(items@) == seq![
                Produced::Line(
                    animation_body(fade_name(transition), "bg-main"@, next_wait),
                ),
            ],
    {
        let mut items: Vec<Result<TranspileResult, Failure>> = Vec::new();
        let effect = match transition {
            TransitionType::BlackIn | TransitionType::WhiteIn => "enter",
            TransitionType::BlackOut | TransitionType::WhiteOut => "exit",
        };
        items.push(
            Ok(
                TranspileResult::Action(
                    Action::SetAnimation(
                        SetAnimation {
                            animation: String::from_str(effect),
                            target: String::from_str("bg-main"),
                            next: next_wait,
                        },
                    ),
                ),
            ),
        );
        assert(produced(items@) =~= seq![produced_one(items@[0])]);
        items
    }

    /// Translates a caption: a choice that bears the caption leads to the
    /// next scene, which is written to from then on.
    pub fn transpile_telop(&mut self, text: String) -> (items: Vec<
        Result<TranspileResult, Failure>,
    >)
        ensures
            final(self).scene() == scene_after(old(self).scene()),
            final(self).context() == old(self).context(),
            final(self).waiting() == old(self).waiting(),
            produced(items@) == seq![
                Produced::Line(choose_body(scene_file(final(self).scene()), text@)),
                Produced::Scene(scene_file(final(self).scene())),
            ],
    {
        let mut items: Vec<Result<TranspileResult, Failure>> = Vec::new();
        let scene = self.next_scene();
        items.push(
            Ok(
                TranspileResult::Action(
                    Action::Choose(ChooseAction { file: scene.clone(), text }),
                ),
            ),
        );
        items.push(Ok(TranspileResult::Scene(scene)));
        assert(produced(items@) =~= seq![produced_one(items@[0]), produced_one(items@[1])]);
        items
    }

    /// Puts `model` on the stage, in place of the figure of its number or
    /// last.
    fn put(&mut self, model: Model)
        requires
            old(self).wf(),
        ensures
            final(self).wf(),
            final(self).context() == put(old(self).context(), model@),
            final(self).scene() == old(self).scene(),
            final(self).waiting() == old(self).waiting(),
    {
        let ghost figure = model@;
        match self.find(model.id) {
            Some(i) => {
                self.models.set(i, model);
                proof {
                    let want = put(old(self).context(), figure);
                    assert(self.context().figures =~= want.figures);
                    lemma_update_keeps_figures(old(self).context(), i as int, figure);
                }
            },
            None => {
                self.models.push(model);
                proof {
                    let want = put(old(self).context(), figure);
                    assert(self.context().figures =~= want.figures);
                }
            },
        }
    }

    /// Translates the coming, going or moving of a figure. A figure that
    /// comes or moves is on the stage afterwards as the action says; one that
    /// goes is hidden. A figure that is to go or to move and is not on the
    /// stage is reported.
    pub fn transpile_layout(
        &mut self,
        model: String,
        motion: Motion,
        side: LayoutSide,
        kind: LayoutType,
        next_wait: bool,
    ) -> (items: Vec<Result<TranspileResult, Failure>>)
        requires
            old(self).wf(),
        ensures
            final(self).wf(),
            final(self).scene() == old(self).scene(),
            final(self).waiting() == old(self).waiting(),
            (final(self).context(), produced(items@)) == layout_outcome(
                old(self).context(),
                model@,
                motion,
                side,
                kind,
                next_wait,
            ),
    {
        let mut items: Vec<Result<TranspileResult, Failure>> = Vec::new();
        let id = motion.character;
        let known = self.find(id);
        match kind {
            LayoutType::Hide => match known {
                Some(i) => {
                    let _ = self.models.remove(i);
                    proof {
                        assert(self.context().figures =~= old(self).context().left(id).figures);
                    }
                    items.push(Self::hidden(id, next_wait));
                },
                None => {
                    items.push(Err(Failure::Script(ScriptError::IdNotFound(id))));
                },
            },
            _ => {
                let appear = match kind {
                    LayoutType::Appear => true,
                    _ => false,
                };
                if appear || known.is_some() {
                    let figure = Model {
                        id,
                        path: model,
                        side: FigureSide::from(side.to),
                        transform: Transform::new_x(side.to_x),
                        motion: Some(motion.motion.clone()),
                        expression: Some(motion.expression.clone()),
                    };
                    items.push(Self::show(&figure, next_wait));
                    self.put(figure);
                } else {
                    items.push(Err(Failure::Script(ScriptError::IdNotFound(id))));
                }
            },
        }
        assert(produced(items@) =~= seq![produced_one(items@[0])]);
        items
    }

    /// Translates a change of the motion of a figure. A figure that is not on
    /// the stage is reported, and comes on the stage with the model `model`.
    pub fn transpile_motion(&mut self, model: String, motion: Motion, next_wait: bool) -> (items:
        Vec<Result<TranspileResult, Failure>>)
        requires
            old(self).wf(),
        ensures
            final(self).wf(),
            final(self).scene() == old(self).scene(),
            final(self).waiting() == old(self).waiting(),
            (final(self).context(), produced(items@)) == motion_outcome(
                old(self).context(),
                model@,
                motion,
                next_wait,
            ),
    {
        let mut items: Vec<Result<TranspileResult, Failure>> = Vec::new();
        let id = motion.character;
        match self.find(id) {
            Some(i) => {
                let mut figure = self.models[i].clone();
                figure.motion = Some(motion.motion.clone());
                figure.expression = Some(motion.expression.clone());
                items.push(Self::show(&figure, next_wait));
                self.models.set(i, figure);
                proof {
                    let want = old(self).context().moved(id, motion.motion@, motion.expression@);
                    assert(self.context().figures =~= want.figures);
                    lemma_update_keeps_figures(old(self).context(), i as int, want.figures[i as int]);
                    assert(produced(items@) =~= seq![produced_one(items@[0])]);
                }
            },
            None => {
                let figure = Model {
                    id,
                    path: model,
                    side: FigureSide::Center,
                    transform: Transform::new_x(0),
                    motion: Some(motion.motion.clone()),
                    expression: Some(motion.expression.clone()),
                };
                items.push(Err(Failure::Script(ScriptError::IdNotFound(id))));
                items.push(Self::show(&figure, next_wait));
                self.put(figure);
                proof {
                    assert(produced(items@) =~= seq![
                        produced_one(items@[0]),
                        produced_one(items@[1]),
                    ]);
                }
            },
        }
        items
    }

    /// Translates one cleaned action. `next_wait` is whether the action
    /// behind it waits.
    pub fn transpile(&mut self, action: internal::Action, next_wait: bool) -> (items: Vec<
        Result<TranspileResult, Failure>,
    >)
        requires
            old(self).wf(),
        ensures
            final(self).wf(),
            final(self).waiting() == old(self).waiting(),
            (final(self).scene(), final(self).context(), produced(items@)) == outcome(
                old(self).scene(),
                old(self).context(),
                action.detail,
                next_wait,
            ),
    {
        match action.detail {
            ActionDetail::Say { name, text, characters, motions } => Self::transpile_say(
                name,
                text,
                characters,
                next_wait,
            ),
            ActionDetail::Bgm(sound) => Self::transpile_bgm(sound),
            ActionDetail::Sound(sound) => Self::transpile_sound(sound),
            ActionDetail::Background(image) => self.transpile_background(image, next_wait),
            ActionDetail::CardStill(image) => self.transpile_cardstill(image),
            ActionDetail::Transition(transition) => Self::transpile_transition(
                transition,
                next_wait,
            ),
            ActionDetail::Telop(text) => self.transpile_telop(text),
            ActionDetail::Layout { model, motion, side, kind } => self.transpile_layout(
                model,
                motion,
                side,
                kind,
                next_wait,
            ),
            ActionDetail::Motion { model, motion } => self.transpile_motion(
                model,
                motion,
                next_wait,
            ),
            ActionDetail::Unknown => {
                let mut items: Vec<Result<TranspileResult, Failure>> = Vec::new();
                items.push(Err(Failure::Script(ScriptError::Unknown)));
                assert(produced(items@) =~= seq![produced_one(items@[0])]);
                items
            },
        }
    }

    /// Takes in what was made of an action.
    pub fn feed(&mut self, items: Vec<Result<TranspileResult, Failure>>)
        ensures
            final(self).waiting() == old(self).waiting() + items@,
            final(self).context() == old(self).context(),
            final(self).scene() == old(self).scene(),
    {
        let mut items = items;
        let mut queue: VecDeque<Result<TranspileResult, Failure>> = VecDeque::new();
        let ghost all = items@;
        while items.len() > 0
            invariant
                queue@ + items@.reverse() == all.reverse(),
            decreases items@.len(),
        {
            let ghost before = items@;
            let item = items.pop().unwrap();
            queue.push_back(item);
            proof {
                assert(before.reverse() =~= seq![item] + items@.reverse());
                assert(queue@ + items@.reverse() =~= all.reverse());
            }
        }
        proof {
            assert(queue@ =~= all.reverse());
        }
        while queue.len() > 0
            invariant
                self.waiting() + queue@.reverse() == old(self).waiting() + all,
                self.context() == old(self).context(),
                self.scene() == old(self).scene(),
            decreases queue@.len(),
        {
            let ghost before = queue@;
            let item = queue.pop_back().unwrap();
            self.pending.push_back(item);
            proof {
                assert(before.reverse() =~= seq![item] + queue@.reverse());
                assert(self.waiting() + queue@.reverse() =~= old(self).waiting() + all);
            }
        }
        proof {
            assert(queue@.reverse() =~= Seq::empty());
            assert(self.waiting() + Seq::empty() =~= self.waiting());
            assert(all.reverse().reverse() =~= all);
        }
    }

    /// Hands on the oldest item that waits, if one does.
    pub fn pop(&mut self) -> (item: Option<Result<TranspileResult, Failure>>)
        ensures
            final(self).context() == old(self).context(),
            final(self).scene() == old(self).scene(),
            match item {
                Some(x) => old(self).waiting().len() > 0 && x == old(self).waiting()[0]
                    && final(self).waiting() == old(self).waiting().drop_first(),
                None => old(self).waiting().len() == 0 && final(self).waiting() == old(self).waiting(),
            },
    {
        self.pending.pop_front()
    }
}

impl Transpiler for DefaultTranspiler {
    open spec fn queue(&self) -> Seq<Result<TranspileResult, Failure>> {
        self.waiting()
    }

    fn next(&mut self) -> (item: Option<Result<TranspileResult, Failure>>) {
        self.pop()
    }
}

} // verus!
