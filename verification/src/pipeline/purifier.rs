//! The first stage of the streaming pipeline: the resources that an action
//! refers to are resolved, and what has to be fetched is handed on beside the
//! action.

use std::collections::VecDeque;
use vstd::prelude::*;

use crate::pipeline::definition::{ResourceTask, ResourceView};
use crate::pipeline::error::{
    failure_view, Failure, FailureView, ResolveCommonKind, ScriptError,
};
use crate::pipeline::models::bestdori::{
    Action, EffectAction, EffectDetail, LayoutAction, LayoutSide, LayoutType, Motion,
    MotionAction, SoundAction, TalkAction,
};
use crate::pipeline::models::internal::{self, ActionDetail, TransitionType};
use crate::pipeline::resolver::{
    common_found, model_found, CommonFound, ModelFound, ResolveCommonResult, ResolveModelResult,
    Resolver,
};

verus! {

/// What the first stage hands on: a cleaned action, or something to fetch.
#[derive(Debug)]
pub enum PurifyResult {
    Action(internal::Action),
    ResourceTask(ResourceTask),
}

/// What the first stage hands on for one action, in order. A failure is the
/// last thing it hands on for an action.
pub type Items = Vec<Result<PurifyResult, Failure>>;

/// The first stage, as the pipeline sees it: something that hands on item
/// after item until the script is at its end.
pub trait Purifier {
    /// What waits to be handed on, oldest first.
    spec fn queue(&self) -> Seq<Result<PurifyResult, Failure>>;

    /// The next item, if there is one: the oldest that waits.
    fn next(&mut self) -> (item: Option<Result<PurifyResult, Failure>>)
        ensures
            match item {
                Some(x) => old(self).queue().len() > 0 && x == old(self).queue()[0]
                    && final(self).queue() == old(self).queue().drop_first(),
                None => old(self).queue().len() == 0 && final(self).queue() == old(self).queue(),
            },
    ;
}

/// What a cleaned action does, as a mathematical value.
pub enum DetailView {
    Say { name: Seq<char>, text: Seq<char>, characters: Seq<u8>, motions: Seq<Motion> },
    Bgm(Seq<char>),
    Sound(Seq<char>),
    Background(Seq<char>),
    CardStill(Seq<char>),
    Transition(TransitionType),
    Telop(Seq<char>),
    Layout { model: Seq<char>, motion: Motion, side: LayoutSide, kind: LayoutType },
    Motion { model: Seq<char>, motion: Motion },
    Unknown,
}

/// The mathematical value of what a cleaned action does.
pub open spec fn detail_view(detail: ActionDetail) -> DetailView {
    match detail {
        ActionDetail::Say { name, text, characters, motions } => DetailView::Say {
            name: name@,
            text: text@,
            characters: characters@,
            motions: motions@,
        },
        ActionDetail::Bgm(path) => DetailView::Bgm(path@),
        ActionDetail::Sound(path) => DetailView::Sound(path@),
        ActionDetail::Background(path) => DetailView::Background(path@),
        ActionDetail::CardStill(path) => DetailView::CardStill(path@),
        ActionDetail::Transition(transition) => DetailView::Transition(transition),
        ActionDetail::Telop(text) => DetailView::Telop(text@),
        ActionDetail::Layout { model, motion, side, kind } => DetailView::Layout {
            model: model@,
            motion,
            side,
            kind,
        },
        ActionDetail::Motion { model, motion } => DetailView::Motion { model: model@, motion },
        ActionDetail::Unknown => DetailView::Unknown,
    }
}

/// What the first stage hands on, as a mathematical value.
pub enum ItemView {
    /// A cleaned action.
    Action { wait: bool, detail: DetailView },
    /// A resource to fetch.
    Task(ResourceView),
    /// A manifest to fetch, for the model `model` of `character`.
    Bind { url: Seq<char>, character: u8, model: Seq<char> },
    /// A failure.
    Failure(FailureView),
}

/// The mathematical value of one item.
pub open spec fn item_view(item: Result<PurifyResult, Failure>) -> ItemView {
    match item {
        Ok(PurifyResult::Action(a)) => ItemView::Action {
            wait: a.wait,
            detail: detail_view(a.detail),
        },
        Ok(PurifyResult::ResourceTask(ResourceTask::Task(r))) => ItemView::Task(r@),
        Ok(PurifyResult::ResourceTask(ResourceTask::Bind { url, task })) => ItemView::Bind {
            url: url@,
            character: task.character,
            model: task.model@,
        },
        Err(e) => ItemView::Failure(failure_view(e)),
    }
}

/// The mathematical value of a run of items.
pub open spec fn items_view(items: Seq<Result<PurifyResult, Failure>>) -> Seq<ItemView> {
    items.map_values(|item: Result<PurifyResult, Failure>| item_view(item))
}

/// What the lookup of a part of a model adds to the items of an action: the
/// file or the manifest to fetch, nothing for what is known, or the failure.
pub open spec fn found_items(found: ModelFound) -> Seq<ItemView> {
    match found {
        ModelFound::Normal(resource) => seq![ItemView::Task(resource)],
        ModelFound::Bind { url, character, model } => seq![
            ItemView::Bind { url, character, model },
        ],
        ModelFound::Existing => Seq::empty(),
        ModelFound::Failed(failure) => seq![ItemView::Failure(failure)],
    }
}

/// The cleaned action of a plain resource that lands at `path`, for the use
/// `kind`.
pub open spec fn common_action(kind: ResolveCommonKind, wait: bool, path: Seq<char>) -> ItemView {
    ItemView::Action {
        wait,
        detail: match kind {
            ResolveCommonKind::Bgm => DetailView::Bgm(path),
            ResolveCommonKind::Se => DetailView::Sound(path),
            ResolveCommonKind::Background => DetailView::Background(path),
            ResolveCommonKind::CardStill => DetailView::CardStill(path),
        },
    }
}

/// What the lookup of a plain resource adds to the items of an action: the
/// cleaned action with the path of the resource, and behind it the task that
/// fetches the resource where it is new; or the failure.
pub open spec fn common_items(found: CommonFound, kind: ResolveCommonKind, wait: bool) -> Seq<
    ItemView,
> {
    match found {
        CommonFound::New(resource) => seq![
            common_action(kind, wait, resource.path),
            ItemView::Task(resource),
        ],
        CommonFound::Existing(resource) => seq![common_action(kind, wait, resource.path)],
        CommonFound::Failed(failure) => seq![ItemView::Failure(failure)],
    }
}

/// Adds what the lookup of a part of a model gives to the items of an action,
/// and tells whether the action goes on: it does not after a failure.
pub fn push_model_result(items: &mut Items, result: Result<ResolveModelResult, Failure>) -> (go_on:
    bool)
    ensures
        items_view(final(items)@) == items_view(old(items)@) + found_items(model_found(result)),
        final(items)@.len() == old(items)@.len() + found_items(model_found(result)).len(),
        forall|i: int| 0 <= i < old(items)@.len() ==> final(items)@[i] == old(items)@[i],
        result matches Err(e) ==> final(items)@.last() == Err::<PurifyResult, Failure>(e),
        go_on == result is Ok,
{
    match result {
        Ok(ResolveModelResult::Normal(res)) => {
            items.push(Ok(PurifyResult::ResourceTask(ResourceTask::Task(res))));
            assert(items_view(items@) =~= items_view(old(items)@) + found_items(
                model_found(result),
            ));
            true
        },
        Ok(ResolveModelResult::Bind { url, task }) => {
            items.push(Ok(PurifyResult::ResourceTask(ResourceTask::Bind { url, task })));
            assert(items_view(items@) =~= items_view(old(items)@) + found_items(
                model_found(result),
            ));
            true
        },
        Ok(ResolveModelResult::Existing) => {
            assert(items_view(items@) =~= items_view(old(items)@) + found_items(
                model_found(result),
            ));
            true
        },
        Err(e) => {
            items.push(Err(e));
            assert(items_view(items@) =~= items_view(old(items)@) + found_items(
                model_found(result),
            ));
            false
        },
    }
}

/// Adds what the lookup of a plain resource gives to the items of an action:
/// the cleaned action and the task, or the failure. Tells whether the action
/// goes on: it does not after a failure.
pub fn push_common_result(
    items: &mut Items,
    result: Result<ResolveCommonResult, Failure>,
    kind: ResolveCommonKind,
    wait: bool,
) -> (go_on: bool)
    ensures
        items_view(final(items)@) == items_view(old(items)@) + common_items(
            common_found(result),
            kind,
            wait,
        ),
        result matches Err(e) ==> final(items)@.last() == Err::<PurifyResult, Failure>(e),
        go_on == result is Ok,
{
    match result {
        Ok(found) => {
            let path = found.as_ref().path.clone();
            let detail = match kind {
                ResolveCommonKind::Bgm => ActionDetail::Bgm(path),
                ResolveCommonKind::Se => ActionDetail::Sound(path),
                ResolveCommonKind::Background => ActionDetail::Background(path),
                ResolveCommonKind::CardStill => ActionDetail::CardStill(path),
            };
            items.push(Ok(PurifyResult::Action(internal::Action { wait, detail })));
            match found {
                ResolveCommonResult::New(res) => {
                    items.push(Ok(PurifyResult::ResourceTask(ResourceTask::Task(res))));
                },
                ResolveCommonResult::Existing(_) => {},
            }
            assert(items_view(items@) =~= items_view(old(items)@) + common_items(
                common_found(result),
                kind,
                wait,
            ));
            true
        },
        Err(e) => {
            items.push(Err(e));
            assert(items_view(items@) =~= items_view(old(items)@) + common_items(
                common_found(result),
                kind,
                wait,
            ));
            false
        },
    }
}

/// What the lookups for the motions of a line of dialogue, from the motion
/// with number `i` on, make of a resolver in the state `s`, what they hand
/// on, and whether the line goes on. Of each motion the motion is looked up,
/// and then its expression if it has one; the first failure ends the line.
pub open spec fn talk_resolved<R: Resolver>(s: R::V, motions: Seq<Motion>, i: int) -> (
    R::V,
    Seq<ItemView>,
    bool,
)
    decreases motions.len() - i,
{
    if i < 0 || i >= motions.len() {
        (s, Seq::empty(), true)
    } else {
        let m = motions[i];
        let (s1, f1) = R::motion(s, m.character, m.motion@);
        if f1 is Failed {
            (s1, found_items(f1), false)
        } else {
            let (s2, f2) = if m.expression@.len() > 0 {
                R::expression(s1, m.character, m.expression@)
            } else {
                (s1, ModelFound::Existing)
            };
            if f2 is Failed {
                (s2, found_items(f1) + found_items(f2), false)
            } else {
                let (s3, rest, go_on) = talk_resolved::<R>(s2, motions, i + 1);
                (s3, found_items(f1) + found_items(f2) + rest, go_on)
            }
        }
    }
}

/// What cleaning a line of dialogue makes of a resolver in the state `s`, and
/// what it hands on: what the lookups of its motions hand on, and then,
/// unless one of them failed, the line itself.
pub open spec fn purified_talk<R: Resolver>(s: R::V, talk: TalkAction) -> (R::V, Seq<ItemView>) {
    let (after, items, go_on) = talk_resolved::<R>(s, talk.motions@, 0);
    if go_on {
        (
            after,
            items.push(
                ItemView::Action {
                    wait: talk.wait,
                    detail: DetailView::Say {
                        name: talk.name@,
                        text: talk.text@,
                        characters: talk.characters@,
                        motions: talk.motions@,
                    },
                },
            ),
        )
    } else {
        (after, items)
    }
}

/// What the lookup of the effect of a sound action makes of a resolver in
/// the state `s`, and what the action hands on, where the lookup of its music
/// handed on `first`.
pub open spec fn sound_effect_purified<R: Resolver>(
    s: R::V,
    first: Seq<ItemView>,
    sound: SoundAction,
) -> (R::V, Seq<ItemView>) {
    match sound.se {
        Some(addr) => {
            let (after, found) = R::common(s, ResolveCommonKind::Se, addr@);
            (after, first + common_items(found, ResolveCommonKind::Se, sound.wait))
        },
        None => (s, first),
    }
}

/// What cleaning a sound action makes of a resolver in the state `s`, and
/// what it hands on: the music first, then the effect, each as an action of
/// its own with the task that fetches it where it is new. A failure of the
/// music ends the action.
pub open spec fn purified_sound<R: Resolver>(s: R::V, sound: SoundAction) -> (R::V, Seq<ItemView>) {
    match sound.bgm {
        Some(addr) => {
            let (after, found) = R::common(s, ResolveCommonKind::Bgm, addr@);
            let first = common_items(found, ResolveCommonKind::Bgm, sound.wait);
            if found is Failed {
                (after, first)
            } else {
                sound_effect_purified::<R>(after, first, sound)
            }
        },
        None => sound_effect_purified::<R>(s, Seq::empty(), sound),
    }
}

/// What the lookups of the model and of the motion of a figure make of a
/// resolver in the state `s`, the path of the configuration of the model,
/// what the lookups hand on, and whether the action goes on: the motion is
/// looked up only where the model did not fail.
pub open spec fn figure_resolved<R: Resolver>(
    s: R::V,
    character: u8,
    model: Seq<char>,
    motion: Seq<char>,
) -> (R::V, Seq<char>, Seq<ItemView>, bool) {
    let (s1, path, f1) = R::model(s, character, model);
    if f1 is Failed {
        (s1, path, found_items(f1), false)
    } else {
        let (s2, f2) = R::motion(s1, character, motion);
        (s2, path, found_items(f1) + found_items(f2), !(f2 is Failed))
    }
}

/// What cleaning a change of the motion of a figure makes of a resolver in
/// the state `s`, and what it hands on: what the lookups of the model and the
/// motion hand on, and then, unless one of them failed, the action with the
/// path of the configuration of the model in place of its name.
pub open spec fn purified_motion<R: Resolver>(s: R::V, action: MotionAction) -> (
    R::V,
    Seq<ItemView>,
) {
    let (after, path, items, go_on) = figure_resolved::<R>(
        s,
        action.motion.character,
        action.model@,
        action.motion.motion@,
    );
    if go_on {
        (
            after,
            items.push(
                ItemView::Action {
                    wait: action.wait,
                    detail: DetailView::Motion { model: path, motion: action.motion },
                },
            ),
        )
    } else {
        (after, items)
    }
}

/// What cleaning the coming, going or moving of a figure makes of a resolver
/// in the state `s`, and what it hands on: what the lookups of the model and
/// the motion hand on, and then, unless one of them failed, the action with
/// the path of the configuration of the model in place of its name.
pub open spec fn purified_layout<R: Resolver>(s: R::V, action: LayoutAction) -> (
    R::V,
    Seq<ItemView>,
) {
    let (after, path, items, go_on) = figure_resolved::<R>(
        s,
        action.motion.character,
        action.model@,
        action.motion.motion@,
    );
    if go_on {
        (
            after,
            items.push(
                ItemView::Action {
                    wait: action.wait,
                    detail: DetailView::Layout {
                        model: path,
                        motion: action.motion,
                        side: action.side,
                        kind: action.kind,
                    },
                },
            ),
        )
    } else {
        (after, items)
    }
}

/// What cleaning a scene effect makes of a resolver in the state `s`, and
/// what it hands on. A background or a still is looked up and handed on with
/// the path of its resource, and behind it the task that fetches the resource
/// where it is new; a caption and a fade are handed on as they are.
pub open spec fn purified_effect<R: Resolver>(s: R::V, action: EffectAction) -> (
    R::V,
    Seq<ItemView>,
) {
    match action.effect {
        EffectDetail::ChangeBackground { image } => {
            let (after, found) = R::common(s, ResolveCommonKind::Background, image@);
            (after, common_items(found, ResolveCommonKind::Background, action.wait))
        },
        EffectDetail::ChangeCardStill { image } => {
            let (after, found) = R::common(s, ResolveCommonKind::CardStill, image@);
            (after, common_items(found, ResolveCommonKind::CardStill, action.wait))
        },
        EffectDetail::Telop { text } => (
            s,
            seq![ItemView::Action { wait: action.wait, detail: DetailView::Telop(text@) }],
        ),
        fade => (
            s,
            seq![
                ItemView::Action {
                    wait: action.wait,
                    detail: DetailView::Transition(TransitionType::of(fade)),
                },
            ],
        ),
    }
}

/// What cleaning one action makes of a resolver in the state `s`, and what
/// it hands on. An action of no known kind is a failure.
pub open spec fn purified<R: Resolver>(s: R::V, action: Action) -> (R::V, Seq<ItemView>) {
    match action {
        Action::Talk(talk) => purified_talk::<R>(s, talk),
        Action::Sound(sound) => purified_sound::<R>(s, sound),
        Action::Motion(motion) => purified_motion::<R>(s, motion),
        Action::Layout(layout) => purified_layout::<R>(s, layout),
        Action::Effect(effect) => purified_effect::<R>(s, effect),
        Action::Unknown => (s, seq![ItemView::Failure(FailureView::Script(ScriptError::Unknown))]),
    }
}

/// The first stage of the streaming pipeline.
pub struct DefaultPurifier {
    pending: VecDeque<Result<PurifyResult, Failure>>,
}

impl DefaultPurifier {
    /// What has been made of the actions so far and waits to be handed on.
    pub closed spec fn waiting(&self) -> Seq<Result<PurifyResult, Failure>> {
        self.pending@
    }

    /// A first stage that has taken in nothing.
    pub fn new() -> (purifier: Self)
        ensures
            purifier.waiting() == Seq::<Result<PurifyResult, Failure>>::empty(),
    {
        DefaultPurifier { pending: VecDeque::new() }
    }

    /// Cleans a line of dialogue: every motion and every expression that the
    /// figures take up is looked up, and then the line is handed on. After a
    /// failure nothing more is handed on for the action.
    pub fn purify_talk<R: Resolver>(resolver: &mut R, talk: TalkAction) -> (items: Items)
        requires
            old(resolver).ready(),
        ensures
            final(resolver).ready(),
            (final(resolver).state(), items_view(items@)) == purified_talk::<R>(
                old(resolver).state(),
                talk,
            ),
    {
        let mut items: Items = Vec::new();
        let mut i: usize = 0;
        let ghost motions = talk.motions@;
        let ghost whole = talk_resolved::<R>(resolver.state(), motions, 0);
        proof {
            let rest = talk_resolved::<R>(resolver.state(), motions, 0);
            assert(items_view(items@) + rest.1 =~= whole.1);
        }
        while i < talk.motions.len()
            invariant
                i <= motions.len(),
                motions == talk.motions@,
                resolver.ready(),
                whole == talk_resolved::<R>(old(resolver).state(), motions, 0),
                whole.0 == talk_resolved::<R>(resolver.state(), motions, i as int).0,
                whole.1 == items_view(items@) + talk_resolved::<R>(
                    resolver.state(),
                    motions,
                    i as int,
                ).1,
                whole.2 == talk_resolved::<R>(resolver.state(), motions, i as int).2,
            decreases motions.len() - i,
        {
            let ghost before = items_view(items@);
            let ghost s = resolver.state();
            let m = &talk.motions[i];
            let found = resolver.resolve_motion(m.character, m.motion.as_str());
            let ghost f1 = model_found(found);
            if !push_model_result(&mut items, found) {
                proof {
                    assert(items_view(items@) =~= before + talk_resolved::<R>(
                        s,
                        motions,
                        i as int,
                    ).1);
                }
                return items;
            }
            let ghost f2 = ModelFound::Existing;
            if !m.expression.as_str().is_empty() {
                let found = resolver.resolve_expression(m.character, m.expression.as_str());
                proof {
                    f2 = model_found(found);
                }
                if !push_model_result(&mut items, found) {
                    proof {
                        assert(items_view(items@) =~= before + talk_resolved::<R>(
                            s,
                            motions,
                            i as int,
                        ).1);
                    }
                    return items;
                }
            }
            proof {
                let rest = talk_resolved::<R>(resolver.state(), motions, i + 1);
                assert(items_view(items@) =~= before + found_items(f1) + found_items(f2));
                assert(items_view(items@) + rest.1 =~= before + (found_items(f1) + found_items(f2)
                    + rest.1));
            }
            i += 1;
        }
        let ghost before = items_view(items@);
        items.push(
            Ok(
                PurifyResult::Action(
                    internal::Action {
                        wait: talk.wait,
                        detail: ActionDetail::Say {
                            name: talk.name,
                            text: talk.text,
                            characters: talk.characters,
                            motions: talk.motions,
                        },
                    },
                ),
            ),
        );
        proof {
            assert(before + Seq::<ItemView>::empty() =~= before);
            assert(items_view(items@) =~= purified_talk::<R>(old(resolver).state(), talk).1);
        }
        items
    }

    /// Cleans a sound action: the music and the effect are looked up, each is
    /// handed on as an action of its own with the path of its resource, and
    /// behind it the task that fetches the resource where it is new. After a
    /// failure nothing more is handed on for the action.
    pub fn purify_sound<R: Resolver>(resolver: &mut R, sound: SoundAction) -> (items: Items)
        requires
            old(resolver).ready(),
        ensures
            final(resolver).ready(),
            (final(resolver).state(), items_view(items@)) == purified_sound::<R>(
                old(resolver).state(),
                sound,
            ),
    {
        let mut items: Items = Vec::new();
        assert(items_view(items@) =~= Seq::empty());
        if let Some(addr) = &sound.bgm {
            let found = resolver.resolve_bgm(addr);
            if !push_common_result(&mut items, found, ResolveCommonKind::Bgm, sound.wait) {
                assert(items_view(items@) =~= purified_sound::<R>(old(resolver).state(), sound).1);
                return items;
            }
        }
        let ghost first = items_view(items@);
        if let Some(addr) = &sound.se {
            let found = resolver.resolve_se(addr);
            let _ = push_common_result(&mut items, found, ResolveCommonKind::Se, sound.wait);
        }
        proof {
            assert(items_view(items@) =~= purified_sound::<R>(old(resolver).state(), sound).1);
        }
        items
    }

    /// Looks up the model and the motion of a figure, and adds what the
    /// lookups give to the items of the action. `model` is replaced by the
    /// path of the configuration of the model. After a failure nothing more
    /// is to be handed on for the action.
    fn resolve_figure<R: Resolver>(
        resolver: &mut R,
        items: &mut Items,
        character: u8,
        model: &mut String,
        motion: &str,
    ) -> (go_on: bool)
        requires
            old(resolver).ready(),
        ensures
            final(resolver).ready(),
            ({
                let (after, path, added, goes) = figure_resolved::<R>(
                    old(resolver).state(),
                    character,
                    old(model)@,
                    motion@,
                );
                &&& final(resolver).state() == after
                &&& final(model)@ == path
                &&& items_view(final(items)@) == items_view(old(items)@) + added
                &&& go_on == goes
            }),
    {
        let found = resolver.resolve_model(character, model);
        if !push_model_result(items, found) {
            return false;
        }
        let ghost first = items_view(items@);
        let ghost f1 = model_found(found);
        let found = resolver.resolve_motion(character, motion);
        let go_on = push_model_result(items, found);
        proof {
            assert(items_view(items@) =~= items_view(old(items)@) + (found_items(f1)
                + found_items(model_found(found))));
        }
        go_on
    }

    /// Cleans a change of the motion of a figure: its model and its motion are
    /// looked up, and the action is handed on with the path of the
    /// configuration of the model in place of its name.
    pub fn purify_motion<R: Resolver>(resolver: &mut R, action: MotionAction) -> (items: Items)
        requires
            old(resolver).ready(),
        ensures
            final(resolver).ready(),
            (final(resolver).state(), items_view(items@)) == purified_motion::<R>(
                old(resolver).state(),
                action,
            ),
    {
        let mut items: Items = Vec::new();
        assert(items_view(items@) =~= Seq::empty());
        let mut model = action.model;
        let go_on = Self::resolve_figure(
            resolver,
            &mut items,
            action.motion.character,
            &mut model,
            action.motion.motion.as_str(),
        );
        let ghost added = items_view(items@);
        proof {
            let resolved = figure_resolved::<R>(
                old(resolver).state(),
                action.motion.character,
                action.model@,
                action.motion.motion@,
            );
            assert(added =~= resolved.2);
        }
        if !go_on {
            return items;
        }
        items.push(
            Ok(
                PurifyResult::Action(
                    internal::Action {
                        wait: action.wait,
                        detail: ActionDetail::Motion { model, motion: action.motion },
                    },
                ),
            ),
        );
        proof {
            assert(items_view(items@) =~= purified_motion::<R>(old(resolver).state(), action).1);
        }
        items
    }

    /// Cleans the coming, going or moving of a figure: its model and its
    /// motion are looked up, and the action is handed on with the path of the
    /// configuration of the model in place of its name.
    pub fn purify_layout<R: Resolver>(resolver: &mut R, action: LayoutAction) -> (items: Items)
        requires
            old(resolver).ready(),
        ensures
            final(resolver).ready(),
            (final(resolver).state(), items_view(items@)) == purified_layout::<R>(
                old(resolver).state(),
                action,
            ),
    {
        let mut items: Items = Vec::new();
        assert(items_view(items@) =~= Seq::empty());
        let mut model = action.model;
        let go_on = Self::resolve_figure(
            resolver,
            &mut items,
            action.motion.character,
            &mut model,
            action.motion.motion.as_str(),
        );
        let ghost added = items_view(items@);
        proof {
            let resolved = figure_resolved::<R>(
                old(resolver).state(),
                action.motion.character,
                action.model@,
                action.motion.motion@,
            );
            assert(added =~= resolved.2);
        }
        if !go_on {
            return items;
        }
        items.push(
            Ok(
                PurifyResult::Action(
                    internal::Action {
                        wait: action.wait,
                        detail: ActionDetail::Layout {
                            model,
                            motion: action.motion,
                            side: action.side,
                            kind: action.kind,
                        },
                    },
                ),
            ),
        );
        proof {
            assert(items_view(items@) =~= purified_layout::<R>(old(resolver).state(), action).1);
        }
        items
    }

    /// Cleans a scene effect. A background or a still is looked up and handed
    /// on with the path of its resource, and behind it the task that fetches
    /// the resource where it is new; a caption and a fade are handed on as
    /// they are.
    pub fn purify_effect<R: Resolver>(resolver: &mut R, action: EffectAction) -> (items: Items)
        requires
            old(resolver).ready(),
        ensures
            final(resolver).ready(),
            (final(resolver).state(), items_view(items@)) == purified_effect::<R>(
                old(resolver).state(),
                action,
            ),
    {
        let mut items: Items = Vec::new();
        assert(items_view(items@) =~= Seq::empty());
        let wait = action.wait;
        match action.effect {
            EffectDetail::ChangeBackground { image } => {
                let found = resolver.resolve_background(&image);
                let _ = push_common_result(&mut items, found, ResolveCommonKind::Background, wait);
            },
            EffectDetail::ChangeCardStill { image } => {
                let found = resolver.resolve_cardstill(&image);
                let _ = push_common_result(&mut items, found, ResolveCommonKind::CardStill, wait);
            },
            EffectDetail::Telop { text } => {
                items.push(
                    Ok(
                        PurifyResult::Action(
                            internal::Action { wait, detail: ActionDetail::Telop(text) },
                        ),
                    ),
                );
            },
            other => {
                items.push(
                    Ok(
                        PurifyResult::Action(
                            internal::Action {
                                wait,
                                detail: ActionDetail::Transition(TransitionType::unwrap_from(other)),
                            },
                        ),
                    ),
                );
            },
        }
        proof {
            assert(items_view(items@) =~= purified_effect::<R>(old(resolver).state(), action).1);
        }
        items
    }

    /// Cleans an action of no known kind: it is reported.
    pub fn purify_unknown() -> (items: Items)
        ensures
            items_view(items@) == seq![ItemView::Failure(FailureView::Script(ScriptError::Unknown))],
    {
        let mut items: Items = Vec::new();
        items.push(Err(Failure::Script(ScriptError::Unknown)));
        assert(items_view(items@) =~= seq![
            ItemView::Failure(FailureView::Script(ScriptError::Unknown)),
        ]);
        items
    }

    /// Cleans one action.
    pub fn purify<R: Resolver>(resolver: &mut R, action: Action) -> (items: Items)
        requires
            old(resolver).ready(),
        ensures
            final(resolver).ready(),
            (final(resolver).state(), items_view(items@)) == purified::<R>(
                old(resolver).state(),
                action,
            ),
    {
        match action {
            Action::Talk(talk) => Self::purify_talk(resolver, talk),
            Action::Sound(sound) => Self::purify_sound(resolver, sound),
            Action::Motion(motion) => Self::purify_motion(resolver, motion),
            Action::Layout(layout) => Self::purify_layout(resolver, layout),
            Action::Effect(effect) => Self::purify_effect(resolver, effect),
            Action::Unknown => Self::purify_unknown(),
        }
    }

    /// Takes in what was made of an action.
    pub fn feed(&mut self, items: Items)
        ensures
            final(self).waiting() == old(self).waiting() + items@,
    {
        let mut items = items;
        let mut queue: VecDeque<Result<PurifyResult, Failure>> = VecDeque::new();
        let ghost all = items@;
        while items.len() > 0
            invariant
                queue@ + items@.reverse() == all.reverse(),
            decreases items@.len(),
        {
            let ghost before = items@;
            let item = items.pop().unwrap();
            queue.push_back(item);
            proof {
                assert(before.reverse() =~= seq![item] + items@.reverse());
                assert(queue@ + items@.reverse() =~= all.reverse());
            }
        }
        proof {
            assert(queue@ =~= all.reverse());
        }
        while queue.len() > 0
            invariant
                self.waiting() + queue@.reverse() == old(self).waiting() + all,
            decreases queue@.len(),
        {
            let ghost before = queue@;
            let item = queue.pop_back().unwrap();
            self.pending.push_back(item);
            proof {
                assert(before.reverse() =~= seq![item] + queue@.reverse());
                assert(self.waiting() + queue@.reverse() =~= old(self).waiting() + all);
            }
        }
        proof {
            assert(queue@.reverse() =~= Seq::empty());
            assert(self.waiting() + Seq::empty() =~= self.waiting());
            assert(all.reverse().reverse() =~= all);
        }
    }

    /// Hands on the oldest item that waits, if one does.
    pub fn pop(&mut self) -> (item: Option<Result<PurifyResult, Failure>>)
        ensures
            match item {
                Some(x) => old(self).waiting().len() > 0 && x == old(self).waiting()[0]
                    && final(self).waiting() == old(self).waiting().drop_first(),
                None => old(self).waiting().len() == 0 && final(self).waiting() == old(self).waiting(),
            },
    {
        self.pending.pop_front()
    }
}

impl Purifier for DefaultPurifier {
    open spec fn queue(&self) -> Seq<Result<PurifyResult, Failure>> {
        self.waiting()
    }

    fn next(&mut self) -> (item: Option<Result<PurifyResult, Failure>>) {
        self.pop()
    }
}

} // verus!
