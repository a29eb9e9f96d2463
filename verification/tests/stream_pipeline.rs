use bd2wg::pipeline::constant::{DOWNLOAD_RETRY_TIMES, WEBGAL_START_SCENE};
use bd2wg::pipeline::definition::{BindTicket, Resource, ResourceTask, Root};
use bd2wg::pipeline::downloader::{
    plan_bound, plan_download, Attempt, DownloadCommand, DownloaderState, Next, Retry,
};
use bd2wg::pipeline::error::{
    DownloadError, DownloadErrorKind, Failure, PipelineError, ScriptError,
};
use bd2wg::pipeline::models::bestdori::{
    Action, Address, AddressPath, AddressType, EffectAction, EffectDetail, LayoutAction,
    LayoutSide, LayoutSideType, LayoutType, Motion, MotionAction, SoundAction, TalkAction,
};
use bd2wg::pipeline::models::internal::{self, ActionDetail, TransitionType};
use bd2wg::pipeline::models::webgal::Actionable;
use bd2wg::pipeline::pipeline::{InnerState, Procedure, Written};
use bd2wg::pipeline::purifier::{DefaultPurifier, PurifyResult};
use bd2wg::pipeline::resolver::{BestdoliConfig, DefaultResolver};
use bd2wg::pipeline::transpiler::{DefaultTranspiler, TranspileResult};
use bd2wg::text::trim;

fn resolver() -> DefaultResolver {
    DefaultResolver::with_config(
        "out/".to_string(),
        BestdoliConfig {
            bundle_root: "https://bestdori.com/assets/jp/".to_string(),
            bgm_bundle: "sound/scenario/bgm/".to_string(),
            se_common: "https://bestdori.com/res/CommonSE/".to_string(),
            live2d_bundle: "live2d/chara/".to_string(),
        },
    )
}

fn custom(url: &str) -> Address {
    Address { kind: AddressType::Custom, path: AddressPath::Url { url: url.to_string() } }
}

fn common(file: &str) -> Address {
    Address {
        kind: AddressType::Common,
        path: AddressPath::File { file: file.to_string(), bundle: None },
    }
}

fn motion(character: u8, motion: &str, expression: &str) -> Motion {
    Motion { character, motion: motion.to_string(), expression: expression.to_string() }
}

fn side(to: LayoutSideType, to_x: i16) -> LayoutSide {
    LayoutSide { from: LayoutSideType::Center, to, from_x: 0, to_x }
}

fn lines(items: &[Result<TranspileResult, Failure>]) -> Vec<String> {
    items
        .iter()
        .map(|item| match item {
            Ok(TranspileResult::Action(a)) => a.to_string(),
            Ok(TranspileResult::Scene(s)) => format!("-> {s}"),
            Err(Failure::Script(ScriptError::IdNotFound(id))) => format!("! {id}"),
            Err(Failure::Script(ScriptError::Unknown)) => "! unknown".to_string(),
            Err(other) => panic!("unexpected {other:?}"),
        })
        .collect()
}

fn kinds(items: &[Result<PurifyResult, Failure>]) -> Vec<&'static str> {
    items
        .iter()
        .map(|item| match item {
            Ok(PurifyResult::Action(_)) => "action",
            Ok(PurifyResult::ResourceTask(ResourceTask::Task(_))) => "task",
            Ok(PurifyResult::ResourceTask(ResourceTask::Bind { .. })) => "bind",
            Err(_) => "error",
        })
        .collect()
}

#[test]
fn a_resource_without_an_address_cannot_be_fetched() {
    let known = Resource {
        root: Root::Bgm,
        url: Some("https://example.com/a".to_string()),
        path: "a.mp3".to_string(),
    };
    match plan_download("out/", &known).unwrap() {
        DownloadCommand::Task { url, path } => {
            assert_eq!(url, "https://example.com/a");
            assert_eq!(path, "out/bgm/a.mp3");
        }
        other => panic!("a task, got {other:?}"),
    }
    let unknown = Resource { root: Root::Bgm, url: None, path: "a.mp3".to_string() };
    match plan_download("out/", &unknown) {
        Err(Failure::Download(e)) => {
            assert!(matches!(e.kind, DownloadErrorKind::UrlMissing));
            assert_eq!(e.context(), "");
        }
        other => panic!("no address, got {other:?}"),
    }
    let commands = plan_bound("out/", &vec![unknown, known]);
    assert_eq!(commands.len(), 2);
    assert!(matches!(&commands[0], DownloadCommand::Task { url, path }
        if url.is_empty() && path == "out/bgm/a.mp3"));
    assert!(matches!(&commands[1], DownloadCommand::Task { url, .. }
        if url == "https://example.com/a"));
    assert!(plan_bound("out/", &Vec::new()).is_empty());
}

#[test]
fn a_download_is_tried_three_times() {
    assert_eq!(DOWNLOAD_RETRY_TIMES, 3);
    let mut retry = Retry::new();
    let mut attempts = 0;
    let outcome = loop {
        assert!(retry.may_try());
        attempts += 1;
        let failed = if attempts == 2 {
            Attempt::TimedOut
        } else {
            Attempt::Failed(DownloadError::new(DownloadErrorKind::HttpStatus(500)))
        };
        match retry.next(failed) {
            Next::Retry => {}
            Next::Finish(outcome) => break outcome,
        }
    };
    assert_eq!(attempts, 3);
    assert!(!retry.may_try());
    assert!(matches!(outcome.unwrap_err().kind, DownloadErrorKind::HttpStatus(500)));

    let mut retry = Retry::new();
    assert!(matches!(retry.next(Attempt::TimedOut), Next::Retry));
    assert!(matches!(retry.next(Attempt::Done), Next::Finish(Ok(()))));

    let mut retry = Retry::new();
    retry.next(Attempt::TimedOut);
    retry.next(Attempt::TimedOut);
    match retry.next(Attempt::TimedOut) {
        Next::Finish(Err(e)) => assert!(matches!(e.kind, DownloadErrorKind::Timeout)),
        other => panic!("the download is over, got {other:?}"),
    }
}

#[test]
fn tasks_are_counted_and_failures_are_named() {
    let mut state = DownloaderState::new();
    assert!(!state.is_busy());
    state.task_started();
    state.task_started();
    assert!(state.is_busy());
    state.task_finished(Ok(()), "a.url", "a.bin");
    assert_eq!(state.task_count, 1);
    state.task_finished(Err(DownloadError::new(DownloadErrorKind::Timeout)), "b.url", "b.bin");
    assert_eq!(state.task_count, 0);
    state.task_finished(
        Err(DownloadError {
            kind: DownloadErrorKind::WorkerPanic,
            url: Some("own".to_string()),
            path: None,
        }),
        "c.url",
        "c.bin",
    );
    assert_eq!(state.task_count, 0);
    assert!(!state.is_busy());
    state.bind_started();
    assert_eq!(state.bind_active_count, 1);
    state.bind_finished();
    state.bind_finished();
    assert_eq!(state.bind_active_count, 0);
    let errors = state.take_error();
    assert_eq!(errors.len(), 2);
    assert_eq!(errors[0].url.as_deref(), Some("b.url"));
    assert_eq!(errors[0].path.as_deref(), Some("b.bin"));
    assert_eq!(errors[0].context(), ", url: b.url, path: b.bin");
    assert_eq!(errors[1].url.as_deref(), Some("own"));
    assert_eq!(errors[1].path.as_deref(), Some("c.bin"));
    assert!(state.take_error().is_empty());
    state.task_started();
    state.shutdown = true;
    assert!(!state.is_busy());
}

#[test]
fn the_stages_of_a_pipeline() {
    let mut state = InnerState::new();
    assert_eq!(state.check_start(), Ok(()));
    let expected = [
        Procedure::ParsingScript,
        Procedure::Transpiling,
        Procedure::WaitingForDownload,
        Procedure::Extracting,
        Procedure::Completed,
        Procedure::Completed,
    ];
    for stage in expected {
        state.advance();
        assert_eq!(state.procedure, stage);
        assert_eq!(state.check_start(), Err(PipelineError::BadStart));
    }
    assert_eq!(Procedure::WaitingForDownload.to_string(), "WaitingForDownload");
    assert_eq!(Procedure::NotStarted.as_str(), "NotStarted");
    assert_eq!(WEBGAL_START_SCENE, "start.txt");
}

#[test]
fn what_a_pipeline_counts() {
    let mut state = InnerState::new();
    let action = internal::Action { wait: false, detail: ActionDetail::Unknown };
    assert!(state.purified(Ok(PurifyResult::Action(action))).is_some());
    let task = ResourceTask::Bind {
        url: "u".to_string(),
        task: BindTicket { character: 1, model: "m".to_string() },
    };
    assert!(state.purified(Ok(PurifyResult::ResourceTask(task))).is_some());
    assert!(state.purified(Err(Failure::Script(ScriptError::Unknown))).is_none());
    state.transpiled(Written::Scene);
    state.transpiled(Written::Action);
    state.transpiled(Written::Action);
    state.note(Failure::Script(ScriptError::IdNotFound(3)));
    let snapshot = state.take_state().unwrap();
    assert_eq!(snapshot.procedure, Procedure::NotStarted);
    assert_eq!(snapshot.scene_count, 1);
    assert_eq!(snapshot.download_task_count, 1);
    assert_eq!(snapshot.purified_action_count, 1);
    assert_eq!(snapshot.transpiled_action_count, 2);
    assert_eq!(snapshot.error.len(), 2);
    assert!(state.take_state().unwrap().error.is_empty());

    state.scene_count = u16::MAX;
    state.transpiled(Written::Scene);
    assert_eq!(state.scene_count, 0);

    state.break_down(Failure::Pipeline(PipelineError::Paniced));
    assert!(state.is_paniced());
    assert_eq!(state.check_start(), Err(PipelineError::Paniced));
    assert!(matches!(
        state.take_state(),
        Err(Failure::Pipeline(PipelineError::Paniced))
    ));
    assert_eq!(state.error.len(), 1);
}

#[test]
fn cleaning_resolves_what_an_action_refers_to() {
    let mut resolver = resolver();
    let talk = TalkAction {
        wait: true,
        name: "Soyo".to_string(),
        text: "hi".to_string(),
        motions: vec![motion(39, "smile01", "smile"), motion(39, "smile01", "")],
        characters: vec![39],
    };
    let items = DefaultPurifier::purify(&mut resolver, Action::Talk(talk));
    assert_eq!(kinds(&items), vec!["task", "task", "action"]);
    match items.last().unwrap() {
        Ok(PurifyResult::Action(a)) => {
            assert!(a.wait);
            assert!(matches!(&a.detail, ActionDetail::Say { name, .. } if name == "Soyo"));
        }
        other => panic!("the line, got {other:?}"),
    }

    let sound = SoundAction { wait: false, bgm: Some(custom("https://a/b")), se: Some(common("clap")) };
    let items = DefaultPurifier::purify_sound(&mut resolver, sound.clone());
    assert_eq!(kinds(&items), vec!["action", "task", "action", "task"]);
    assert!(matches!(&items[0], Ok(PurifyResult::Action(a))
        if a.detail == ActionDetail::Bgm("https___a_b.mp3".to_string())));
    assert!(matches!(&items[2], Ok(PurifyResult::Action(a))
        if a.detail == ActionDetail::Sound("https___bestdori.com_res_CommonSE_clap.mp3.mp3".to_string())));
    let items = DefaultPurifier::purify_sound(&mut resolver, sound);
    assert_eq!(kinds(&items), vec!["action", "action"]);
    let bad = SoundAction { wait: false, bgm: Some(common("x")), se: Some(common("clap")) };
    assert_eq!(kinds(&DefaultPurifier::purify_sound(&mut resolver, bad)), vec!["error"]);
    let none = SoundAction { wait: false, bgm: None, se: None };
    assert!(DefaultPurifier::purify_sound(&mut resolver, none).is_empty());
}

#[test]
fn cleaning_figures_and_effects() {
    let mut resolver = resolver();
    let appear = LayoutAction {
        wait: false,
        kind: LayoutType::Appear,
        model: "036_casual".to_string(),
        motion: motion(36, "smile01", "smile"),
        side: side(LayoutSideType::LeftOver, 3),
    };
    let items = DefaultPurifier::purify_layout(&mut resolver, appear);
    assert_eq!(kinds(&items), vec!["bind", "task", "action"]);
    match items.last().unwrap() {
        Ok(PurifyResult::Action(a)) => match &a.detail {
            ActionDetail::Layout { model, kind, .. } => {
                assert_eq!(model, "036/model/036_casual/model.json");
                assert_eq!(*kind, LayoutType::Appear);
            }
            other => panic!("a layout, got {other:?}"),
        },
        other => panic!("the action, got {other:?}"),
    }
    let again = MotionAction {
        wait: true,
        model: String::new(),
        motion: motion(36, "smile01", "smile"),
    };
    let items = DefaultPurifier::purify_motion(&mut resolver, again);
    assert_eq!(kinds(&items), vec!["action"]);
    assert!(matches!(&items[0], Ok(PurifyResult::Action(a))
        if matches!(&a.detail, ActionDetail::Motion { model, .. }
            if model == "036/model/036_casual/model.json")));

    let fade = EffectAction { wait: true, effect: EffectDetail::WhiteOut };
    let items = DefaultPurifier::purify_effect(&mut resolver, fade);
    assert!(matches!(&items[..], [Ok(PurifyResult::Action(a))]
        if a.wait && a.detail == ActionDetail::Transition(TransitionType::WhiteOut)));
    let telop = EffectAction { wait: false, effect: EffectDetail::Telop { text: "t".to_string() } };
    let items = DefaultPurifier::purify_effect(&mut resolver, telop);
    assert!(matches!(&items[..], [Ok(PurifyResult::Action(a))]
        if a.detail == ActionDetail::Telop("t".to_string())));
    let image = EffectAction {
        wait: false,
        effect: EffectDetail::ChangeBackground { image: custom("https://a/bg") },
    };
    assert_eq!(kinds(&DefaultPurifier::purify_effect(&mut resolver, image)), vec!["action", "task"]);
    let still = EffectAction {
        wait: false,
        effect: EffectDetail::ChangeCardStill { image: custom("https://a/bg") },
    };
    let items = DefaultPurifier::purify_effect(&mut resolver, still);
    assert_eq!(kinds(&items), vec!["action"]);
    assert!(matches!(&items[0], Ok(PurifyResult::Action(a))
        if a.detail == ActionDetail::CardStill("https___a_bg.png".to_string())));
    let bad = EffectAction {
        wait: false,
        effect: EffectDetail::ChangeBackground { image: common("x") },
    };
    assert_eq!(kinds(&DefaultPurifier::purify_effect(&mut resolver, bad)), vec!["error"]);
    assert_eq!(kinds(&DefaultPurifier::purify(&mut resolver, Action::Unknown)), vec!["error"]);
    assert_eq!(kinds(&DefaultPurifier::purify_unknown()), vec!["error"]);

    assert!(TransitionType::is_fade(&EffectDetail::BlackIn));
    assert!(!TransitionType::is_fade(&EffectDetail::Telop { text: String::new() }));
    assert_eq!(TransitionType::unwrap_from(EffectDetail::BlackOut), TransitionType::BlackOut);
    assert_eq!(TransitionType::unwrap_from(EffectDetail::WhiteIn), TransitionType::WhiteIn);
}

#[test]
fn items_are_handed_on_in_their_order() {
    let mut purifier = DefaultPurifier::new();
    assert!(purifier.pop().is_none());
    let mut resolver = resolver();
    let sound = SoundAction { wait: false, bgm: Some(custom("https://a/b")), se: None };
    purifier.feed(DefaultPurifier::purify_sound(&mut resolver, sound));
    purifier.feed(DefaultPurifier::purify_unknown());
    let mut handed = Vec::new();
    while let Some(item) = purifier.pop() {
        handed.push(item);
    }
    assert_eq!(kinds(&handed), vec!["action", "task", "error"]);
}

#[test]
fn the_second_stage_starts_with_the_first_scene() {
    let mut transpiler = DefaultTranspiler::new();
    let mut first = Vec::new();
    while let Some(item) = transpiler.pop() {
        first.push(item);
    }
    assert_eq!(lines(&first), vec!["callScene:scene-1.txt", "-> scene-1.txt"]);
    let items = transpiler.transpile_telop("Chapter".to_string());
    assert_eq!(lines(&items), vec!["choose:Chapter:scene-2.txt", "-> scene-2.txt"]);
    transpiler.feed(items);
    transpiler.feed(DefaultTranspiler::transpile_bgm("a.mp3".to_string()));
    let mut handed = Vec::new();
    while let Some(item) = transpiler.pop() {
        handed.push(item);
    }
    assert_eq!(
        lines(&handed),
        vec!["choose:Chapter:scene-2.txt", "-> scene-2.txt", "bgm:a.mp3"]
    );
}

#[test]
fn lines_of_the_second_stage() {
    assert_eq!(
        lines(&DefaultTranspiler::transpile_say(
            "  Soyo ".to_string(),
            "\tごきげんよう \u{3000}".to_string(),
            vec![39, 40],
            true
        )),
        vec!["Soyo:ごきげんよう -id -figureId=39"]
    );
    assert_eq!(
        lines(&DefaultTranspiler::transpile_say("A".to_string(), " ".to_string(), vec![], false)),
        vec!["A: -notend"]
    );
    assert_eq!(lines(&DefaultTranspiler::transpile_sound("s.mp3".to_string())), vec!["playEffect:s.mp3"]);
    assert_eq!(
        lines(&DefaultTranspiler::transpile_transition(TransitionType::WhiteIn, true)),
        vec!["setAnimation:enter -target=bg-main -next"]
    );
    assert_eq!(
        lines(&DefaultTranspiler::transpile_transition(TransitionType::BlackOut, false)),
        vec!["setAnimation:exit -target=bg-main"]
    );
    assert_eq!(trim(" \t a b \n"), "a b");
    assert_eq!(trim("\u{a0}\u{2003}x\u{202f}"), "x");
    assert_eq!(trim("   "), "");
    assert_eq!(trim(""), "");
    assert_eq!(trim("\u{200b}x"), "\u{200b}x");
}

#[test]
fn figures_on_the_stage_of_the_second_stage() {
    let mut transpiler = DefaultTranspiler::new();
    let detail = |kind, id, model: &str, to, x| ActionDetail::Layout {
        model: model.to_string(),
        motion: motion(id, "smile01", "smile"),
        side: side(to, x),
        kind,
    };
    let step = |transpiler: &mut DefaultTranspiler, detail, next_wait| {
        lines(&transpiler.transpile(internal::Action { wait: false, detail }, next_wait))
    };
    assert_eq!(
        step(&mut transpiler, detail(LayoutType::Move, 1, "m1", LayoutSideType::Center, 0), false),
        vec!["! 1"]
    );
    assert_eq!(
        step(&mut transpiler, detail(LayoutType::Hide, 1, "m1", LayoutSideType::Center, 0), false),
        vec!["! 1"]
    );
    assert_eq!(
        step(&mut transpiler, detail(LayoutType::Appear, 1, "m1", LayoutSideType::LeftInside, -5), true),
        vec![r#"changeFigure:m1 -id=1 -next -transform={"position":{"x":-5}} -motion=smile01 -expression=smile -left"#]
    );
    assert_eq!(
        step(&mut transpiler, detail(LayoutType::Move, 1, "m2", LayoutSideType::RightOver, 9), false),
        vec![r#"changeFigure:m2 -id=1 -transform={"position":{"x":9}} -motion=smile01 -expression=smile -right"#]
    );
    let changed = ActionDetail::Motion { model: "ignored".to_string(), motion: motion(1, "cry01", "cry") };
    assert_eq!(
        step(&mut transpiler, changed, false),
        vec![r#"changeFigure:m2 -id=1 -transform={"position":{"x":9}} -motion=cry01 -expression=cry -right"#]
    );
    let unseen = ActionDetail::Motion { model: "m3".to_string(), motion: motion(2, "nod01", "nod") };
    assert_eq!(
        step(&mut transpiler, unseen, true),
        vec![
            "! 2".to_string(),
            r#"changeFigure:m3 -id=2 -next -transform={"position":{"x":0}} -motion=nod01 -expression=nod"#
                .to_string()
        ]
    );
    assert_eq!(
        step(&mut transpiler, ActionDetail::Background("room.png".to_string()), false),
        vec!["changeBg:room.png -next"]
    );
    assert_eq!(
        step(&mut transpiler, ActionDetail::CardStill("card.png".to_string()), false),
        vec![
            "setTextbox:hide".to_string(),
            "changeFigure:none -id=1 -next".to_string(),
            "changeFigure:none -id=2 -next".to_string(),
            "changeBg:card.png".to_string(),
            "changeBg:room.png -next".to_string(),
            r#"changeFigure:m2 -id=1 -next -transform={"position":{"x":9}} -motion=cry01 -expression=cry -right"#.to_string(),
            r#"changeFigure:m3 -id=2 -next -transform={"position":{"x":0}} -motion=nod01 -expression=nod"#.to_string(),
            "setTextbox:on".to_string(),
        ]
    );
    assert_eq!(
        step(&mut transpiler, detail(LayoutType::Hide, 1, "", LayoutSideType::Center, 0), true),
        vec!["changeFigure:none -id=1 -next"]
    );
    assert_eq!(step(&mut transpiler, ActionDetail::Unknown, false), vec!["! unknown"]);
    assert_eq!(
        step(&mut transpiler, ActionDetail::Sound("s".to_string()), false),
        vec!["playEffect:s"]
    );
    assert_eq!(step(&mut transpiler, ActionDetail::Bgm("b".to_string()), false), vec!["bgm:b"]);
}
