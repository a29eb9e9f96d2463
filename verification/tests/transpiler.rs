use bd2wg::error::{ConvertError, TranspileErrorKind};
use bd2wg::models::bestdori::{
    Action, Effect, EffectAction, LayoutAction, LayoutSide, LayoutSideType, LayoutType, Motion,
    MotionAction, Resource, ResourcePath, ResourceType as Owner, SoundAction, Story, TalkAction,
};
use bd2wg::models::webgal::{self, Actionable, FigureSide, ResourceType as Kind};
use bd2wg::services::pipeline::transpile::{scene_files, state_of};
use bd2wg::services::resolver::Resolver;
use bd2wg::services::transpiler::Transpiler;
use bd2wg::traits::asset::Asset;
use bd2wg::traits::pipeline::TranspileState;
use bd2wg::traits::resolve::ResourceType;
use bd2wg::traits::transpile::{Transpile, TranspileResult};

fn custom(url: &str) -> Resource {
    Resource { kind: Owner::Custom, path: ResourcePath::Url { url: url.to_string() } }
}

fn bundled(file: &str, bundle: &str) -> Resource {
    Resource {
        kind: Owner::Bandori,
        path: ResourcePath::File { file: file.to_string(), bundle: Some(bundle.to_string()) },
    }
}

fn motion(character: u8, motion: &str, expression: &str) -> Motion {
    Motion { character, motion: motion.to_string(), expression: expression.to_string() }
}

fn side(to: LayoutSideType, to_x: i16) -> LayoutSide {
    LayoutSide { from: LayoutSideType::Center, to, from_x: 0, to_x }
}

fn layout(kind: LayoutType, model: &str, m: Motion, s: LayoutSide, wait: bool) -> Action {
    Action::Layout(LayoutAction { wait, kind, model: model.to_string(), motion: m, side: s })
}

fn talk(name: &str, text: &str, motions: Vec<Motion>, characters: Vec<u8>, wait: bool) -> Action {
    Action::Talk(TalkAction {
        wait,
        name: name.to_string(),
        text: text.to_string(),
        motions,
        characters,
    })
}

fn effect(effect: Effect, wait: bool) -> Action {
    Action::Effect(EffectAction { wait, effect })
}

fn run(actions: Vec<Action>) -> TranspileResult {
    Transpiler::new(Resolver::new()).transpile(&Story(actions))
}

fn texts(result: &TranspileResult) -> Vec<(String, String)> {
    result.story.0.iter().map(|scene| (scene.path.clone(), scene.to_string())).collect()
}

fn kind_of(error: &ConvertError) -> &TranspileErrorKind {
    match error {
        ConvertError::Transpile(e) => &e.error,
        _ => panic!("a failure of the translation"),
    }
}

#[test]
fn an_empty_script_is_an_empty_start_scene() {
    let result = run(Vec::new());
    assert_eq!(texts(&result), vec![("start.txt".to_string(), String::new())]);
    assert!(result.resources.is_empty());
    assert!(result.errors.is_empty());
    assert_eq!(result.story.len(), (1, 0));
    assert_eq!(result.story.0[0].relative_path(), "scene/start.txt");
    assert_eq!(result.story.0[0].rooted_path(), "scene/start.txt");
    assert_eq!(
        result.story.0[0].absolute_path(&std::path::PathBuf::from("out")),
        std::path::PathBuf::from("out/scene/start.txt")
    );
}

#[test]
fn a_line_waits_for_a_click_unless_the_next_action_does_not_wait() {
    let result = run(vec![
        talk("Soyo", "one", Vec::new(), vec![39, 40], false),
        talk("Anon", "two", Vec::new(), Vec::new(), true),
        talk("Soyo", "three", Vec::new(), vec![39], false),
    ]);
    assert_eq!(
        texts(&result)[0].1,
        "Soyo:one -id -figureId=39;\nAnon:two -notend;\nSoyo:three -notend -id -figureId=39;\n"
    );
    assert!(result.errors.is_empty());
}

#[test]
fn music_and_effects_are_scheduled_once() {
    let song = custom("https://example.com/song");
    let sound = |bgm: Option<Resource>, se: Option<Resource>| {
        Action::Sound(SoundAction { wait: false, bgm, se })
    };
    let result = run(vec![
        sound(Some(song.clone()), None),
        sound(None, Some(song.clone())),
        sound(Some(song.clone()), Some(custom("https://example.com/clap"))),
    ]);
    assert_eq!(
        texts(&result)[0].1,
        "bgm:https___example.com_song.mp3;\n\
         playEffect:https___example.com_song.mp3;\n\
         bgm:https___example.com_song.mp3;\n\
         playEffect:https___example.com_clap.mp3;\n"
    );
    let urls: Vec<&str> = result.resources.iter().map(|r| r.url.as_str()).collect();
    assert_eq!(urls, vec!["https://example.com/song", "https://example.com/clap"]);
    assert!(result.errors.is_empty());
    assert_eq!(result.story.len(), (1, 4));
}

#[test]
fn a_sound_that_does_not_resolve_is_reported_and_the_other_is_still_played() {
    let bad = bundled("x", "bundle");
    let result = run(vec![Action::Sound(SoundAction {
        wait: false,
        bgm: Some(bad.clone()),
        se: Some(custom("https://example.com/clap")),
    })]);
    assert_eq!(texts(&result)[0].1, "playEffect:https___example.com_clap.mp3;\n");
    assert_eq!(result.errors.len(), 1);
    match kind_of(&result.errors[0]) {
        TranspileErrorKind::Resolve(e) => {
            assert_eq!(e.kind, ResourceType::Bgm);
            assert_eq!(e.resource, bad);
        }
        other => panic!("the music does not resolve, got {other:?}"),
    }
    match &result.errors[0] {
        ConvertError::Transpile(e) => assert!(matches!(*e.action, Action::Sound(_))),
        _ => panic!("a failure of the translation"),
    }
}

#[test]
fn transitions_and_captions() {
    let result = run(vec![
        effect(Effect::BlackOut, false),
        effect(Effect::Telop { text: "Chapter 1".to_string() }, true),
        effect(Effect::WhiteIn, false),
        effect(Effect::Telop { text: "Chapter 2".to_string() }, false),
        effect(Effect::BlackIn, false),
        effect(Effect::WhiteOut, false),
    ]);
    assert_eq!(
        texts(&result),
        vec![
            (
                "start.txt".to_string(),
                "setAnimation:exit -target=bg-main;\nchoose:Chapter 1:scene-1.txt;\n".to_string()
            ),
            (
                "scene-1.txt".to_string(),
                "setAnimation:enter -target=bg-main -next;\nchoose:Chapter 2:scene-2.txt;\n"
                    .to_string()
            ),
            (
                "scene-2.txt".to_string(),
                "setAnimation:enter -target=bg-main -next;\nsetAnimation:exit -target=bg-main -next;\n"
                    .to_string()
            ),
        ]
    );
    assert_eq!(result.story.len(), (3, 6));
}

#[test]
fn figures_come_move_and_go() {
    let result = run(vec![
        layout(
            LayoutType::Appear,
            "036_casual",
            motion(36, "smile01", "smile"),
            side(LayoutSideType::Center, 0),
            false,
        ),
        layout(
            LayoutType::Move,
            "036_casual",
            motion(36, "walk01", "default"),
            side(LayoutSideType::RightOver, 50),
            false,
        ),
        Action::Motion(MotionAction {
            wait: false,
            model: "036_casual".to_string(),
            motion: motion(36, "angry01", "angry"),
        }),
        talk("Soyo", "...", vec![motion(36, "sad01", "sad")], vec![36], false),
        layout(
            LayoutType::Hide,
            "",
            motion(36, "", ""),
            side(LayoutSideType::Center, 0),
            false,
        ),
    ]);
    assert!(result.errors.is_empty());
    assert_eq!(
        texts(&result)[0].1,
        "changeFigure:036_casual -id=36 -next -transform={\"position\":{\"x\":0}} -motion=smile01 -expression=smile;\n\
         changeFigure:036_casual -id=36 -next -transform={\"position\":{\"x\":50}} -motion=walk01 -expression=default -right;\n\
         changeFigure:036_casual -id=36 -next -transform={\"position\":{\"x\":50}} -motion=angry01 -expression=angry -right;\n\
         changeFigure:036_casual -id=36 -next -transform={\"position\":{\"x\":50}} -motion=sad01 -expression=sad -right;\n\
         Soyo:... -notend -id -figureId=36;\n\
         changeFigure:none -id=36 -next;\n"
    );
    assert_eq!(result.resources.len(), 1);
    assert_eq!(result.resources[0].kind, Kind::Figure);
    assert_eq!(result.resources[0].path, "036_casual/");
    assert_eq!(
        result.resources[0].url,
        "https://bestdori.com/assets/jp/live2d/chara/036_casual_rip/buildData.asset"
    );
}

#[test]
fn a_figure_that_first_moves_by_a_motion_action_is_known_by_its_configuration() {
    let result = run(vec![Action::Motion(MotionAction {
        wait: false,
        model: "037_school".to_string(),
        motion: motion(37, "idle01", "default"),
    })]);
    assert_eq!(
        texts(&result)[0].1,
        "changeFigure:037_school/model.json -id=37 -next -transform={\"position\":{\"x\":0}} -motion=idle01 -expression=default;\n"
    );
    assert_eq!(result.resources.len(), 1);
}

#[test]
fn figures_that_are_not_on_the_stage_are_reported() {
    let result = run(vec![
        layout(LayoutType::Hide, "", motion(2, "", ""), side(LayoutSideType::Center, 0), false),
        layout(LayoutType::Move, "", motion(3, "a", "b"), side(LayoutSideType::LeftInside, 1), false),
        talk("A", "b", vec![motion(4, "a", "b"), motion(5, "a", "b")], Vec::new(), false),
        Action::Unknown,
    ]);
    assert_eq!(texts(&result)[0].1, "A:b -notend;\n");
    assert_eq!(result.errors.len(), 4);
    assert!(matches!(kind_of(&result.errors[0]), TranspileErrorKind::UninitFigure(2)));
    assert!(matches!(kind_of(&result.errors[1]), TranspileErrorKind::UninitFigure(3)));
    assert!(matches!(kind_of(&result.errors[2]), TranspileErrorKind::UninitFigure(4)));
    assert!(matches!(kind_of(&result.errors[3]), TranspileErrorKind::Unknown));
    assert!(result.resources.is_empty());
}

#[test]
fn a_background_is_remembered_and_a_still_puts_the_stage_back() {
    let room = bundled("room", "bg/scenario1");
    let card = bundled("card", "characters/resourceset/res001");
    let result = run(vec![
        effect(Effect::ChangeBackground { image: room.clone() }, false),
        layout(
            LayoutType::Appear,
            "001_live",
            motion(1, "smile01", "smile"),
            side(LayoutSideType::LeftOver, -20),
            false,
        ),
        layout(
            LayoutType::Appear,
            "002_live",
            motion(2, "nod01", "default"),
            side(LayoutSideType::RightInside, 20),
            true,
        ),
        effect(Effect::ChangeCardStill { image: card.clone() }, false),
        effect(Effect::ChangeBackground { image: room.clone() }, false),
    ]);
    assert!(result.errors.is_empty());
    let expected = [
        "changeBg:bg/scenario1-room.png -next;",
        "changeFigure:001_live -id=1 -transform={\"position\":{\"x\":0}} -motion=smile01 -expression=smile;",
        "changeFigure:002_live -id=2 -next -transform={\"position\":{\"x\":0}} -motion=nod01 -expression=default;",
        "changeFigure:none -id=1 -next;",
        "changeFigure:none -id=2 -next;",
        "changeBg:none;",
        "changeBg:characters/resourceset/res001-card.png -next;",
        "changeBg:none;",
        "changeFigure:001_live -id=1 -next -transform={\"position\":{\"x\":0}} -motion=smile01 -expression=smile;",
        "changeFigure:002_live -id=2 -next -transform={\"position\":{\"x\":0}} -motion=nod01 -expression=default;",
        "changeBg:bg/scenario1-room.png;",
        "changeBg:bg/scenario1-room.png -next;",
        "",
    ]
    .join("\n");
    assert_eq!(texts(&result)[0].1, expected);
    let paths: Vec<&str> = result.resources.iter().map(|r| r.path.as_str()).collect();
    assert_eq!(
        paths,
        vec![
            "bg/scenario1-room.png",
            "001_live/",
            "002_live/",
            "characters/resourceset/res001-card.png"
        ]
    );
}

#[test]
fn an_image_that_does_not_resolve_changes_nothing() {
    let bad = Resource {
        kind: Owner::Common,
        path: ResourcePath::File { file: "x".to_string(), bundle: None },
    };
    let result = run(vec![
        effect(Effect::ChangeBackground { image: bad.clone() }, false),
        effect(Effect::ChangeCardStill { image: bad.clone() }, false),
    ]);
    assert_eq!(texts(&result)[0].1, "");
    assert_eq!(result.errors.len(), 2);
    for error in &result.errors {
        match kind_of(error) {
            TranspileErrorKind::Resolve(e) => {
                assert_eq!(e.kind, ResourceType::Image);
                assert_eq!(e.resource, bad);
            }
            other => panic!("the image does not resolve, got {other:?}"),
        }
    }
}

#[test]
fn stepping_by_hand_gives_what_a_run_gives() {
    let actions = vec![
        effect(Effect::BlackIn, false),
        talk("A", "b", Vec::new(), vec![1], false),
    ];
    let mut transpiler = Transpiler::new(Resolver::new());
    assert!(transpiler.transpile_action(&actions[0], true).is_ok());
    assert!(transpiler.transpile_action(&actions[1], false).is_ok());
    assert!(transpiler.transpile_action(&Action::Unknown, false).is_err());
    let by_hand = transpiler.run(&Story(Vec::new()));
    assert_eq!(
        texts(&by_hand)[0].1,
        "setAnimation:enter -target=bg-main;\nA:b -notend -id -figureId=1;\n"
    );
}

#[test]
fn sides_of_the_stage() {
    assert_eq!(FigureSide::from(LayoutSideType::Center), FigureSide::Center);
    assert_eq!(FigureSide::from(LayoutSideType::LeftOver), FigureSide::Left);
    assert_eq!(FigureSide::from(LayoutSideType::LeftInside), FigureSide::Left);
    assert_eq!(FigureSide::from(LayoutSideType::RightOver), FigureSide::Right);
    assert_eq!(FigureSide::from(LayoutSideType::RightInside), FigureSide::Right);
    assert_eq!(FigureSide::default(), FigureSide::Center);
    assert_eq!(webgal::Transform::default(), webgal::Transform::new_with_x(0));
    assert_eq!(
        webgal::ChangeBgAction::default().to_string(),
        "changeBg:none;"
    );
}

#[test]
fn a_script_starts_with_its_music_and_its_background() {
    let song = custom("https://example.com/song");
    let room = bundled("room", "bg/scenario1");
    let actions = vec![talk("A", "b", Vec::new(), Vec::new(), true), Action::Unknown];
    let story = Story::new(Some(song.clone()), Some(room.clone()), actions.clone());
    assert_eq!(story.len(), 4);
    assert_eq!(
        story.0[0],
        Action::Sound(SoundAction { wait: false, bgm: Some(song), se: None })
    );
    assert_eq!(
        story.0[1],
        Action::Effect(EffectAction {
            wait: false,
            effect: Effect::ChangeBackground { image: room.clone() }
        })
    );
    assert_eq!(&story.0[2..], &actions[..]);
    let waits: Vec<bool> = story.iter_with_wait().iter().map(|pair| pair.1).collect();
    assert_eq!(waits, vec![false, true, false, false]);
    assert!(std::ptr::eq(story.iter_with_wait()[2].0, &story.0[2]));
    let bare = Story::new(None, Some(room), Vec::new());
    assert_eq!(bare.len(), 1);
    assert!(!bare.0[0].is_wait());
    assert!(Story::new(None, None, Vec::new()).iter_with_wait().is_empty());
    assert!(talk("a", "b", Vec::new(), Vec::new(), true).is_wait());
    assert!(!Action::Unknown.is_wait());
}

#[test]
fn what_is_written_after_a_translation() {
    let result = run(vec![
        effect(Effect::BlackIn, false),
        effect(Effect::Telop { text: "t".to_string() }, false),
        effect(Effect::BlackOut, false),
    ]);
    assert_eq!(state_of(&result.story), TranspileState { scene: 2, action: 3 });
    assert_eq!(
        scene_files(&result.story),
        vec![
            (
                "scene/start.txt".to_string(),
                "setAnimation:enter -target=bg-main -next;\nchoose:t:scene-1.txt;\n".to_string()
            ),
            (
                "scene/scene-1.txt".to_string(),
                "setAnimation:exit -target=bg-main -next;\n".to_string()
            ),
        ]
    );
}
