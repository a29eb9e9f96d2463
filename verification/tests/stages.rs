use bd2wg::models::webgal::{Resource, ResourceType, Scene};
use bd2wg::pipeline::error::{Failure, ResolveCommonKind, ResolveError};
use bd2wg::pipeline::models::bestdori::{
    Action, Address, AddressPath, AddressType, EffectAction, EffectDetail, Motion, MotionAction,
    SoundAction,
};
use bd2wg::pipeline::models::internal::ActionDetail;
use bd2wg::pipeline::models::live2d::{Bundle, ModelBundle};
use bd2wg::pipeline::purifier::{DefaultPurifier, Purifier, PurifyResult};
use bd2wg::pipeline::resolver::{
    BestdoliConfig, DefaultResolver, ResolveCommonResult, ResolveModelResult, Resolver,
};
use bd2wg::pipeline::definition::ResourceTask;
use bd2wg::pipeline::transpiler::{DefaultTranspiler, TranspileResult, Transpiler};
use bd2wg::traits::asset::Asset;
use std::path::PathBuf;

fn fresh() -> DefaultResolver {
    DefaultResolver::with_config(
        "out/".to_string(),
        BestdoliConfig {
            bundle_root: "https://bestdori.com/assets/jp/".to_string(),
            bgm_bundle: "sound/scenario/bgm/".to_string(),
            se_common: "https://bestdori.com/res/CommonSE/".to_string(),
            live2d_bundle: "live2d/chara/".to_string(),
        },
    )
}

fn at(url: &str) -> Address {
    Address { kind: AddressType::Custom, path: AddressPath::Url { url: url.to_string() } }
}

fn unbundled(kind: AddressType) -> Address {
    Address { kind, path: AddressPath::File { file: "x".to_string(), bundle: None } }
}

fn all_of<P: Purifier>(stage: &mut P) -> Vec<Result<PurifyResult, Failure>> {
    let mut handed = Vec::new();
    while let Some(item) = stage.next() {
        handed.push(item);
    }
    handed
}

fn all_written<T: Transpiler>(stage: &mut T) -> Vec<Result<TranspileResult, Failure>> {
    let mut handed = Vec::new();
    while let Some(item) = stage.next() {
        handed.push(item);
    }
    handed
}

fn new_then_known<R: Resolver>(
    resolver: &mut R,
    look: fn(&mut R, &Address) -> Result<ResolveCommonResult, Failure>,
    addr: &Address,
    lost: &Address,
) {
    assert!(matches!(look(resolver, addr), Ok(ResolveCommonResult::New(_))));
    assert!(matches!(look(resolver, addr), Ok(ResolveCommonResult::Existing(_))));
    assert!(look(resolver, lost).is_err());
}

fn figure_of<R: Resolver>(resolver: &mut R) -> (String, Vec<&'static str>) {
    let mut model = "036_casual".to_string();
    let mut seen = Vec::new();
    seen.push(match resolver.resolve_model(36, &mut model) {
        Ok(ResolveModelResult::Bind { .. }) => "bind",
        Ok(ResolveModelResult::Normal(_)) => "file",
        Ok(ResolveModelResult::Existing) => "known",
        Err(_) => "error",
    });
    for _ in 0..2 {
        seen.push(match resolver.resolve_motion(36, "smile01") {
            Ok(ResolveModelResult::Normal(_)) => "file",
            Ok(ResolveModelResult::Existing) => "known",
            Ok(ResolveModelResult::Bind { .. }) => "bind",
            Err(_) => "error",
        });
    }
    for _ in 0..2 {
        seen.push(match resolver.resolve_expression(36, "smile") {
            Ok(ResolveModelResult::Normal(_)) => "file",
            Ok(ResolveModelResult::Existing) => "known",
            Ok(ResolveModelResult::Bind { .. }) => "bind",
            Err(_) => "error",
        });
    }
    (model, seen)
}

fn taken<R: Resolver>(resolver: &mut R) -> (usize, usize, usize) {
    let configs = resolver.get_model_config().len();
    let first = resolver.take_error().len();
    let second = resolver.take_error().len();
    (configs, first, second)
}

#[test]
fn an_asset_lies_below_the_root_in_the_directory_of_its_kind() {
    let music = Resource {
        kind: ResourceType::Bgm,
        url: "https://example.com/a.mp3".to_string(),
        path: "a.mp3".to_string(),
    };
    assert_eq!(music.rooted_path(), "bgm/a.mp3");
    assert_eq!(music.absolute_path(&PathBuf::from("out")), PathBuf::from("out/bgm/a.mp3"));
    assert_eq!(
        music.absolute_path(&PathBuf::from("/srv/game/")),
        PathBuf::from("/srv/game/bgm/a.mp3")
    );
    assert_ne!(music.absolute_path(&PathBuf::from("out")), PathBuf::from("out"));
    let figure = Resource {
        kind: ResourceType::Figure,
        url: "https://example.com/m".to_string(),
        path: "036_casual".to_string(),
    };
    assert_eq!(
        figure.absolute_path(&PathBuf::from("out")),
        PathBuf::from("out/figure/036_casual")
    );
    let scene = Scene::new("scene-2.txt");
    assert_eq!(scene.absolute_path(&PathBuf::from("out")), PathBuf::from("out/scene/scene-2.txt"));
    assert_eq!(scene.absolute_path(&PathBuf::new()), PathBuf::from("scene/scene-2.txt"));
}

#[test]
fn a_stage_hands_on_the_oldest_item_first() {
    let mut resolver = fresh();
    let mut purifier = DefaultPurifier::new();
    assert!(Purifier::next(&mut purifier).is_none());
    let sound = SoundAction { wait: true, bgm: Some(at("https://a/b")), se: None };
    purifier.feed(DefaultPurifier::purify_sound(&mut resolver, sound));
    purifier.feed(DefaultPurifier::purify_unknown());
    let handed = all_of(&mut purifier);
    assert_eq!(handed.len(), 3);
    match &handed[0] {
        Ok(PurifyResult::Action(a)) => {
            assert!(a.wait);
            assert!(matches!(a.detail, ActionDetail::Bgm(_)));
        }
        other => panic!("the music, got {other:?}"),
    }
    assert!(matches!(handed[1], Ok(PurifyResult::ResourceTask(ResourceTask::Task(_)))));
    assert!(handed[2].is_err());
    assert!(Purifier::next(&mut purifier).is_none());

    let mut transpiler = DefaultTranspiler::new();
    transpiler.feed(DefaultTranspiler::transpile_bgm("a.mp3".to_string()));
    let written = all_written(&mut transpiler);
    assert_eq!(written.len(), 3);
    assert!(matches!(written[0], Ok(TranspileResult::Action(_))));
    match &written[1] {
        Ok(TranspileResult::Scene(name)) => assert_eq!(name, "scene-1.txt"),
        other => panic!("the first scene, got {other:?}"),
    }
    assert!(matches!(written[2], Ok(TranspileResult::Action(_))));
    assert!(Transpiler::next(&mut transpiler).is_none());
}

#[test]
fn a_resolver_behind_its_trait_remembers_what_it_handed_out() {
    let mut resolver = fresh();
    let common = unbundled(AddressType::Common);
    let bandori = unbundled(AddressType::Bandori);
    new_then_known(&mut resolver, Resolver::resolve_bgm, &at("https://a/bgm"), &common);
    new_then_known(&mut resolver, Resolver::resolve_se, &at("https://a/se"), &bandori);
    new_then_known(&mut resolver, Resolver::resolve_background, &at("https://a/bg"), &common);
    new_then_known(&mut resolver, Resolver::resolve_cardstill, &at("https://a/still"), &common);
    let (model, seen) = figure_of(&mut resolver);
    assert_eq!(model, "036/model/036_casual/model.json");
    assert_eq!(seen, vec!["bind", "file", "known", "file", "known"]);
    assert_eq!(taken(&mut resolver), (0, 0, 0));
}

#[test]
fn a_resolver_behind_its_trait_gives_up_its_failures_once() {
    let mut resolver = fresh();
    let mut model = "m".to_string();
    let ticket = match resolver.resolve_model(5, &mut model).unwrap() {
        ResolveModelResult::Bind { task, .. } => task,
        other => panic!("a manifest to fetch, got {other:?}"),
    };
    assert!(resolver.bind_done(&ticket, Err("broken".to_string())).is_empty());
    assert_eq!(taken(&mut resolver), (0, 1, 0));

    let mut model = "m".to_string();
    let ticket = match resolver.resolve_model(5, &mut model).unwrap() {
        ResolveModelResult::Bind { task, .. } => task,
        other => panic!("a manifest to fetch, got {other:?}"),
    };
    let part = |file: &str| Bundle { bundle: "b".to_string(), file: file.to_string() };
    resolver.bind_done(
        &ticket,
        Ok(ModelBundle::from_parts(part("m.moc.bytes"), part("m.physics.json"), vec![part("t.png")])),
    );
    assert_eq!(taken(&mut resolver), (1, 0, 0));
}

#[test]
fn a_figure_is_looked_up_model_first_and_then_its_motion() {
    let mut resolver = fresh();
    let action = MotionAction {
        wait: false,
        model: "036_casual".to_string(),
        motion: Motion {
            character: 36,
            motion: "smile01".to_string(),
            expression: String::new(),
        },
    };
    let items = DefaultPurifier::purify_motion(&mut resolver, action);
    assert_eq!(items.len(), 3);
    match &items[0] {
        Ok(PurifyResult::ResourceTask(ResourceTask::Bind { url, task })) => {
            assert_eq!(
                url,
                "https://bestdori.com/assets/jp/live2d/chara/036_casual_rip/buildData.asset"
            );
            assert_eq!(task.character, 36);
            assert_eq!(task.model, "036_casual");
        }
        other => panic!("the manifest of the model, got {other:?}"),
    }
    match &items[1] {
        Ok(PurifyResult::ResourceTask(ResourceTask::Task(file))) => {
            assert_eq!(file.path, "036/motion/smile01.mtn");
        }
        other => panic!("the file of the motion, got {other:?}"),
    }
    match &items[2] {
        Ok(PurifyResult::Action(a)) => match &a.detail {
            ActionDetail::Motion { model, motion } => {
                assert_eq!(model, "036/model/036_casual/model.json");
                assert_eq!(motion.motion, "smile01");
                assert!(!a.wait);
            }
            other => panic!("a change of motion, got {other:?}"),
        },
        other => panic!("the action, got {other:?}"),
    }
}

#[test]
fn a_failure_names_the_use_and_the_address_that_did_not_resolve() {
    let mut resolver = fresh();
    let lost = unbundled(AddressType::Common);
    let sound = SoundAction { wait: false, bgm: Some(lost.clone()), se: Some(at("https://a/se")) };
    let items = DefaultPurifier::purify_sound(&mut resolver, sound);
    assert_eq!(items.len(), 1);
    match &items[0] {
        Err(Failure::Resolve(ResolveError::Common { kind, addr })) => {
            assert_eq!(*kind, ResolveCommonKind::Bgm);
            assert_eq!(*addr, lost);
        }
        other => panic!("the music does not resolve, got {other:?}"),
    }
    let still = EffectAction {
        wait: false,
        effect: EffectDetail::ChangeCardStill { image: lost.clone() },
    };
    match &DefaultPurifier::purify_effect(&mut resolver, still)[0] {
        Err(Failure::Resolve(ResolveError::Common { kind, addr })) => {
            assert_eq!(*kind, ResolveCommonKind::Background);
            assert_eq!(*addr, lost);
        }
        other => panic!("the still does not resolve, got {other:?}"),
    }
    assert!(Resolver::take_error(&mut resolver).is_empty());
    assert!(matches!(
        DefaultPurifier::purify(&mut resolver, Action::Unknown)[0],
        Err(Failure::Script(_))
    ));
}
