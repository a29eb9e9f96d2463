use bd2wg::pipeline::definition::{BindTicket, Resource, ResourceTask, Root};
use bd2wg::pipeline::error::{Failure, ResolveCommonKind, ResolveError, ResolveLive2DKind};
use bd2wg::pipeline::models::bestdori::{Address, AddressPath, AddressType};
use bd2wg::pipeline::models::live2d::{Bundle, Layout, ModelBundle};
use bd2wg::pipeline::resolver::{
    create_resource, lower_bundle, url_to_filepath, BestdoliConfig, DefaultResolver,
    ResolveCommonResult, ResolveModelResult, Resolver,
};
use std::rc::Rc;

fn config() -> BestdoliConfig {
    BestdoliConfig {
        bundle_root: "https://bestdori.com/assets/jp/".to_string(),
        bgm_bundle: "sound/scenario/bgm/".to_string(),
        se_common: "https://bestdori.com/res/CommonSE/".to_string(),
        live2d_bundle: "live2d/chara/".to_string(),
    }
}

fn resolver() -> DefaultResolver {
    DefaultResolver::with_config("out/".to_string(), config())
}

fn bundled(file: &str, bundle: &str) -> Address {
    Address {
        kind: AddressType::Bandori,
        path: AddressPath::File { file: file.to_string(), bundle: Some(bundle.to_string()) },
    }
}

fn custom(url: &str) -> Address {
    Address { kind: AddressType::Custom, path: AddressPath::Url { url: url.to_string() } }
}

fn common(file: &str) -> Address {
    Address {
        kind: AddressType::Common,
        path: AddressPath::File { file: file.to_string(), bundle: None },
    }
}

fn bundle(bundle: &str, file: &str) -> Bundle {
    Bundle { bundle: bundle.to_string(), file: file.to_string() }
}

#[test]
fn resources_are_named_after_their_address() {
    assert_eq!(url_to_filepath("https://a/b c", ".png"), "https___a_b_c.png");
    let made = create_resource(Root::Vocal, "https://a/b".to_string(), ".mp3");
    assert_eq!(
        *made,
        Resource {
            root: Root::Vocal,
            url: Some("https://a/b".to_string()),
            path: "https___a_b.mp3".to_string()
        }
    );
    assert_eq!(made.get_full_path(), "vocal/https___a_b.mp3");
    assert_eq!(Root::Scene.to_string(), "scene");
    assert_eq!(Root::Figure.as_str(), "figure");
    assert_eq!(Root::Background.as_str(), "background");
    assert_eq!(Root::Bgm.as_str(), "bgm");
}

#[test]
fn the_bundle_of_a_piece_of_music_starts_with_a_small_letter() {
    assert_eq!(
        lower_bundle("https://bestdori.com/assets/jp/sound/Bgm001_rip/Bgm001.mp3"),
        "https://bestdori.com/assets/jp/sound/bgm001_rip/Bgm001.mp3"
    );
    assert_eq!(lower_bundle("a/01_Nobiri_rip/x.mp3"), "a/01_nobiri_rip/x.mp3");
    assert_eq!(lower_bundle("a/123/Song.mp3"), "a/123/song.mp3");
    assert_eq!(lower_bundle("a/already/x"), "a/already/x");
    assert_eq!(lower_bundle("one/slash"), "one/slash");
    assert_eq!(lower_bundle("none"), "none");
    assert_eq!(lower_bundle(""), "");
    assert_eq!(lower_bundle("a/123/456"), "a/123/456");
}

#[test]
fn one_new_then_existing_for_each_use() {
    let mut resolver = resolver();
    let addr = bundled("bg0001", "bg/scenario1");
    let first = resolver.resolve_background(&addr).unwrap();
    let second = resolver.resolve_background(&addr).unwrap();
    let third = resolver.resolve_cardstill(&addr).unwrap();
    match (&first, &second, &third) {
        (
            ResolveCommonResult::New(a),
            ResolveCommonResult::Existing(b),
            ResolveCommonResult::Existing(c),
        ) => {
            assert!(Rc::ptr_eq(a, b));
            assert!(Rc::ptr_eq(a, c));
        }
        _ => panic!("one new, then existing"),
    }
    let image = first.as_ref();
    assert_eq!(image.root, Root::Background);
    assert_eq!(
        image.url.as_deref(),
        Some("https://bestdori.com/assets/jp/bg/scenario1_rip/bg0001.png")
    );
    assert_eq!(
        image.path,
        "https___bestdori.com_assets_jp_bg_scenario1_rip_bg0001.png.png"
    );
    assert!(matches!(resolver.resolve_se(&addr).unwrap(), ResolveCommonResult::New(_)));
    assert!(matches!(resolver.resolve_se(&addr).unwrap(), ResolveCommonResult::Existing(_)));
    assert!(matches!(resolver.resolve_bgm(&addr).unwrap(), ResolveCommonResult::New(_)));
    assert!(matches!(resolver.resolve_bgm(&addr).unwrap(), ResolveCommonResult::Existing(_)));
}

#[test]
fn music_and_effects() {
    let mut resolver = resolver();
    let bgm = resolver.resolve_bgm(&bundled("Song01", "sound/Bgm")).unwrap();
    assert_eq!(bgm.as_ref().root, Root::Bgm);
    assert_eq!(
        bgm.as_ref().url.as_deref(),
        Some("https://bestdori.com/assets/jp/sound/bgm_rip/Song01.mp3")
    );
    let own = resolver.resolve_bgm(&custom("https://example.com/own")).unwrap();
    assert_eq!(own.as_ref().url.as_deref(), Some("https://example.com/own"));
    assert_eq!(own.as_ref().path, "https___example.com_own.mp3");

    let clap = resolver.resolve_se(&common("SE_CLAP")).unwrap();
    assert_eq!(clap.as_ref().root, Root::Vocal);
    assert_eq!(
        clap.as_ref().url.as_deref(),
        Some("https://bestdori.com/res/CommonSE/SE_CLAP.mp3")
    );
    let se = resolver.resolve_se(&bundled("se01", "sound/se")).unwrap();
    assert_eq!(
        se.as_ref().url.as_deref(),
        Some("https://bestdori.com/assets/jp/sound/se_rip/se01.mp3")
    );
}

#[test]
fn what_does_not_resolve_is_reported_with_its_use() {
    let mut resolver = resolver();
    for (result, kind) in [
        (resolver.resolve_bgm(&common("x")), ResolveCommonKind::Bgm),
        (resolver.resolve_background(&common("x")), ResolveCommonKind::Background),
        (resolver.resolve_cardstill(&common("x")), ResolveCommonKind::Background),
        (
            resolver.resolve_se(&Address {
                kind: AddressType::Bandori,
                path: AddressPath::File { file: "x".to_string(), bundle: None },
            }),
            ResolveCommonKind::Se,
        ),
    ] {
        match result {
            Err(Failure::Resolve(ResolveError::Common { kind: k, .. })) => assert_eq!(k, kind),
            other => panic!("does not resolve, got {other:?}"),
        }
    }
    match resolver.resolve_bgm(&common("x")) {
        Err(Failure::Resolve(ResolveError::Common { addr, .. })) => assert_eq!(addr, common("x")),
        other => panic!("does not resolve, got {other:?}"),
    }
    assert_eq!(ResolveCommonKind::CardStill.as_str(), "CardStill");
    assert_eq!(ResolveCommonKind::Se.as_str(), "Se");
    assert_eq!(ResolveLive2DKind::Expression.as_str(), "Expression");
}

#[test]
fn motions_and_expressions_are_fetched_once() {
    let mut resolver = resolver();
    match resolver.resolve_motion(7, "smile01").unwrap() {
        ResolveModelResult::Normal(res) => {
            assert_eq!(res.root, Root::Figure);
            assert_eq!(
                res.url.as_deref(),
                Some("https://bestdori.com/assets/jp/live2d/chara/007_general_rip/smile01.mtn")
            );
            assert_eq!(res.path, "007/motion/smile01.mtn");
        }
        other => panic!("a new motion, got {other:?}"),
    }
    assert!(matches!(resolver.resolve_motion(7, "smile01").unwrap(), ResolveModelResult::Existing));
    assert!(matches!(
        resolver.resolve_motion(8, "smile01").unwrap(),
        ResolveModelResult::Normal(_)
    ));
    match resolver.resolve_expression(39, "default").unwrap() {
        ResolveModelResult::Normal(res) => {
            assert_eq!(
                res.url.as_deref(),
                Some("https://bestdori.com/assets/jp/live2d/chara/039_general_rip/default.exp.json")
            );
            assert_eq!(res.path, "039/expression/default.exp.json");
        }
        other => panic!("a new expression, got {other:?}"),
    }
    assert!(matches!(
        resolver.resolve_expression(39, "default").unwrap(),
        ResolveModelResult::Existing
    ));
    assert!(matches!(
        resolver.resolve_motion(39, "default").unwrap(),
        ResolveModelResult::Normal(_)
    ));
    match resolver.resolve_motion(255, "m").unwrap() {
        ResolveModelResult::Normal(res) => assert_eq!(res.path, "255/motion/m.mtn"),
        other => panic!("a new motion, got {other:?}"),
    }
}

#[test]
fn a_model_is_bound_once_and_remembered() {
    let mut resolver = resolver();
    let mut model = "036_casual".to_string();
    let ticket = match resolver.resolve_model(36, &mut model).unwrap() {
        ResolveModelResult::Bind { url, task } => {
            assert_eq!(
                url,
                "https://bestdori.com/assets/jp/live2d/chara/036_casual_rip/buildData.asset"
            );
            assert_eq!(task, BindTicket { character: 36, model: "036_casual".to_string() });
            task
        }
        other => panic!("a manifest to fetch, got {other:?}"),
    };
    assert_eq!(model, "036/model/036_casual/model.json");

    let mut again = "036_casual".to_string();
    assert!(matches!(
        resolver.resolve_model(36, &mut again).unwrap(),
        ResolveModelResult::Existing
    ));
    let mut unnamed = String::new();
    assert!(matches!(
        resolver.resolve_model(36, &mut unnamed).unwrap(),
        ResolveModelResult::Existing
    ));
    assert_eq!(unnamed, "036/model/036_casual/model.json");

    let manifest = ModelBundle::from_parts(
        bundle("live2d/chara/036_casual", "anon.moc.bytes"),
        bundle("live2d/chara/036_casual", "anon.physics.json"),
        vec![bundle("live2d/chara/036_general", "texture_00.png")],
    );
    assert_eq!(manifest.model.file, "anon.moc");
    let items = resolver.bind_done(&ticket, Ok(manifest));
    let expected = vec![
        Resource {
            root: Root::Figure,
            url: Some(
                "https://bestdori.com/assets/jp/live2d/chara/036_general_rip/texture_00.png"
                    .to_string(),
            ),
            path: "036/model/036_casual//live2d/texture_00.png".to_string(),
        },
        Resource {
            root: Root::Figure,
            url: Some(
                "https://bestdori.com/assets/jp/live2d/chara/036_casual_rip/anon.moc".to_string(),
            ),
            path: "036/model/036_casual//live2d/anon.moc".to_string(),
        },
        Resource {
            root: Root::Figure,
            url: Some(
                "https://bestdori.com/assets/jp/live2d/chara/036_casual_rip/anon.physics.json"
                    .to_string(),
            ),
            path: "036/model/036_casual//live2d/anon.physics.json".to_string(),
        },
    ];
    assert_eq!(items, expected);

    let mut known = "036_casual".to_string();
    assert!(matches!(
        resolver.resolve_model(36, &mut known).unwrap(),
        ResolveModelResult::Existing
    ));
    let mut other = "036_school".to_string();
    assert!(matches!(
        resolver.resolve_model(36, &mut other).unwrap(),
        ResolveModelResult::Bind { .. }
    ));
    let mut last = String::new();
    resolver.resolve_model(36, &mut last).unwrap();
    assert_eq!(last, "036/model/036_school/model.json");
}

#[test]
fn a_character_without_a_model_gets_an_empty_name() {
    let mut resolver = resolver();
    let mut model = String::new();
    match resolver.resolve_model(1, &mut model).unwrap() {
        ResolveModelResult::Bind { url, task } => {
            assert_eq!(url, "https://bestdori.com/assets/jp/live2d/chara/_rip/buildData.asset");
            assert_eq!(task.model, "");
        }
        other => panic!("a manifest to fetch, got {other:?}"),
    }
    assert_eq!(model, "001/model//model.json");
}

#[test]
fn a_manifest_that_cannot_be_read_is_a_failure_to_take() {
    let mut resolver = resolver();
    let mut model = "m".to_string();
    let ticket = match resolver.resolve_model(5, &mut model).unwrap() {
        ResolveModelResult::Bind { task, .. } => task,
        other => panic!("a manifest to fetch, got {other:?}"),
    };
    assert!(resolver.bind_done(&ticket, Err("broken json".to_string())).is_empty());
    assert_eq!(resolver.error_count(), 1);
    let errors = resolver.take_error();
    assert_eq!(errors.len(), 1);
    match &errors[0] {
        ResolveError::Live2D { kind, character, attr } => {
            assert_eq!(*kind, ResolveLive2DKind::Motion);
            assert_eq!(*character, 5);
            assert_eq!(attr, "broken json");
        }
        other => panic!("a failure of a model, got {other:?}"),
    }
    assert!(resolver.take_error().is_empty());
    let mut again = "m".to_string();
    assert!(matches!(
        resolver.resolve_model(5, &mut again).unwrap(),
        ResolveModelResult::Bind { .. }
    ));
}

#[test]
fn configurations_of_the_known_models() {
    let mut resolver = resolver();
    assert!(resolver.get_model_config().is_empty());
    let mut model = "036_casual".to_string();
    let ticket = match resolver.resolve_model(36, &mut model).unwrap() {
        ResolveModelResult::Bind { task, .. } => task,
        other => panic!("a manifest to fetch, got {other:?}"),
    };
    resolver.resolve_motion(36, "smile01").unwrap();
    resolver.resolve_motion(36, "angry01").unwrap();
    resolver.resolve_expression(36, "smile").unwrap();
    assert!(resolver.get_model_config().is_empty());
    resolver.bind_done(
        &ticket,
        Ok(ModelBundle::from_parts(
            bundle("b", "anon.moc.bytes"),
            bundle("b", "anon.physics.json"),
            vec![bundle("b", "t0.png"), bundle("b", "t1.png")],
        )),
    );
    let configs = Resolver::get_model_config(&resolver);
    assert_eq!(configs.len(), 1);
    let config = &configs[0];
    assert_eq!(config.root, Root::Figure);
    assert_eq!(config.path, "036/model/036_casual//model.json");
    assert_eq!(config.get_full_path(), "figure/036/model/036_casual//model.json");
    assert_eq!(config.data.version, "Sample 1.0.0");
    assert_eq!(config.data.layout, Layout { x: 0, y: 0, width: 2 });
    assert_eq!(config.data.model.model, "live2d/anon.moc");
    assert_eq!(config.data.model.physics, "live2d/anon.physics.json");
    assert_eq!(config.data.model.textures, vec!["live2d/t0.png", "live2d/t1.png"]);
    let groups: Vec<(&str, &str)> = config
        .data
        .motions
        .iter()
        .map(|(name, files)| (name.as_str(), files[0].file.as_str()))
        .collect();
    assert_eq!(
        groups,
        vec![("smile01", "../motion/smile01.mtn"), ("angry01", "../motion/angry01.mtn")]
    );
    assert_eq!(config.data.expressions.len(), 1);
    assert_eq!(config.data.expressions[0].name, "smile");
    assert_eq!(config.data.expressions[0].file, "../expression/smile.exp.json");
    let task = ResourceTask::Bind { url: "u".to_string(), task: ticket };
    assert!(matches!(task, ResourceTask::Bind { .. }));
}
