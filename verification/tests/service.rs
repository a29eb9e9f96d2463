use bd2wg::error::{ConvertError, DownloadError, DownloadErrorKind};
use bd2wg::models::bestdori::{Live2dPath, Model};
use bd2wg::models::webgal::{self, Expression, Layout, Motion, Resource, ResourceType};
use bd2wg::services::downloader::service::{attribute, route, Command, Live2dDownloadWorker, Phase, Route};

fn io_error(text: &str) -> std::io::Error {
    std::io::Error::new(std::io::ErrorKind::Other, text.to_string())
}

fn file(bundle: &str, file: &str) -> Live2dPath {
    Live2dPath { file: file.to_string(), bundle: bundle.to_string() }
}

fn manifest() -> Model {
    Model {
        model: file("live2d/chara/039_casual-2023", "soyo.moc.bytes"),
        physics: file("live2d/chara/039_casual-2023", "soyo.physics.json"),
        textures: vec![
            file("live2d/chara/039_general", "texture_00.png"),
            file("live2d/chara/039_casual-2023", "texture_01.png"),
            file("live2d/chara/039_casual-2023", "texture_02.png"),
        ],
        motions: vec![file("live2d/chara/039_general", "angry01.mtn.bytes")],
        expessions: vec![file("live2d/chara/039_general", "smile01.exp.json")],
    }
}

fn download_error(error: &ConvertError) -> &DownloadError {
    match error {
        ConvertError::Download(e) => e,
        _ => panic!("a download failure"),
    }
}

#[test]
fn live2d_paths() {
    let path = file("live2d/chara/039_general", "texture_00.png");
    assert_eq!(path.path(), "live2d/chara/039_general_rip/texture_00.png");
    assert_eq!(
        path.url(),
        "https://bestdori.com/assets/jp/live2d/chara/039_general_rip/texture_00.png"
    );
    assert_eq!(path.clone(), path);
}

#[test]
fn the_configuration_of_a_manifest() {
    let (config, files) = webgal::Model::from_bestdori_model(manifest());
    assert_eq!(config.version, "Sample 1.0.0");
    assert_eq!(config.layout, Layout { x: 0, y: 0, width: 2 });
    assert_eq!(config.model, "model.moc");
    assert_eq!(config.physics, "physics.json");
    assert_eq!(
        config.textures,
        vec![
            "textures/live2d/chara/039_general_rip/texture_00.png",
            "textures/live2d/chara/039_casual-2023_rip/texture_01.png",
            "textures/live2d/chara/039_casual-2023_rip/texture_02.png",
        ]
    );
    assert_eq!(
        config.motions,
        vec![("angry01".to_string(), vec![Motion { file: "angry01".to_string() }])]
    );
    assert_eq!(
        config.expressions,
        vec![Expression {
            name: "smile01".to_string(),
            file: "expressions/smile01.exp.json".to_string(),
        }]
    );
    let root = "https://bestdori.com/assets/jp/live2d/chara/";
    let expected: Vec<(String, String)> = vec![
        (format!("{root}039_casual-2023_rip/soyo.moc.bytes"), "model.moc".to_string()),
        (format!("{root}039_casual-2023_rip/soyo.physics.json"), "physics.json".to_string()),
        (
            format!("{root}039_general_rip/texture_00.png"),
            "textures/live2d/chara/039_general_rip/texture_00.png".to_string(),
        ),
        (
            format!("{root}039_casual-2023_rip/texture_01.png"),
            "textures/live2d/chara/039_casual-2023_rip/texture_01.png".to_string(),
        ),
        (
            format!("{root}039_casual-2023_rip/texture_02.png"),
            "textures/live2d/chara/039_casual-2023_rip/texture_02.png".to_string(),
        ),
        (format!("{root}039_general_rip/angry01.mtn.bytes"), "motions/angry01.mtn".to_string()),
        (
            format!("{root}039_general_rip/smile01.exp.json"),
            "expressions/smile01.exp.json".to_string(),
        ),
    ];
    assert_eq!(files, expected);
}

#[test]
fn an_empty_manifest_still_has_mesh_and_physics() {
    let model = Model {
        model: file("b", "m"),
        physics: file("b", "p"),
        textures: Vec::new(),
        motions: vec![file("b", "plain")],
        expessions: vec![file("b", "plain")],
    };
    let (config, files) = webgal::Model::from_bestdori_model(model);
    assert!(config.textures.is_empty());
    assert_eq!(config.motions[0].0, "plain");
    assert_eq!(config.expressions[0].name, "plain");
    assert_eq!(config.expressions[0].file, "expressions/plain");
    assert_eq!(files.len(), 4);
    assert_eq!(files[2].1, "motions/plain.mtn");
    let default = webgal::Model::default();
    assert_eq!(default.version, "Sample 1.0.0");
    assert_eq!(default.model, "model.moc");
    assert_eq!(default.physics, "physics.json");
    assert!(default.textures.is_empty() && default.motions.is_empty());
    assert_eq!(webgal::default_model_config_path("figure/x/"), "figure/x/model.json");
}

#[test]
fn a_failed_texture_does_not_abort_the_model() {
    let mut worker = Live2dDownloadWorker::new("https://example.com/buildData.asset", "figure/soyo/");
    assert_eq!(worker.current_phase(), Phase::Idle);
    assert_eq!(worker.url(), "https://example.com/buildData.asset");
    assert_eq!(worker.path(), "figure/soyo/");

    match worker.start(false) {
        Command::FetchManifest { url } => assert_eq!(url, "https://example.com/buildData.asset"),
        other => panic!("the manifest is fetched first, not {other:?}"),
    }
    assert_eq!(worker.current_phase(), Phase::Manifest);

    match worker.manifest(Ok(manifest()), false) {
        Command::WriteConfig { path, model } => {
            assert_eq!(path, "figure/soyo/model.json");
            assert_eq!(model.textures.len(), 3);
        }
        other => panic!("the configuration is written next, not {other:?}"),
    }
    assert_eq!(worker.current_phase(), Phase::Config);

    let mut command = worker.config_written(Ok(()), false);
    let mut asked: Vec<String> = Vec::new();
    let outcome = loop {
        match command {
            Command::FetchFile { url, path } => {
                assert_eq!(worker.current_phase(), Phase::Files);
                asked.push(path.clone());
                let third_texture = path.ends_with("texture_02.png");
                let result = if third_texture {
                    assert!(url.ends_with("039_casual-2023_rip/texture_02.png"));
                    Err(DownloadErrorKind::Io(io_error("no such texture")))
                } else {
                    Ok(())
                };
                command = worker.file_done(result, false);
            }
            Command::Finish(outcome) => break outcome,
            other => panic!("unexpected {other:?}"),
        }
    };
    assert!(worker.is_finished());
    assert_eq!(asked.len(), 7);
    assert_eq!(asked[0], "model.moc");
    assert_eq!(asked[6], "expressions/smile01.exp.json");
    let errors = outcome.unwrap_err();
    assert_eq!(errors.len(), 1);
    let error = download_error(&errors[0]);
    assert_eq!(
        error.url,
        "https://bestdori.com/assets/jp/live2d/chara/039_casual-2023_rip/texture_02.png"
    );
    assert_eq!(
        error.path,
        "figure/soyo/textures/live2d/chara/039_casual-2023_rip/texture_02.png"
    );
    assert!(matches!(error.error, DownloadErrorKind::Io(_)));
}

#[test]
fn a_model_without_failures_ends_well() {
    let mut worker = Live2dDownloadWorker::new("u", "figure/m/");
    worker.start(false);
    worker.manifest(Ok(manifest()), false);
    let mut command = worker.config_written(Ok(()), false);
    let mut files = 0;
    while let Command::FetchFile { .. } = command {
        files += 1;
        command = worker.file_done(Ok(()), false);
    }
    assert_eq!(files, 7);
    assert!(matches!(command, Command::Finish(Ok(()))));
    assert_eq!(worker.current_phase(), Phase::Done);
}

#[test]
fn every_failed_file_is_reported() {
    let mut worker = Live2dDownloadWorker::new("u", "figure/m/");
    worker.start(false);
    worker.manifest(Ok(manifest()), false);
    let mut command = worker.config_written(Ok(()), false);
    let mut index = 0;
    while let Command::FetchFile { .. } = command {
        let result = if index % 2 == 0 {
            Err(DownloadErrorKind::Io(io_error("odd")))
        } else {
            Ok(())
        };
        index += 1;
        command = worker.file_done(result, false);
    }
    match command {
        Command::Finish(Err(errors)) => {
            let paths: Vec<String> =
                errors.iter().map(|e| download_error(e).path.clone()).collect();
            assert_eq!(
                paths,
                vec![
                    "figure/m/model.moc",
                    "figure/m/textures/live2d/chara/039_general_rip/texture_00.png",
                    "figure/m/textures/live2d/chara/039_casual-2023_rip/texture_02.png",
                    "figure/m/expressions/smile01.exp.json",
                ]
            );
        }
        other => panic!("four files failed, got {other:?}"),
    }
}

#[test]
fn a_manifest_that_cannot_be_had_fails_the_model() {
    let mut worker = Live2dDownloadWorker::new("https://example.com/m", "figure/m/");
    worker.start(false);
    match worker.manifest(Err(DownloadErrorKind::Io(io_error("not json"))), false) {
        Command::Finish(Err(errors)) => {
            assert_eq!(errors.len(), 1);
            let error = download_error(&errors[0]);
            assert_eq!(error.url, "https://example.com/m");
            assert_eq!(error.path, "figure/m/");
        }
        other => panic!("the model has failed, got {other:?}"),
    }
    assert!(worker.is_finished());
}

#[test]
fn a_configuration_that_cannot_be_written_fails_the_model() {
    let mut worker = Live2dDownloadWorker::new("https://example.com/m", "figure/m/");
    worker.start(false);
    worker.manifest(Ok(manifest()), false);
    match worker.config_written(Err(io_error("read only")), false) {
        Command::Finish(Err(errors)) => {
            assert_eq!(errors.len(), 1);
            assert_eq!(download_error(&errors[0]).url, "https://example.com/m");
            assert!(matches!(download_error(&errors[0]).error, DownloadErrorKind::Io(_)));
        }
        other => panic!("the model has failed, got {other:?}"),
    }
    assert!(worker.is_finished());
}

#[test]
fn a_cancelled_model_asks_for_nothing_more() {
    let mut worker = Live2dDownloadWorker::new("u", "figure/m/");
    assert!(matches!(worker.start(true), Command::Abort));
    assert!(worker.is_finished());

    let mut worker = Live2dDownloadWorker::new("u", "figure/m/");
    worker.start(false);
    assert!(matches!(worker.manifest(Ok(manifest()), true), Command::Abort));
    assert!(worker.is_finished());

    let mut worker = Live2dDownloadWorker::new("u", "figure/m/");
    worker.start(false);
    worker.manifest(Ok(manifest()), false);
    assert!(matches!(worker.config_written(Ok(()), true), Command::Abort));
    assert!(worker.is_finished());

    let mut worker = Live2dDownloadWorker::new("u", "figure/m/");
    worker.start(false);
    worker.manifest(Ok(manifest()), false);
    assert!(matches!(worker.config_written(Ok(()), false), Command::FetchFile { .. }));
    assert!(matches!(worker.file_done(Ok(()), false), Command::FetchFile { .. }));
    assert!(matches!(worker.file_done(Ok(()), true), Command::Abort));
    assert!(worker.is_finished());
}

#[test]
fn a_failure_is_named_after_its_resource() {
    assert!(attribute("u", "p", Ok(())).is_ok());
    let errors = attribute(
        "https://example.com/500",
        "background/a.png",
        Err(DownloadErrorKind::Io(io_error("x"))),
    )
    .unwrap_err();
    assert_eq!(errors.len(), 1);
    let error = download_error(&errors[0]);
    assert_eq!(error.url, "https://example.com/500");
    assert_eq!(error.path, "background/a.png");
    let bare = DownloadError::without_context(DownloadErrorKind::Io(io_error("x")));
    assert_eq!(bare.url, "");
    assert_eq!(bare.path, "");
}

#[test]
fn figures_are_compound_and_the_rest_plain() {
    let figure = Resource {
        kind: ResourceType::Figure,
        url: "https://example.com/buildData.asset".to_string(),
        path: "036_casual/".to_string(),
    };
    match route(&figure) {
        Route::Compound(worker) => {
            assert_eq!(worker.url(), "https://example.com/buildData.asset");
            assert_eq!(worker.path(), "figure/036_casual/");
            assert_eq!(worker.current_phase(), Phase::Idle);
        }
        Route::Plain { .. } => panic!("a figure is a compound fetch"),
    }
    for (kind, dir) in [
        (ResourceType::Background, "background"),
        (ResourceType::Bgm, "bgm"),
        (ResourceType::Vocal, "vocal"),
    ] {
        let plain = Resource { kind, url: "https://example.com/x".to_string(), path: "x.bin".to_string() };
        match route(&plain) {
            Route::Plain { url, path } => {
                assert_eq!(url, "https://example.com/x");
                assert_eq!(path, format!("{dir}/x.bin"));
                assert_eq!(kind.to_string(), dir);
                assert_eq!(kind.as_str(), dir);
            }
            Route::Compound(_) => panic!("only figures are compound"),
        }
    }
}
