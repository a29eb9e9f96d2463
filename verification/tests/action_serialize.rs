use bd2wg::models::webgal::{
    display_action_iter, Action, ActionCustom, Actionable, BgmAction, CallSceneAction,
    ChangeBgAction, ChangeFigureAction, ChooseAction, FigureSide, PlayEffectAction, Position,
    SayAction, SetAnimation, SetEffectAction, SetTextboxAction, Transform,
};

#[test]
fn test_action_serialize() {
    assert_eq!(
        ChooseAction {
            file: String::from("start.txt"),
            text: String::from("???"),
        }
        .to_string(),
        r#"choose:???:start.txt;"#
    );

    assert_eq!(
        SayAction {
            name: String::from("Soyo"),
            text: String::from("ごきげんよう~"),
            next: true,
            character: Some(39),
        }
        .to_string(),
        r#"Soyo:ごきげんよう~ -notend -id -figureId=39;"#
    );

    assert_eq!(
        ChangeFigureAction {
            model: Some(String::from("036_casual-2023")),
            id: 36,
            next: false,
            side: FigureSide::Left,
            transform: Some(Transform {
                position: Position { x: 0 },
            }),
            motion: Some(String::from("angry01")),
            expression: Some(String::from("angry01")),
        }
        .to_string(),
        r#"changeFigure:036_casual-2023 -id=36 -transform={"position":{"x":0}} -motion=angry01 -expression=angry01 -left;"#
    );

    assert_eq!(
        ChangeBgAction {
            image: None,
            next: false,
        }
        .to_string(),
        r#"changeBg:none;"#
    );

    assert_eq!(
        BgmAction {
            sound: Some(String::from("01. ショパン「雨だれ」.flac")),
        }
        .to_string(),
        r#"bgm:01. ショパン「雨だれ」.flac;"#
    );

    assert_eq!(
        SetAnimation {
            animation: String::from("rgbFilm"),
            target: String::from("bg-main"),
            next: true,
        }
        .to_string(),
        r#"setAnimation:rgbFilm -target=bg-main -next;"#
    );
}

#[test]
fn call_scene_and_textbox_statements() {
    assert_eq!(
        CallSceneAction { file: String::from("scene-1.txt") }.to_string(),
        "callScene:scene-1.txt;"
    );
    assert_eq!(SetTextboxAction { visible: true }.to_string(), "setTextbox:on;");
    assert_eq!(SetTextboxAction { visible: false }.to_string(), "setTextbox:hide;");
}

#[test]
fn say_without_figure_has_no_arguments() {
    let say = SayAction {
        name: String::from("Anon"),
        text: String::from("hello"),
        next: false,
        character: None,
    };
    assert_eq!(say.to_string(), "Anon:hello;");
    assert_eq!(say.get_head(), "Anon:");
    assert_eq!(say.get_main(), "hello");
    assert!(say.get_other_args().is_none());
}

#[test]
fn say_renders_every_figure_number() {
    for (id, text) in [(0u8, "0"), (7, "7"), (10, "10"), (99, "99"), (100, "100"), (255, "255")] {
        let say = SayAction {
            name: String::from("n"),
            text: String::from("t"),
            next: false,
            character: Some(id),
        };
        assert_eq!(say.to_string(), format!("n:t -id -figureId={};", text));
    }
}

#[test]
fn hide_figure_statement() {
    let hide = ChangeFigureAction::new_hide(3, true);
    assert_eq!(hide.model, None);
    assert_eq!(hide.id, 3);
    assert!(hide.next);
    assert_eq!(hide.side, FigureSide::Center);
    assert_eq!(hide.transform, None);
    assert_eq!(hide.motion, None);
    assert_eq!(hide.expression, None);
    assert_eq!(hide.to_string(), "changeFigure:none -id=3 -next;");
    assert!(hide.get_other_args().is_none());
}

#[test]
fn figure_side_is_the_last_argument() {
    let mut figure = ChangeFigureAction::new_hide(1, false);
    figure.model = Some(String::from("m/model.json"));
    figure.side = FigureSide::Right;
    assert_eq!(figure.to_string(), "changeFigure:m/model.json -id=1 -right;");
    assert_eq!(
        figure.get_other_args(),
        Some(vec![(String::from("right"), None)])
    );
    figure.side = FigureSide::Left;
    assert_eq!(
        figure.get_other_args(),
        Some(vec![(String::from("left"), None)])
    );
}

#[test]
fn transform_is_written_as_json() {
    assert_eq!(Transform::new_with_x(0).to_string(), r#"{"position":{"x":0}}"#);
    assert_eq!(Transform::new_with_x(120).to_string(), r#"{"position":{"x":120}}"#);
    assert_eq!(Transform::new_with_x(-45).to_string(), r#"{"position":{"x":-45}}"#);
    assert_eq!(
        Transform::new_with_x(i16::MIN).to_string(),
        r#"{"position":{"x":-32768}}"#
    );
    assert_eq!(
        Transform::new_with_x(i16::MAX).to_string(),
        r#"{"position":{"x":32767}}"#
    );
    assert_eq!(Transform::new_with_x(9), Transform { position: Position { x: 9 } });
}

#[test]
fn set_effect_statement() {
    let effect = SetEffectAction {
        transform: Transform::new_with_x(-300),
        target: 12,
        next: true,
    };
    assert_eq!(
        effect.to_string(),
        r#"setEffect:{"position":{"x":-300}} -target=12 -next;"#
    );
}

#[test]
fn background_and_sounds() {
    assert_eq!(
        ChangeBgAction { image: Some(String::from("bg.png")), next: true }.to_string(),
        "changeBg:bg.png -next;"
    );
    assert_eq!(BgmAction { sound: None }.to_string(), "bgm:none;");
    assert_eq!(
        PlayEffectAction { sound: Some(String::from("se.mp3")) }.to_string(),
        "playEffect:se.mp3;"
    );
    assert_eq!(PlayEffectAction { sound: None }.to_string(), "playEffect:none;");
}

#[test]
fn a_scene_is_one_statement_per_line() {
    let actions = vec![
        Action::ChangeBg(ChangeBgAction { image: None, next: false }),
        Action::Say(SayAction {
            name: String::from("A"),
            text: String::from("b"),
            next: false,
            character: None,
        }),
        Action::CallScene(CallSceneAction { file: String::from("x.txt") }),
    ];
    assert_eq!(
        display_action_iter(&actions),
        "changeBg:none;\nA:b;\ncallScene:x.txt;\n"
    );
    assert_eq!(display_action_iter(&Vec::new()), "");
    assert_eq!(actions[0].to_string(), "changeBg:none;");
}
