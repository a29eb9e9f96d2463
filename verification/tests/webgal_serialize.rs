use bd2wg::pipeline::models::webgal::{
    Action, Actionable, BgmAction, CallSceneAction, ChangeBgAction, ChangeFigureAction,
    ChooseAction, FigureSide, PlayEffectAction, Position, SayAction, SetAnimation,
    SetEffectAction, SetTextboxAction, Transform,
};

#[test]
fn test_webgal_serialize() {
    let choose = ChooseAction {
        file: String::from("start.txt"),
        text: String::from("???"),
    };

    let say = SayAction {
        name: String::from("Soyo"),
        text: String::from("ごきげんよう~"),
        next: true,
        character: Some(39),
    };

    let change_figure = ChangeFigureAction {
        model: Some(String::from("036_casual-2023")),
        id: 36,
        next: false,
        side: FigureSide::Left,
        transform: Some(Transform {
            position: Position { x: 0 },
        }),
        motion: Some(String::from("angry01")),
        expression: Some(String::from("angry01")),
    };

    let change_bg = ChangeBgAction {
        image: None,
        next: false,
    };

    let bgm = BgmAction {
        sound: Some(String::from("01. ショパン「雨だれ」.flac")),
    };

    let set_animation = SetAnimation {
        animation: String::from("rgbFilm"),
        target: String::from("bg-main"),
        next: true,
    };

    assert_eq!(choose.to_string(), r#"choose:???:start.txt"#);

    assert_eq!(
        say.to_string(),
        r#"Soyo:ごきげんよう~ -notend -id -figureId=39"#
    );

    assert_eq!(
        change_figure.to_string(),
        r#"changeFigure:036_casual-2023 -id=36 -transform={"position":{"x":0}} -motion=angry01 -expression=angry01 -left"#
    );

    assert_eq!(change_bg.to_string(), r#"changeBg:none"#);

    assert_eq!(bgm.to_string(), r#"bgm:01. ショパン「雨だれ」.flac"#);

    assert_eq!(
        set_animation.to_string(),
        r#"setAnimation:rgbFilm -target=bg-main -next"#
    );
}

#[test]
fn lines_have_no_terminator() {
    assert_eq!(
        CallSceneAction { file: String::from("scene-1.txt") }.to_string(),
        "callScene:scene-1.txt"
    );
    assert_eq!(SetTextboxAction { visible: false }.to_string(), "setTextbox:hide");
    assert_eq!(SetTextboxAction { visible: true }.to_string(), "setTextbox:on");
    assert_eq!(
        ChangeFigureAction::new_hide(5, true).to_string(),
        "changeFigure:none -id=5 -next"
    );
    assert_eq!(
        SetEffectAction { transform: Transform::new_x(-7), target: 2, next: false }.to_string(),
        r#"setEffect:{"position":{"x":-7}} -target=2"#
    );
    assert_eq!(PlayEffectAction { sound: None }.to_string(), "playEffect:none");
    assert_eq!(
        Action::Bgm(BgmAction { sound: Some(String::from("a.mp3")) }).to_string(),
        "bgm:a.mp3"
    );
    assert_eq!(Transform::new_x(3), Transform { position: Position { x: 3 } });
}
