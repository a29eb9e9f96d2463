//! The commands of a target script, and how each is written.
//!
//! A command is written as a head, a main part and its arguments, and ends
//! with `;`. An argument is a tag, `-key`, or a pair, `-key=value`, and stands
//! behind a space.

use vstd::prelude::*;
use vstd::string::*;

use crate::models::bestdori::LayoutSideType;
use crate::text::{decimal, push_decimal, push_signed_decimal, signed_decimal};

verus! {

/// A tag argument, with the space before it.
pub open spec fn tag(key: Seq<char>) -> Seq<char> {
    " -"@ + key
}

/// A pair argument, with the space before it.
pub open spec fn pair(key: Seq<char>, value: Seq<char>) -> Seq<char> {
    " -"@ + key + "="@ + value
}

/// `text` where `present` holds, nothing where it does not.
pub open spec fn when(present: bool, text: Seq<char>) -> Seq<char> {
    if present {
        text
    } else {
        Seq::empty()
    }
}

/// The pair argument of a value that may be missing: nothing where it is.
pub open spec fn pair_of(key: Seq<char>, value: Option<Seq<char>>) -> Seq<char> {
    match value {
        Some(v) => pair(key, v),
        None => Seq::empty(),
    }
}

/// The main part for a value that may be missing: `none` where it is.
pub open spec fn or_none(value: Option<Seq<char>>) -> Seq<char> {
    match value {
        Some(v) => v,
        None => "none"@,
    }
}

/// The characters of a string that may be missing.
pub open spec fn text_of(value: Option<String>) -> Option<Seq<char>> {
    match value {
        Some(v) => Some(v@),
        None => None,
    }
}

/// Appends the tag `key` where `present` holds.
fn push_tag(out: &mut String, present: bool, key: &str)
    ensures
        final(out)@ == old(out)@ + when(present, tag(key@)),
{
    if present {
        out.append(" -");
        out.append(key);
        assert(out@ =~= old(out)@ + tag(key@));
    } else {
        assert(out@ =~= old(out)@ + Seq::<char>::empty());
    }
}

/// Appends the pair of `key` and `value`.
fn push_pair(out: &mut String, key: &str, value: &str)
    ensures
        final(out)@ == old(out)@ + pair(key@, value@),
{
    out.append(" -");
    out.append(key);
    out.append("=");
    out.append(value);
    assert(out@ =~= old(out)@ + pair(key@, value@));
}

/// Appends the pair of `key` and `value` where there is a value.
fn push_pair_of(out: &mut String, key: &str, value: &Option<String>)
    ensures
        final(out)@ == old(out)@ + pair_of(key@, text_of(*value)),
{
    match value {
        Some(v) => {
            push_pair(out, key, v.as_str());
        },
        None => {
            assert(out@ =~= old(out)@ + Seq::<char>::empty());
        },
    }
}

/// Appends the pair of `key` and the numeral of `value`.
fn push_pair_number(out: &mut String, key: &str, value: u8)
    ensures
        final(out)@ == old(out)@ + pair(key@, decimal(value as nat)),
{
    out.append(" -");
    out.append(key);
    out.append("=");
    push_decimal(out, value as u64);
    assert(out@ =~= old(out)@ + pair(key@, decimal(value as nat)));
}

/// Appends `value`, or `none` where there is none.
fn push_or_none(out: &mut String, value: &Option<String>)
    ensures
        final(out)@ == old(out)@ + or_none(text_of(*value)),
{
    match value {
        Some(v) => {
            out.append(v.as_str());
        },
        None => {
            out.append("none");
        },
    }
}

/// A command of a target script: something that is written as one statement.
pub trait Actionable {
    /// The command as it is written, without the `;` that ends a statement.
    spec fn body(&self) -> Seq<char>;

    /// The statement, as it stands in a script.
    spec fn statement(&self) -> Seq<char>;

    /// Writes the command, without the `;` that ends a statement.
    fn to_body(&self) -> (text: String)
        ensures
            text@ == self.body(),
    ;

    /// Writes the command as a statement.
    fn to_string(&self) -> (text: String)
        ensures
            text@ == self.statement(),
    ;
}

/// What a command supplies by itself, where the common form does not fit.
pub trait ActionCustom {
    /// The head of the statement, with its `:`.
    spec fn head_part(&self) -> Seq<char>;

    /// The main part of the statement.
    spec fn main_part(&self) -> Seq<char>;

    /// The arguments behind those of the fields, each with the space before
    /// it.
    spec fn trailing_part(&self) -> Seq<char>;

    /// The head of the statement, with its `:`.
    fn get_head(&self) -> (head: String)
        ensures
            head@ == self.head_part(),
    ;

    /// The main part of the statement.
    fn get_main(&self) -> (main: String)
        ensures
            main@ == self.main_part(),
    ;

    /// The arguments behind those of the fields: keys, each with its value if
    /// it has one.
    fn get_other_args(&self) -> (args: Option<Vec<(String, Option<String>)>>)
        ensures
            args_text(args) == self.trailing_part(),
    ;
}

/// One argument as it is written: a pair where it has a value, else a tag.
pub open spec fn arg_text(arg: (String, Option<String>)) -> Seq<char> {
    match arg.1 {
        Some(v) => pair(arg.0@, v@),
        None => tag(arg.0@),
    }
}

/// A list of arguments as it is written, one after the other.
pub open spec fn list_text(args: Seq<(String, Option<String>)>) -> Seq<char>
    decreases args.len(),
{
    if args.len() == 0 {
        Seq::empty()
    } else {
        list_text(args.drop_last()) + arg_text(args.last())
    }
}

/// A list of arguments that may be missing, as it is written.
pub open spec fn args_text(args: Option<Vec<(String, Option<String>)>>) -> Seq<char> {
    match args {
        Some(list) => list_text(list@),
        None => Seq::empty(),
    }
}

/// Appends the arguments of `args`, in order.
fn push_args(out: &mut String, args: &Option<Vec<(String, Option<String>)>>)
    ensures
        final(out)@ == old(out)@ + args_text(*args),
{
    match args {
        Some(list) => {
            let mut i: usize = 0;
            assert(list@.take(0) =~= Seq::empty());
            assert(out@ =~= old(out)@ + Seq::<char>::empty());
            while i < list.len()
                invariant
                    i <= list@.len(),
                    out@ == old(out)@ + list_text(list@.take(i as int)),
                decreases list@.len() - i,
            {
                let ghost sofar = list_text(list@.take(i as int));
                match &list[i].1 {
                    Some(v) => push_pair(out, list[i].0.as_str(), v.as_str()),
                    None => push_tag(out, true, list[i].0.as_str()),
                }
                i += 1;
                proof {
                    assert(list@.take(i as int).drop_last() =~= list@.take(i - 1));
                    assert(out@ =~= old(out)@ + (sofar + arg_text(list@[i - 1])));
                }
            }
            assert(list@.take(list@.len() as int) =~= list@);
        },
        None => {
            assert(out@ =~= old(out)@ + Seq::<char>::empty());
        },
    }
}

/// The side of the stage a figure stands on.
#[derive(Debug, Clone, Copy, PartialEq, Eq, Structural)]
pub enum FigureSide {
    Left,
    Center,
    Right,
}

impl Default for FigureSide {
    fn default() -> (side: Self)
        ensures
            side == FigureSide::Center,
    {
        FigureSide::Center
    }
}

impl FigureSide {
    /// The side of the stage that a place of the source platform lies on.
    pub open spec fn of(side: LayoutSideType) -> FigureSide {
        match side {
            LayoutSideType::Center => FigureSide::Center,
            LayoutSideType::LeftOver | LayoutSideType::LeftInside => FigureSide::Left,
            LayoutSideType::RightOver | LayoutSideType::RightInside => FigureSide::Right,
        }
    }
}

impl From<LayoutSideType> for FigureSide {
    fn from(value: LayoutSideType) -> (side: Self) {
        match value {
            LayoutSideType::Center => FigureSide::Center,
            LayoutSideType::LeftOver | LayoutSideType::LeftInside => FigureSide::Left,
            LayoutSideType::RightOver | LayoutSideType::RightInside => FigureSide::Right,
        }
    }
}

impl vstd::std_specs::convert::FromSpecImpl<LayoutSideType> for FigureSide {
    open spec fn obeys_from_spec() -> bool {
        true
    }

    open spec fn from_spec(value: LayoutSideType) -> FigureSide {
        FigureSide::of(value)
    }
}

/// A place on the stage.
#[derive(Debug, Clone, Copy, PartialEq, Eq, Structural)]
pub struct Position {
    pub x: i16,
}

/// How a figure or a scene is moved.
#[derive(Debug, Clone, Copy, PartialEq, Eq, Structural)]
pub struct Transform {
    pub position: Position,
}

impl Default for Transform {
    fn default() -> (transform: Self)
        ensures
            transform == (Transform { position: Position { x: 0 } }),
    {
        Transform { position: Position { x: 0 } }
    }
}

impl Transform {
    /// The transform as a JSON object, without any space.
    pub open spec fn json(self) -> Seq<char> {
        "{\"position\":{\"x\":"@ + signed_decimal(self.position.x as int) + "}}"@
    }

    /// The transform that moves to `x`.
    pub fn new_with_x(x: i16) -> (transform: Self)
        ensures
            transform == (Transform { position: Position { x } }),
    {
        Transform { position: Position { x } }
    }

    /// The transform that moves to `x`.
    pub fn new_x(x: i16) -> (transform: Self)
        ensures
            transform == (Transform { position: Position { x } }),
    {
        Transform { position: Position { x } }
    }

    /// Writes the transform as a JSON object.
    pub fn to_string(&self) -> (text: String)
        ensures
            text@ == self.json(),
    {
        let mut text = String::from_str("{\"position\":{\"x\":");
        push_signed_decimal(&mut text, self.position.x as i32);
        text.append("}}");
        text
    }
}

/// The statement that goes on with the scene `file`.
pub open spec fn call_scene_text(file: Seq<char>) -> Seq<char> {
    call_scene_body(file) + ";"@
}

/// The same, without the `;` at its end.
pub open spec fn call_scene_body(file: Seq<char>) -> Seq<char> {
    "callScene:"@ + file
}

/// The statement that offers the choice `text`, which leads to `file`.
pub open spec fn choose_text(file: Seq<char>, text: Seq<char>) -> Seq<char> {
    choose_body(file, text) + ";"@
}

/// The same, without the `;` at its end.
pub open spec fn choose_body(file: Seq<char>, text: Seq<char>) -> Seq<char> {
    "choose:"@ + (text + ":"@ + file) + Seq::<char>::empty()
}

/// The arguments of a line of dialogue: `-notend` where the next command
/// follows at once, and the figure that speaks.
pub open spec fn say_args(next: bool, character: Option<u8>) -> Seq<char> {
    when(next, tag("notend"@)) + match character {
        Some(c) => tag("id"@) + pair("figureId"@, decimal(c as nat)),
        None => Seq::empty(),
    }
}

/// The statement of a line of dialogue.
pub open spec fn say_text(
    name: Seq<char>,
    text: Seq<char>,
    next: bool,
    character: Option<u8>,
) -> Seq<char> {
    say_body(name, text, next, character) + ";"@
}

/// The same, without the `;` at its end.
pub open spec fn say_body(
    name: Seq<char>,
    text: Seq<char>,
    next: bool,
    character: Option<u8>,
) -> Seq<char> {
    (name + ":"@) + text + say_args(next, character) + Seq::<char>::empty()
}

/// The statement that shows or hides the text box.
pub open spec fn textbox_text(visible: bool) -> Seq<char> {
    textbox_body(visible) + ";"@
}

/// The same, without the `;` at its end.
pub open spec fn textbox_body(visible: bool) -> Seq<char> {
    "setTextbox:"@ + (if visible {
        "on"@
    } else {
        "hide"@
    }) + Seq::<char>::empty()
}

/// The arguments of a figure, in the order of its fields.
pub open spec fn figure_args(
    id: u8,
    next: bool,
    transform: Option<Transform>,
    motion: Option<Seq<char>>,
    expression: Option<Seq<char>>,
) -> Seq<char> {
    pair("id"@, decimal(id as nat)) + when(next, tag("next"@)) + pair_of(
        "transform"@,
        match transform {
            Some(t) => Some(t.json()),
            None => None,
        },
    ) + pair_of("motion"@, motion) + pair_of("expression"@, expression)
}

/// The argument that names the side of a figure. The centre has none.
pub open spec fn side_arg(side: FigureSide) -> Seq<char> {
    match side {
        FigureSide::Center => Seq::empty(),
        FigureSide::Left => tag("left"@),
        FigureSide::Right => tag("right"@),
    }
}

/// The statement that shows, changes or hides a figure.
pub open spec fn change_figure_text(
    model: Option<Seq<char>>,
    id: u8,
    next: bool,
    side: FigureSide,
    transform: Option<Transform>,
    motion: Option<Seq<char>>,
    expression: Option<Seq<char>>,
) -> Seq<char> {
    change_figure_body(model, id, next, side, transform, motion, expression) + ";"@
}

/// The same, without the `;` at its end.
pub open spec fn change_figure_body(
    model: Option<Seq<char>>,
    id: u8,
    next: bool,
    side: FigureSide,
    transform: Option<Transform>,
    motion: Option<Seq<char>>,
    expression: Option<Seq<char>>,
) -> Seq<char> {
    "changeFigure:"@ + or_none(model) + figure_args(id, next, transform, motion, expression)
        + side_arg(side)
}

/// The statement that moves a figure or the scene.
pub open spec fn set_effect_text(transform: Transform, target: u8, next: bool) -> Seq<char> {
    set_effect_body(transform, target, next) + ";"@
}

/// The same, without the `;` at its end.
pub open spec fn set_effect_body(transform: Transform, target: u8, next: bool) -> Seq<char> {
    "setEffect:"@ + transform.json() + pair("target"@, decimal(target as nat)) + when(
        next,
        tag("next"@),
    )
}

/// The statement that changes the background.
pub open spec fn change_bg_text(image: Option<Seq<char>>, next: bool) -> Seq<char> {
    change_bg_body(image, next) + ";"@
}

/// The same, without the `;` at its end.
pub open spec fn change_bg_body(image: Option<Seq<char>>, next: bool) -> Seq<char> {
    "changeBg:"@ + or_none(image) + when(next, tag("next"@))
}

/// The statement that changes the background music.
pub open spec fn bgm_text(sound: Option<Seq<char>>) -> Seq<char> {
    bgm_body(sound) + ";"@
}

/// The same, without the `;` at its end.
pub open spec fn bgm_body(sound: Option<Seq<char>>) -> Seq<char> {
    "bgm:"@ + or_none(sound)
}

/// The statement that plays a sound effect.
pub open spec fn play_effect_text(sound: Option<Seq<char>>) -> Seq<char> {
    play_effect_body(sound) + ";"@
}

/// The same, without the `;` at its end.
pub open spec fn play_effect_body(sound: Option<Seq<char>>) -> Seq<char> {
    "playEffect:"@ + or_none(sound)
}

/// The statement that starts an animation on a target.
pub open spec fn animation_text(animation: Seq<char>, target: Seq<char>, next: bool) -> Seq<char> {
    animation_body(animation, target, next) + ";"@
}

/// The same, without the `;` at its end.
pub open spec fn animation_body(animation: Seq<char>, target: Seq<char>, next: bool) -> Seq<char> {
    "setAnimation:"@ + animation + pair("target"@, target) + when(next, tag("next"@))
}

/// Goes on with another scene.
#[derive(Debug, Clone, PartialEq, Eq)]
pub struct CallSceneAction {
    pub file: String,
}

impl Actionable for CallSceneAction {
    open spec fn body(&self) -> Seq<char> {
        call_scene_body(self.file@)
    }

    open spec fn statement(&self) -> Seq<char> {
        self.body() + ";"@
    }

    fn to_body(&self) -> (text: String) {
        let mut text = String::from_str("callScene:");
        text.append(self.file.as_str());
        text
    }

    fn to_string(&self) -> (text: String) {
        let mut text = self.to_body();
        text.append(";");
        text
    }
}

/// Offers a choice that leads to another scene.
#[derive(Debug, Clone, PartialEq, Eq)]
pub struct ChooseAction {
    pub file: String,
    pub text: String,
}

impl ActionCustom for ChooseAction {
    open spec fn head_part(&self) -> Seq<char> {
        "choose:"@
    }

    open spec fn main_part(&self) -> Seq<char> {
        self.text@ + ":"@ + self.file@
    }

    open spec fn trailing_part(&self) -> Seq<char> {
        Seq::empty()
    }

    fn get_head(&self) -> (head: String) {
        String::from_str("choose:")
    }

    fn get_main(&self) -> (main: String) {
        let mut main = self.text.clone();
        main.append(":");
        main.append(self.file.as_str());
        main
    }

    fn get_other_args(&self) -> (args: Option<Vec<(String, Option<String>)>>) {
        None
    }
}

impl Actionable for ChooseAction {
    open spec fn body(&self) -> Seq<char> {
        choose_body(self.file@, self.text@)
    }

    open spec fn statement(&self) -> Seq<char> {
        self.body() + ";"@
    }

    fn to_body(&self) -> (text: String) {
        let mut text = self.get_head();
        text.append(self.get_main().as_str());
        push_args(&mut text, &self.get_other_args());
        text
    }

    fn to_string(&self) -> (text: String) {
        let mut text = self.to_body();
        text.append(";");
        text
    }
}

/// A line of dialogue.
#[derive(Debug, Clone, PartialEq, Eq)]
pub struct SayAction {
    pub name: String,
    pub text: String,
    pub next: bool,
    pub character: Option<u8>,
}

impl SayAction {
    /// The arguments of the fields: `-notend` where the next command follows
    /// at once, and the figure that speaks.
    pub open spec fn args(&self) -> Seq<char> {
        say_args(self.next, self.character)
    }
}

impl ActionCustom for SayAction {
    open spec fn head_part(&self) -> Seq<char> {
        self.name@ + ":"@
    }

    open spec fn main_part(&self) -> Seq<char> {
        self.text@
    }

    open spec fn trailing_part(&self) -> Seq<char> {
        Seq::empty()
    }

    fn get_head(&self) -> (head: String) {
        let mut head = self.name.clone();
        head.append(":");
        head
    }

    fn get_main(&self) -> (main: String) {
        self.text.clone()
    }

    fn get_other_args(&self) -> (args: Option<Vec<(String, Option<String>)>>) {
        None
    }
}

impl Actionable for SayAction {
    open spec fn body(&self) -> Seq<char> {
        say_body(self.name@, self.text@, self.next, self.character)
    }

    open spec fn statement(&self) -> Seq<char> {
        self.body() + ";"@
    }

    fn to_body(&self) -> (text: String) {
        let mut text = self.get_head();
        text.append(self.get_main().as_str());
        let ghost start = text@;
        push_tag(&mut text, self.next, "notend");
        match self.character {
            Some(c) => {
                push_tag(&mut text, true, "id");
                push_pair_number(&mut text, "figureId", c);
            },
            None => {},
        }
        assert(text@ =~= start + self.args());
        push_args(&mut text, &self.get_other_args());
        text
    }

    fn to_string(&self) -> (text: String) {
        let mut text = self.to_body();
        text.append(";");
        text
    }
}

/// Shows or hides the text box.
#[derive(Debug, Clone, PartialEq, Eq)]
pub struct SetTextboxAction {
    pub visible: bool,
}

impl ActionCustom for SetTextboxAction {
    open spec fn head_part(&self) -> Seq<char> {
        "setTextbox:"@
    }

    open spec fn main_part(&self) -> Seq<char> {
        if self.visible {
            "on"@
        } else {
            "hide"@
        }
    }

    open spec fn trailing_part(&self) -> Seq<char> {
        Seq::empty()
    }

    fn get_head(&self) -> (head: String) {
        String::from_str("setTextbox:")
    }

    fn get_main(&self) -> (main: String) {
        if self.visible {
            String::from_str("on")
        } else {
            String::from_str("hide")
        }
    }

    fn get_other_args(&self) -> (args: Option<Vec<(String, Option<String>)>>) {
        None
    }
}

impl Actionable for SetTextboxAction {
    open spec fn body(&self) -> Seq<char> {
        textbox_body(self.visible)
    }

    open spec fn statement(&self) -> Seq<char> {
        self.body() + ";"@
    }

    fn to_body(&self) -> (text: String) {
        let mut text = self.get_head();
        text.append(self.get_main().as_str());
        push_args(&mut text, &self.get_other_args());
        text
    }

    fn to_string(&self) -> (text: String) {
        let mut text = self.to_body();
        text.append(";");
        text
    }
}

/// Shows, changes or hides a figure.
#[derive(Debug, Clone, PartialEq, Eq)]
pub struct ChangeFigureAction {
    pub model: Option<String>,
    pub id: u8,
    pub next: bool,
    pub side: FigureSide,
    pub transform: Option<Transform>,
    pub motion: Option<String>,
    pub expression: Option<String>,
}

impl ChangeFigureAction {
    /// The command that hides the figure `id`.
    pub fn new_hide(id: u8, next: bool) -> (action: Self)
        ensures
            action.model is None,
            action.id == id,
            action.next == next,
            action.side == FigureSide::Center,
            action.transform is None,
            action.motion is None,
            action.expression is None,
    {
        ChangeFigureAction {
            model: None,
            id,
            next,
            side: FigureSide::Center,
            transform: None,
            motion: None,
            expression: None,
        }
    }

    /// The arguments of the fields, in the order of the fields.
    pub open spec fn args(&self) -> Seq<char> {
        figure_args(
            self.id,
            self.next,
            self.transform,
            text_of(self.motion),
            text_of(self.expression),
        )
    }
}

impl ActionCustom for ChangeFigureAction {
    open spec fn head_part(&self) -> Seq<char> {
        "changeFigure:"@
    }

    open spec fn main_part(&self) -> Seq<char> {
        or_none(text_of(self.model))
    }

    open spec fn trailing_part(&self) -> Seq<char> {
        side_arg(self.side)
    }

    fn get_head(&self) -> (head: String) {
        String::from_str("changeFigure:")
    }

    fn get_main(&self) -> (main: String) {
        let mut main = String::new();
        push_or_none(&mut main, &self.model);
        assert(main@ =~= self.main_part());
        main
    }

    fn get_other_args(&self) -> (args: Option<Vec<(String, Option<String>)>>) {
        match self.side {
            FigureSide::Center => None,
            FigureSide::Left => {
                let mut args: Vec<(String, Option<String>)> = Vec::new();
                args.push((String::from_str("left"), None));
                assert(list_text(args@.drop_last()) =~= Seq::empty());
                assert(list_text(args@) =~= tag("left"@));
                Some(args)
            },
            FigureSide::Right => {
                let mut args: Vec<(String, Option<String>)> = Vec::new();
                args.push((String::from_str("right"), None));
                assert(list_text(args@.drop_last()) =~= Seq::empty());
                assert(list_text(args@) =~= tag("right"@));
                Some(args)
            },
        }
    }
}

impl Actionable for ChangeFigureAction {
    open spec fn body(&self) -> Seq<char> {
        change_figure_body(
            text_of(self.model),
            self.id,
            self.next,
            self.side,
            self.transform,
            text_of(self.motion),
            text_of(self.expression),
        )
    }

    open spec fn statement(&self) -> Seq<char> {
        self.body() + ";"@
    }

    fn to_body(&self) -> (text: String) {
        let mut text = self.get_head();
        text.append(self.get_main().as_str());
        let ghost start = text@;
        push_pair_number(&mut text, "id", self.id);
        push_tag(&mut text, self.next, "next");
        match &self.transform {
            Some(t) => {
                let json = t.to_string();
                push_pair(&mut text, "transform", json.as_str());
            },
            None => {},
        }
        push_pair_of(&mut text, "motion", &self.motion);
        push_pair_of(&mut text, "expression", &self.expression);
        assert(text@ =~= start + self.args());
        push_args(&mut text, &self.get_other_args());
        text
    }

    fn to_string(&self) -> (text: String) {
        let mut text = self.to_body();
        text.append(";");
        text
    }
}

/// Moves a figure or the scene.
#[derive(Debug, Clone, PartialEq, Eq)]
pub struct SetEffectAction {
    pub transform: Transform,
    pub target: u8,
    pub next: bool,
}

impl Actionable for SetEffectAction {
    open spec fn body(&self) -> Seq<char> {
        set_effect_body(self.transform, self.target, self.next)
    }

    open spec fn statement(&self) -> Seq<char> {
        self.body() + ";"@
    }

    fn to_body(&self) -> (text: String) {
        let mut text = String::from_str("setEffect:");
        text.append(self.transform.to_string().as_str());
        push_pair_number(&mut text, "target", self.target);
        push_tag(&mut text, self.next, "next");
        text
    }

    fn to_string(&self) -> (text: String) {
        let mut text = self.to_body();
        text.append(";");
        text
    }
}

/// Changes the background.
#[derive(Debug, Clone, PartialEq, Eq)]
pub struct ChangeBgAction {
    pub image: Option<String>,
    pub next: bool,
}

impl Default for ChangeBgAction {
    fn default() -> (action: Self)
        ensures
            action.image is None,
            !action.next,
    {
        ChangeBgAction { image: None, next: false }
    }
}

impl Actionable for ChangeBgAction {
    open spec fn body(&self) -> Seq<char> {
        change_bg_body(text_of(self.image), self.next)
    }

    open spec fn statement(&self) -> Seq<char> {
        self.body() + ";"@
    }

    fn to_body(&self) -> (text: String) {
        let mut text = String::from_str("changeBg:");
        push_or_none(&mut text, &self.image);
        push_tag(&mut text, self.next, "next");
        text
    }

    fn to_string(&self) -> (text: String) {
        let mut text = self.to_body();
        text.append(";");
        text
    }
}

/// Changes the background music.
#[derive(Debug, Clone, PartialEq, Eq)]
pub struct BgmAction {
    pub sound: Option<String>,
}

impl Actionable for BgmAction {
    open spec fn body(&self) -> Seq<char> {
        bgm_body(text_of(self.sound))
    }

    open spec fn statement(&self) -> Seq<char> {
        self.body() + ";"@
    }

    fn to_body(&self) -> (text: String) {
        let mut text = String::from_str("bgm:");
        push_or_none(&mut text, &self.sound);
        text
    }

    fn to_string(&self) -> (text: String) {
        let mut text = self.to_body();
        text.append(";");
        text
    }
}

/// Plays a sound effect.
#[derive(Debug, Clone, PartialEq, Eq)]
pub struct PlayEffectAction {
    pub sound: Option<String>,
}

impl Actionable for PlayEffectAction {
    open spec fn body(&self) -> Seq<char> {
        play_effect_body(text_of(self.sound))
    }

    open spec fn statement(&self) -> Seq<char> {
        self.body() + ";"@
    }

    fn to_body(&self) -> (text: String) {
        let mut text = String::from_str("playEffect:");
        push_or_none(&mut text, &self.sound);
        text
    }

    fn to_string(&self) -> (text: String) {
        let mut text = self.to_body();
        text.append(";");
        text
    }
}

/// Starts an animation on a target.
#[derive(Debug, Clone, PartialEq, Eq)]
pub struct SetAnimation {
    pub animation: String,
    pub target: String,
    pub next: bool,
}

impl Actionable for SetAnimation {
    open spec fn body(&self) -> Seq<char> {
        animation_body(self.animation@, self.target@, self.next)
    }

    open spec fn statement(&self) -> Seq<char> {
        self.body() + ";"@
    }

    fn to_body(&self) -> (text: String) {
        let mut text = String::from_str("setAnimation:");
        text.append(self.animation.as_str());
        push_pair(&mut text, "target", self.target.as_str());
        push_tag(&mut text, self.next, "next");
        text
    }

    fn to_string(&self) -> (text: String) {
        let mut text = self.to_body();
        text.append(";");
        text
    }
}

/// Any command of a target script.
#[derive(Debug, Clone, PartialEq, Eq)]
pub enum Action {
    CallScene(CallSceneAction),
    Choose(ChooseAction),
    Say(SayAction),
    SetTextbox(SetTextboxAction),
    ChangeFigure(ChangeFigureAction),
    SetEffect(SetEffectAction),
    ChangeBg(ChangeBgAction),
    Bgm(BgmAction),
    PlayEffect(PlayEffectAction),
    SetAnimation(SetAnimation),
}

impl Actionable for Action {
    open spec fn body(&self) -> Seq<char> {
        match self {
            Action::CallScene(a) => a.body(),
            Action::Choose(a) => a.body(),
            Action::Say(a) => a.body(),
            Action::SetTextbox(a) => a.body(),
            Action::ChangeFigure(a) => a.body(),
            Action::SetEffect(a) => a.body(),
            Action::ChangeBg(a) => a.body(),
            Action::Bgm(a) => a.body(),
            Action::PlayEffect(a) => a.body(),
            Action::SetAnimation(a) => a.body(),
        }
    }

    open spec fn statement(&self) -> Seq<char> {
        self.body() + ";"@
    }

    fn to_body(&self) -> (text: String) {
        match self {
            Action::CallScene(a) => a.to_body(),
            Action::Choose(a) => a.to_body(),
            Action::Say(a) => a.to_body(),
            Action::SetTextbox(a) => a.to_body(),
            Action::ChangeFigure(a) => a.to_body(),
            Action::SetEffect(a) => a.to_body(),
            Action::ChangeBg(a) => a.to_body(),
            Action::Bgm(a) => a.to_body(),
            Action::PlayEffect(a) => a.to_body(),
            Action::SetAnimation(a) => a.to_body(),
        }
    }

    fn to_string(&self) -> (text: String) {
        let mut text = self.to_body();
        text.append(";");
        text
    }
}

/// The text of a run of commands: one statement per line.
pub open spec fn script_text(actions: Seq<Action>) -> Seq<char>
    decreases actions.len(),
{
    if actions.len() == 0 {
        Seq::empty()
    } else {
        script_text(actions.drop_last()) + actions.last().statement() + "\n"@
    }
}

/// Writes a run of commands, one statement per line.
pub fn display_action_iter(actions: &Vec<Action>) -> (text: String)
    ensures
        text@ == script_text(actions@),
{
    let mut text = String::new();
    let mut i: usize = 0;
    assert(actions@.take(0) =~= Seq::empty());
    while i < actions.len()
        invariant
            i <= actions@.len(),
            text@ == script_text(actions@.take(i as int)),
        decreases actions@.len() - i,
    {
        text.append(actions[i].to_string().as_str());
        text.append("\n");
        i += 1;
        assert(actions@.take(i as int).drop_last() =~= actions@.take(i - 1));
    }
    assert(actions@.take(actions@.len() as int) =~= actions@);
    text
}

} // verus!
