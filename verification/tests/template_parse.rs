use bd2wg::template::{TemplateError, TemplateParser, Token};

fn test_compare<F>(template: &str, expect: &str, map: F)
where
    F: Fn(&str) -> Option<String>,
{
    let (parser, errs) = TemplateParser::new(template);
    assert!(errs.is_empty());

    let (result, errs) = parser.parse(map);
    assert!(errs.is_empty());
    assert_eq!(result, expect.to_string());
}

#[test]
fn test_non_replace() {
    let test = |template| test_compare(template, template, |_| panic!());

    test("");
    test("common template");

    test("${{{ ${{{ ${{{");
    test("fake }}$}} {${");
}

#[test]
fn test_common_replace() {
    test_compare("${var}", "variable", |var| match var {
        "var" => Some("variable".to_string()),
        _ => panic!("error input: `{var}`"),
    });

    test_compare("${${var}}}}", "variable}}", |var| match var {
        "${var}" => Some("variable".to_string()),
        _ => panic!("error input: `{var}`"),
    });

    test_compare("${first} ${second}", "Anon Tokyo", |var| match var {
        "first" => Some("Anon".to_string()),
        "second" => Some("Tokyo".to_string()),
        _ => panic!("error input: `{var}`"),
    });
}

#[test]
fn test_regex_replace() {
    test_compare(
        "G${0:^.(.+)?} ${1}, and in case I don't see you, ${0} ${2}, ${0} ${3}, and ${0} ${4}!",
        "Good morning, and in case I don't see you, good afternoon, good evening, and good night!",
        |var| match var {
            "0" => Some("good".to_string()),
            "1" => Some("morning".to_string()),
            "2" => Some("afternoon".to_string()),
            "3" => Some("evening".to_string()),
            "4" => Some("night".to_string()),
            _ => panic!("error input: `{var}`"),
        },
    );
}

#[test]
fn a_variable_without_a_value_stays_as_it_is() {
    let (parser, errs) = TemplateParser::new("a ${x} b ${y:(.)} c");
    assert!(errs.is_empty());
    let (text, errs) = parser.parse(|var| if var == "x" { Some("1".to_string()) } else { None });
    assert_eq!(text, "a 1 b ${y:(.)} c");
    assert_eq!(errs.len(), 1);
    assert!(matches!(&errs[0], TemplateError::VariableNotFound(t) if t == "${y:(.)}"));
}

#[test]
fn a_value_that_the_expression_does_not_take_is_reported() {
    let (parser, errs) = TemplateParser::new("${figure:^([^-]*)(?:-.*)?$}/model.json ${n:^(\\d+)$}");
    assert!(errs.is_empty());
    let (text, errs) = parser.parse(|var| match var {
        "figure" => Some("036_casual-2023".to_string()),
        _ => Some("abc".to_string()),
    });
    assert_eq!(text, "036_casual/model.json ${n:^(\\d+)$}");
    assert_eq!(errs.len(), 1);
    assert!(matches!(
        &errs[0],
        TemplateError::VariableParse { template, variable }
            if template == "${n:^(\\d+)$}" && variable == "abc"
    ));
}

#[test]
fn an_expression_without_a_group_takes_nothing() {
    let (parser, errs) = TemplateParser::new("${v:abc}");
    assert!(errs.is_empty());
    let (text, errs) = parser.parse(|_| Some("abc".to_string()));
    assert_eq!(text, "${v:abc}");
    assert_eq!(errs.len(), 1);
}

#[test]
fn a_placeholder_with_a_broken_expression_is_text() {
    let (parser, errs) = TemplateParser::new("x${v:(}y${w}");
    assert_eq!(errs.len(), 1);
    assert!(matches!(&errs[0], TemplateError::Regex(_)));
    let (text, errs) = parser.parse(|var| {
        assert_eq!(var, "w");
        Some("W".to_string())
    });
    assert_eq!(text, "x${v:(}yW");
    assert!(errs.is_empty());
}

#[test]
fn parts_of_a_template() {
    assert!(matches!(Token::new_text("abc"), Token::Text(t) if t == "abc"));
    let (token, err) = Token::new_replace("${name}");
    assert!(err.is_none());
    assert!(matches!(token, Token::Replace(_)));
    assert_eq!(token.parse(&|var: &str| Some(var.to_uppercase())).0, "NAME");
    let (token, err) = Token::new_replace("${}");
    assert!(err.is_none());
    assert_eq!(token.parse(&|var: &str| Some(format!("[{var}]"))).0, "[]");
    let (token, err) = Token::new_replace("${a:[}");
    assert!(matches!(err, Some(TemplateError::Regex(_))));
    assert!(matches!(&token, Token::Text(t) if t == "${a:[}"));
    assert_eq!(token.parse(&|_: &str| None).0, "${a:[}");
    let (token, err) = Token::new_replace("${a:b:(c)}");
    assert!(err.is_none());
    assert_eq!(token.parse(&|var: &str| Some(format!("{var}-b:c"))).0, "c");
}

#[test]
fn templates_in_other_scripts() {
    test_compare("雨${だれ}。", "雨ショパン。", |var| match var {
        "だれ" => Some("ショパン".to_string()),
        _ => panic!("error input: `{var}`"),
    });
    test_compare("$${a}$", "$1$", |_| Some("1".to_string()));
    test_compare("${a}${a}", "11", |_| Some("1".to_string()));
}
