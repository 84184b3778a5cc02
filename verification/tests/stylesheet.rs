use web_parser::css::grammar::{Diagnostic, Level, ParseError};
use web_parser::css::parser::CssParser;
use web_parser::css::rules::{
    AttributeOperator, AttributeSelector, Declaration, Rule, Selector, SimpleSelector, StyleRule,
    Stylesheet,
};
use web_parser::css::values::{Color, Number, Unit, Value};

fn parse(text: &str) -> Stylesheet {
    let mut parser = CssParser::new(text);
    parser.parse_stylesheet().unwrap()
}

fn tag(name: &str) -> Selector {
    let mut s = SimpleSelector::new();
    s.tag_name = Some(name.to_string());
    Selector::Simple(s)
}

fn keyword(word: &str) -> Value {
    Value::Keyword(word.to_string())
}

fn number(text: &str) -> Number {
    Number { text: text.to_string() }
}

fn decl(name: &str, value: Value) -> Declaration {
    Declaration { name: name.to_string(), value, important: false }
}

fn style(selectors: Vec<Selector>, declarations: Vec<Declaration>) -> Rule {
    Rule::Style(StyleRule { selectors, declarations })
}

fn only_value(text: &str) -> Value {
    let mut sheet = parse(text);
    assert_eq!(sheet.rules.len(), 1);
    match sheet.rules.remove(0) {
        Rule::Style(mut rule) => {
            assert_eq!(rule.declarations.len(), 1);
            rule.declarations.remove(0).value
        }
        other => panic!("not a style rule: {:?}", other),
    }
}

#[test]
fn single_rule_yields_one_style_rule() {
    let sheet = parse("div { color: red; }");
    assert_eq!(sheet.rules, vec![style(vec![tag("div")], vec![decl("color", keyword("red"))])]);
}

#[test]
fn single_rule_in_each_shape() {
    let mut id = SimpleSelector::new();
    id.id = Some("main".to_string());
    let mut class = SimpleSelector::new();
    class.classes = vec!["note".to_string()];
    let mut universal = SimpleSelector::new();
    universal.universal = true;
    let selectors = [
        ("h1", tag("h1")),
        ("#main", Selector::Simple(id)),
        (".note", Selector::Simple(class)),
        ("*", Selector::Simple(universal)),
    ];
    let values = [
        ("bold", keyword("bold")),
        ("12.5px", Value::Length(number("12.5"), Unit::Px)),
        ("-3", Value::Length(number("-3"), Unit::Px)),
        ("2EM", Value::Length(number("2"), Unit::Em)),
        ("75%", Value::Percentage(number("75"))),
        ("#0f8", Value::Color(Color { r: 0, g: 0xff, b: 0x88, a: 255 })),
        ("#12", keyword("transparent")),
        ("'a; b'", Value::String("a; b".to_string())),
        ("\"\"", Value::String(String::new())),
    ];
    let marks = [("", false), (" !important", true), (" !IMPORTANT", true), (" !default", false)];
    for (selector_text, selector) in &selectors {
        for (value_text, value) in &values {
            for (mark, important) in marks {
                let text = format!("{} {{ Margin-Top: {}{}; }}", selector_text, value_text, mark);
                let mut parser = CssParser::new(&text);
                let (sheet, log) = parser.parse_stylesheet_with_diagnostics();
                let mut declaration = decl("margin-top", value.clone());
                declaration.important = important;
                assert_eq!(
                    sheet.rules,
                    vec![style(vec![selector.clone()], vec![declaration])],
                    "{}",
                    text
                );
                assert!(log.is_empty(), "{}", text);
                assert!(parser.eof());
            }
        }
    }
}

#[test]
fn single_rule_with_important() {
    let sheet = parse("p { margin: auto !important; }");
    let mut d = decl("margin", keyword("auto"));
    d.important = true;
    assert_eq!(sheet.rules, vec![style(vec![tag("p")], vec![d])]);
}

#[test]
fn important_is_case_insensitive() {
    let sheet = parse("p { margin: auto !IMPORTANT; }");
    let mut d = decl("margin", keyword("auto"));
    d.important = true;
    assert_eq!(sheet.rules, vec![style(vec![tag("p")], vec![d])]);
}

#[test]
fn bang_with_another_word_is_not_important() {
    let sheet = parse("p { margin: auto !default; }");
    assert_eq!(sheet.rules, vec![style(vec![tag("p")], vec![decl("margin", keyword("auto"))])]);
}

fn recoveries(text: &str) -> Vec<(Level, ParseError, usize)> {
    let mut parser = CssParser::new(text);
    let (sheet, log) = parser.parse_stylesheet_with_diagnostics();
    assert_eq!(sheet, parse(text));
    assert_eq!(&log, parser.diagnostics());
    log.iter().map(|d: &Diagnostic| (d.level, d.error, d.position)).collect()
}

#[test]
fn well_formed_text_has_no_recoveries() {
    assert_eq!(recoveries("a, b.c { x: 1px; y: z !important } @media m { p { } }"), vec![]);
    assert_eq!(recoveries(""), vec![]);
}

#[test]
fn skipped_declaration_is_recorded() {
    assert_eq!(recoveries("a { x y; z: u }"), vec![(Level::Declaration, ParseError::ExpectedColon, 7)]);
    assert_eq!(
        recoveries("a { : b; c: d; 1 }"),
        vec![
            (Level::Declaration, ParseError::EmptyPropertyName, 4),
            (Level::Declaration, ParseError::ExpectedColon, 18),
        ]
    );
}

#[test]
fn skipped_selector_and_rule_are_recorded() {
    assert_eq!(
        recoveries("{} b { }"),
        vec![
            (Level::Selector, ParseError::EmptySelector, 0),
            (Level::Rule, ParseError::NoValidSelectors, 0),
        ]
    );
    assert_eq!(
        recoveries("a[x y],b { }"),
        vec![(Level::Selector, ParseError::InvalidAttributeSelector, 6)]
    );
    assert_eq!(recoveries("a b"), vec![(Level::Rule, ParseError::ExpectedOpenBrace, 3)]);
}

#[test]
fn failed_at_rule_is_recorded() {
    assert_eq!(recoveries("@import x; a { }"), vec![(Level::AtRule, ParseError::UnsupportedAtRule, 10)]);
    assert_eq!(recoveries("@x { "), vec![(Level::AtRule, ParseError::UnclosedBlock, 5)]);
    assert_eq!(
        recoveries("@media { } a { }"),
        vec![
            (Level::AtRule, ParseError::EmptyMediaQuery, 7),
            (Level::Selector, ParseError::EmptySelector, 7),
            (Level::Rule, ParseError::NoValidSelectors, 7),
        ]
    );
}

#[test]
fn skipped_rule_in_a_nested_block_is_recorded() {
    assert_eq!(
        recoveries("@media m { > { } p { } }"),
        vec![
            (Level::Selector, ParseError::EmptySelector, 11),
            (Level::Rule, ParseError::NoValidSelectors, 13),
        ]
    );
}

#[test]
fn recoveries_are_placed_by_byte_offset() {
    assert_eq!(recoveries("é { x }"), vec![(Level::Declaration, ParseError::ExpectedColon, 8)]);
}

#[test]
fn recoveries_accumulate_over_calls() {
    let mut parser = CssParser::new("x y");
    assert!(parser.diagnostics().is_empty());
    assert_eq!(parser.parse_declaration(), Err(ParseError::ExpectedColon));
    assert!(parser.diagnostics().is_empty());
    assert!(parser.parse_stylesheet().is_ok());
    assert_eq!(parser.diagnostics().len(), 0);
    let mut parser = CssParser::new("{}{}");
    let (_, first) = parser.parse_stylesheet_with_diagnostics();
    assert_eq!(first.len(), 4);
    let (_, second) = parser.parse_stylesheet_with_diagnostics();
    assert_eq!(second, first);
}

#[test]
fn clone_is_equal() {
    let mut parser = CssParser::new("a#b.c[d=e] { f: g(1px, #fff) 'h' 2% !important } @media m { i { } } @keyframes k{ j { l: m } }");
    assert_eq!(parser.input().len(), 94);
    let sheet = parser.parse_stylesheet().unwrap();
    assert_eq!(sheet.rules.len(), 3);
    assert_eq!(sheet.clone(), sheet);
}

#[test]
fn two_parses_of_one_text_are_equal() {
    let text = "a, b.c { x: 1px 2em; y: #fff } @media screen { p { z: \"s\" } } junk";
    assert_eq!(parse(text), parse(text));
}

#[test]
fn hex_color_three_digits() {
    assert_eq!(
        only_value("a { color: #abc; }"),
        Value::Color(Color { r: 0xaa, g: 0xbb, b: 0xcc, a: 255 })
    );
}

#[test]
fn hex_color_four_digits() {
    let v = only_value("a { color: #abcd; }");
    assert_eq!(v, Value::Color(Color { r: 0xaa, g: 0xbb, b: 0xcc, a: 0xdd }));
    if let Value::Color(c) = v {
        assert_eq!(c.a as f32 / 255.0, 0xdd as f32 / 255.0);
    }
}

#[test]
fn hex_color_six_digits() {
    assert_eq!(
        only_value("a { color: #aabbcc; }"),
        Value::Color(Color { r: 0xaa, g: 0xbb, b: 0xcc, a: 255 })
    );
}

#[test]
fn hex_color_eight_digits() {
    assert_eq!(
        only_value("a { color: #AaBbCcDd; }"),
        Value::Color(Color { r: 0xaa, g: 0xbb, b: 0xcc, a: 0xdd })
    );
}

#[test]
fn hex_color_of_five_digits_is_transparent() {
    assert_eq!(only_value("a { color: #12345; }"), keyword("transparent"));
}

#[test]
fn hex_color_without_digits_is_transparent() {
    assert_eq!(only_value("a { color: #; }"), keyword("transparent"));
}

#[test]
fn length_with_unit() {
    assert_eq!(only_value("a { width: 10px; }"), Value::Length(number("10"), Unit::Px));
    assert_eq!(only_value("a { width: 1.5EM; }"), Value::Length(number("1.5"), Unit::Em));
    assert_eq!(only_value("a { width: -2rem; }"), Value::Length(number("-2"), Unit::Rem));
    assert_eq!(only_value("a { t: 90deg; }"), Value::Length(number("90"), Unit::Deg));
    assert_eq!(only_value("a { t: 1rad; }"), Value::Length(number("1"), Unit::Rad));
    assert_eq!(only_value("a { t: .5turn; }"), Value::Length(number(".5"), Unit::Turn));
    assert_eq!(only_value("a { t: 2s; }"), Value::Length(number("2"), Unit::S));
    assert_eq!(only_value("a { t: 20ms; }"), Value::Length(number("20"), Unit::Ms));
    assert_eq!(only_value("a { t: 50Hz; }"), Value::Length(number("50"), Unit::Hz));
    assert_eq!(only_value("a { t: 96dpi; }"), Value::Length(number("96"), Unit::Dpi));
}

#[test]
fn unknown_or_missing_unit_is_pixels() {
    assert_eq!(only_value("a { width: 10vh; }"), Value::Length(number("10"), Unit::Px));
    assert_eq!(only_value("a { width: 0; }"), Value::Length(number("0"), Unit::Px));
}

#[test]
fn number_text_reads_as_float_with_zero_fallback() {
    let read = |v: Value| match v {
        Value::Length(n, _) | Value::Percentage(n) => n.text.parse::<f32>().unwrap_or(0.0),
        other => panic!("not a number: {:?}", other),
    };
    assert_eq!(read(only_value("a { w: 12.5px; }")), 12.5);
    assert_eq!(read(only_value("a { w: 50%; }")), 50.0);
    assert_eq!(read(only_value("a { w: 1.2.3px; }")), 0.0);
    assert_eq!(read(only_value("a { w: +-px; }")), 0.0);
}

#[test]
fn percentage() {
    assert_eq!(only_value("a { width: 50%; }"), Value::Percentage(number("50")));
}

#[test]
fn quoted_strings() {
    assert_eq!(only_value("a { content: \"hi there\"; }"), Value::String("hi there".to_string()));
    assert_eq!(only_value("a { content: 'it\"s'; }"), Value::String("it\"s".to_string()));
}

#[test]
fn several_values_make_a_list() {
    assert_eq!(
        only_value("a { margin: 1px 2px auto; }"),
        Value::List(vec![
            Value::Length(number("1"), Unit::Px),
            Value::Length(number("2"), Unit::Px),
            keyword("auto"),
        ])
    );
}

#[test]
fn function_with_comma_separated_arguments() {
    assert_eq!(
        only_value("a { color: rgb(10%, 50%, 100%); }"),
        Value::Function(
            "rgb".to_string(),
            vec![
                Value::Percentage(number("10")),
                Value::Percentage(number("50")),
                Value::Percentage(number("100")),
            ]
        )
    );
}

#[test]
fn function_with_space_separated_arguments() {
    assert_eq!(
        only_value("a { color: hsl(0 100% 50%); }"),
        Value::Function(
            "hsl".to_string(),
            vec![Value::List(vec![
                Value::Length(number("0"), Unit::Px),
                Value::Percentage(number("100")),
                Value::Percentage(number("50")),
            ])]
        )
    );
}

#[test]
fn any_identifier_before_a_parenthesis_is_a_function() {
    assert_eq!(
        only_value("a { transform: translate(1px, 2px); }"),
        Value::Function(
            "translate".to_string(),
            vec![Value::Length(number("1"), Unit::Px), Value::Length(number("2"), Unit::Px)]
        )
    );
}

#[test]
fn nested_functions() {
    assert_eq!(
        only_value("a { w: f(g(x), y); }"),
        Value::Function(
            "f".to_string(),
            vec![Value::Function("g".to_string(), vec![keyword("x")]), keyword("y")]
        )
    );
}

#[test]
fn color_function_name_without_parenthesis_is_a_keyword() {
    assert_eq!(only_value("a { color: rgb; }"), keyword("rgb"));
}

#[test]
fn function_arguments_stop_where_nothing_can_be_read() {
    let sheet = parse("a { color: rgb(1, 2; } b { x: y; }");
    assert_eq!(
        sheet.rules,
        vec![
            style(
                vec![tag("a")],
                vec![decl(
                    "color",
                    Value::Function(
                        "rgb".to_string(),
                        vec![Value::Length(number("1"), Unit::Px), Value::Length(number("2"), Unit::Px)]
                    )
                )]
            ),
            style(vec![tag("b")], vec![decl("x", keyword("y"))]),
        ]
    );
}

#[test]
fn empty_value_does_not_poison_the_rest() {
    let sheet = parse("div { color: ; } span { color: red; }");
    assert_eq!(sheet.rules.len(), 2);
    assert_eq!(sheet.rules[0], style(vec![tag("div")], vec![decl("color", Value::List(vec![]))]));
    assert_eq!(sheet.rules[1], style(vec![tag("span")], vec![decl("color", keyword("red"))]));
}

#[test]
fn eleven_unparsable_rules_exhaust_the_error_budget() {
    let mut text = String::from("a { x: y; } ");
    for _ in 0..11 {
        text.push_str("{} ");
    }
    text.push_str("b { x: y; }");
    let mut parser = CssParser::new(&text);
    let sheet = parser.parse_stylesheet().unwrap();
    assert_eq!(sheet.rules, vec![style(vec![tag("a")], vec![decl("x", keyword("y"))])]);
    assert!(!parser.eof());
}

#[test]
fn nine_unparsable_rules_stay_within_the_budget() {
    let mut text = String::from("a { x: y; } ");
    for _ in 0..9 {
        text.push_str("{} ");
    }
    text.push_str("b { x: y; }");
    let sheet = parse(&text);
    assert_eq!(
        sheet.rules,
        vec![
            style(vec![tag("a")], vec![decl("x", keyword("y"))]),
            style(vec![tag("b")], vec![decl("x", keyword("y"))]),
        ]
    );
}

#[test]
fn a_good_rule_resets_the_error_count() {
    let mut text = String::new();
    for _ in 0..9 {
        text.push_str("{} ");
    }
    text.push_str("a { x: y; } ");
    for _ in 0..9 {
        text.push_str("{} ");
    }
    text.push_str("b { x: y; }");
    assert_eq!(parse(&text).rules.len(), 2);
}

#[test]
fn media_rule_with_one_nested_rule() {
    let sheet = parse("@media (min-width: 600px) { p { color: blue; } }");
    assert_eq!(
        sheet.rules,
        vec![Rule::Media {
            query: "(min-width: 600px)".to_string(),
            rules: vec![style(vec![tag("p")], vec![decl("color", keyword("blue"))])],
        }]
    );
}

#[test]
fn media_rule_without_query_is_dropped() {
    let sheet = parse("@media { p { color: blue; } } q { }");
    assert_eq!(sheet.rules, vec![style(vec![tag("q")], vec![])]);
}

#[test]
fn unterminated_comment_runs_to_the_end() {
    let mut parser = CssParser::new("a { x: y; } /* never closed");
    let sheet = parser.parse_stylesheet().unwrap();
    assert_eq!(sheet.rules.len(), 1);
    assert!(parser.eof());
}

#[test]
fn unterminated_string_runs_to_the_end() {
    let mut parser = CssParser::new("a { x: \"never closed; } b { }");
    let sheet = parser.parse_stylesheet().unwrap();
    assert_eq!(
        sheet.rules,
        vec![style(vec![tag("a")], vec![decl("x", Value::String("never closed; } b { }".to_string()))])]
    );
    assert!(parser.eof());
}

#[test]
fn comment_holding_a_star_is_skipped_whole() {
    let sheet = parse("/* a * b */ a { /* c */ x: y; }");
    assert_eq!(sheet.rules, vec![style(vec![tag("a")], vec![decl("x", keyword("y"))])]);
}

#[test]
fn truncated_inputs_terminate() {
    for text in ["div", "div {", "div { color", "div { color:", "div { color: red", "@media x", "@media x {", "a[", "a[x", "a[x=", "a[x='", "@", "#", "."] {
        let mut parser = CssParser::new(text);
        assert!(parser.parse_stylesheet().is_ok());
    }
}

#[test]
fn selector_parts() {
    let sheet = parse("div#main.a.b[href^='x'][disabled] , * { }");
    let mut first = SimpleSelector::new();
    first.tag_name = Some("div".to_string());
    first.id = Some("main".to_string());
    first.classes = vec!["a".to_string(), "b".to_string()];
    first.attributes = vec![
        AttributeSelector {
            name: "href".to_string(),
            op: Some(AttributeOperator::Prefix),
            value: Some("x".to_string()),
        },
        AttributeSelector { name: "disabled".to_string(), op: None, value: None },
    ];
    let mut second = SimpleSelector::new();
    second.universal = true;
    assert_eq!(
        sheet.rules,
        vec![style(vec![Selector::Simple(first), Selector::Simple(second)], vec![])]
    );
}

#[test]
fn attribute_operators() {
    let ops = [
        ("=", AttributeOperator::Equal),
        ("~=", AttributeOperator::Includes),
        ("|=", AttributeOperator::DashMatch),
        ("^=", AttributeOperator::Prefix),
        ("$=", AttributeOperator::Suffix),
        ("*=", AttributeOperator::Substring),
    ];
    for (text, op) in ops {
        let source = format!("[a{}b] {{ }}", text);
        let sheet = parse(&source);
        let mut s = SimpleSelector::new();
        s.attributes = vec![AttributeSelector {
            name: "a".to_string(),
            op: Some(op),
            value: Some("b".to_string()),
        }];
        assert_eq!(sheet.rules, vec![style(vec![Selector::Simple(s)], vec![])]);
    }
}

#[test]
fn bad_selector_is_skipped_within_the_list() {
    let sheet = parse("a[x y],b { }");
    assert_eq!(sheet.rules, vec![style(vec![tag("b")], vec![])]);
}

#[test]
fn unclosed_attribute_selector_skips_to_the_end() {
    let mut parser = CssParser::new("a[x, b { }");
    assert_eq!(parser.parse_stylesheet().unwrap().rules, vec![]);
    assert!(parser.eof());
}

#[test]
fn rule_without_valid_selectors_is_dropped() {
    let sheet = parse("> { x: y; } b { }");
    assert_eq!(sheet.rules, vec![style(vec![tag("b")], vec![])]);
}

#[test]
fn second_tag_name_ends_the_selector() {
    let sheet = parse("*a[x]b { }");
    let mut first = SimpleSelector::new();
    first.universal = true;
    first.tag_name = Some("a".to_string());
    first.attributes = vec![AttributeSelector { name: "x".to_string(), op: None, value: None }];
    assert_eq!(sheet.rules, vec![style(vec![Selector::Simple(first), tag("b")], vec![])]);
}

#[test]
fn bad_declaration_is_skipped_within_the_block() {
    let sheet = parse("a { x y; z: u; : q; w: v }");
    assert_eq!(
        sheet.rules,
        vec![style(vec![tag("a")], vec![decl("z", keyword("u")), decl("w", keyword("v"))])]
    );
}

#[test]
fn character_in_place_of_the_colon_is_consumed() {
    let sheet = parse("a { 12; x: y; w: v }");
    assert_eq!(sheet.rules, vec![style(vec![tag("a")], vec![decl("w", keyword("v"))])]);
}

#[test]
fn unsupported_at_rule_is_skipped() {
    let sheet = parse("@import url(x); @font-face { a: b; } p { c: d; }");
    assert_eq!(sheet.rules, vec![style(vec![tag("p")], vec![decl("c", keyword("d"))])]);
}

#[test]
fn non_ascii_text() {
    let sheet = parse("é { content: '→ ü'; }");
    assert_eq!(
        sheet.rules,
        vec![style(vec![tag("é")], vec![decl("content", Value::String("→ ü".to_string()))])]
    );
}

#[test]
fn bytes_consumed_counts_runs_in_bytes() {
    let mut parser = CssParser::new("é→ x");
    assert_eq!(parser.parse_identifier(), "é→");
    assert_eq!(parser.bytes_consumed(), 5);
    assert_eq!(parser.position(), 5);
    parser.consume_char();
    assert_eq!(parser.bytes_consumed(), 5);
    assert_eq!(parser.position(), 6);
}

#[test]
fn memory_limit_stops_the_parse() {
    let mut text = String::from("a { x: y; } /*");
    text.push_str(&"c".repeat(11 * 1024 * 1024));
    text.push_str("*/ b { x: y; } c { x: y; }");
    let mut parser = CssParser::new(&text);
    let sheet = parser.parse_stylesheet().unwrap();
    assert_eq!(sheet.rules.len(), 2);
    assert!(!parser.eof());
    assert!(parser.check_memory_limit().is_err());
}
