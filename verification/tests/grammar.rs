use web_parser::css::grammar::ParseError;
use web_parser::css::parser::{unit_for, CssParser};
use web_parser::css::rules::{
    AttributeOperator, AttributeSelector, Declaration, Keyframe, Rule, Selector, SimpleSelector,
    StyleRule,
};
use web_parser::css::specificity::Specificity;
use web_parser::css::values::{Number, Unit, Value};
use web_parser::text::CharClass;

fn keyword(word: &str) -> Value {
    Value::Keyword(word.to_string())
}

fn decl(name: &str, value: Value) -> Declaration {
    Declaration { name: name.to_string(), value, important: false }
}

fn tag(name: &str) -> Selector {
    let mut s = SimpleSelector::new();
    s.tag_name = Some(name.to_string());
    Selector::Simple(s)
}

#[test]
fn peek_returns_nul_past_the_end() {
    let parser = CssParser::new("ab");
    assert_eq!(parser.peek_char(0), 'a');
    assert_eq!(parser.peek_char(1), 'b');
    assert_eq!(parser.peek_char(2), '\0');
    assert_eq!(parser.peek_char(usize::MAX), '\0');
    assert_eq!(parser.next_char(), 'a');
    assert_eq!(CssParser::new("").next_char(), '\0');
}

#[test]
fn consume_advances_by_one_character() {
    let mut parser = CssParser::new("é!");
    assert!(!parser.eof());
    assert_eq!(parser.consume_char(), 'é');
    assert_eq!(parser.position(), 2);
    assert_eq!(parser.consume_char(), '!');
    assert!(parser.eof());
}

#[test]
fn consume_while_stops_at_the_end_of_input() {
    let mut parser = CssParser::new("aaa");
    assert_eq!(parser.consume_while(CharClass::Identifier), "aaa");
    assert!(parser.eof());
    assert_eq!(parser.consume_while(CharClass::Identifier), "");
    assert_eq!(parser.bytes_consumed(), 3);
}

#[test]
fn consume_while_may_consume_nothing() {
    let mut parser = CssParser::new("{a");
    assert_eq!(parser.consume_while(CharClass::Identifier), "");
    assert_eq!(parser.position(), 0);
    assert_eq!(parser.consume_while(CharClass::Except('a')), "{");
    assert_eq!(parser.consume_while(CharClass::ExceptTwo('{', 'a')), "");
}

#[test]
fn whitespace_is_the_unicode_white_space_set() {
    for c in "\t\n\u{b}\u{c}\r \u{85}\u{a0}\u{1680}\u{2000}\u{200a}\u{2028}\u{2029}\u{202f}\u{205f}\u{3000}".chars() {
        assert!(CharClass::Whitespace.matches(c), "{:?}", c);
        assert_eq!(c.is_whitespace(), true);
    }
    for c in "a0_-\u{200b}\u{feff}\u{1c}\u{0}".chars() {
        assert_eq!(CharClass::Whitespace.matches(c), c.is_whitespace(), "{:?}", c);
    }
    for code in 0u32..0x3100 {
        if let Some(c) = char::from_u32(code) {
            assert_eq!(CharClass::Whitespace.matches(c), c.is_whitespace(), "{:?}", c);
        }
    }
}

#[test]
fn identifier_characters() {
    for c in "azAZ09-_é→".chars() {
        assert!(web_parser::text::valid_identifier_char(c));
    }
    for c in " {}:;#.*[]()!@/\u{7f}\0".chars() {
        assert!(!web_parser::text::valid_identifier_char(c));
    }
    for code in 0u32..0x100 {
        let c = char::from_u32(code).unwrap();
        assert_eq!(
            web_parser::text::valid_identifier_char(c),
            c.is_alphanumeric() || c == '-' || c == '_' || c as u32 > 0x7f
        );
    }
}

#[test]
fn character_classes_agree_with_the_standard_library() {
    for code in 0u32..0x3000 {
        if let Some(c) = char::from_u32(code) {
            assert_eq!(CharClass::HexDigit.matches(c), c.is_ascii_hexdigit());
            assert_eq!(CharClass::Alphanumeric.matches(c), c.is_alphanumeric());
            assert_eq!(web_parser::text::utf8_len(c), c.len_utf8());
            assert_eq!(web_parser::text::to_ascii_lower(c), c.to_ascii_lowercase());
            if c.is_ascii_hexdigit() {
                assert_eq!(web_parser::text::hex_digit_value(c) as u32, c.to_digit(16).unwrap());
            }
        }
    }
    assert_eq!(web_parser::text::utf8_len('\u{10000}'), 4);
    assert_eq!(web_parser::text::utf8_len('\u{ffff}'), 3);
}

#[test]
fn whitespace_and_comments_are_skipped_together() {
    let mut parser = CssParser::new("  /* a */ \n /* b */x");
    parser.consume_whitespace_and_comments();
    assert_eq!(parser.next_char(), 'x');
}

#[test]
fn comment_with_stars_inside() {
    let mut parser = CssParser::new("/***/x");
    parser.skip_comment();
    assert_eq!(parser.next_char(), 'x');
    let mut parser = CssParser::new("/* * / */x");
    parser.skip_comment();
    assert_eq!(parser.next_char(), 'x');
    let mut parser = CssParser::new("/*/x");
    parser.skip_comment();
    assert!(parser.eof());
}

#[test]
fn unit_table() {
    assert_eq!(unit_for("px"), Unit::Px);
    assert_eq!(unit_for("em"), Unit::Em);
    assert_eq!(unit_for("rem"), Unit::Rem);
    assert_eq!(unit_for("%"), Unit::Percent);
    assert_eq!(unit_for("deg"), Unit::Deg);
    assert_eq!(unit_for("rad"), Unit::Rad);
    assert_eq!(unit_for("turn"), Unit::Turn);
    assert_eq!(unit_for("s"), Unit::S);
    assert_eq!(unit_for("ms"), Unit::Ms);
    assert_eq!(unit_for("hz"), Unit::Hz);
    assert_eq!(unit_for("dpi"), Unit::Dpi);
    assert_eq!(unit_for(""), Unit::Px);
    assert_eq!(unit_for("vh"), Unit::Px);
    assert_eq!(unit_for("PX"), Unit::Px);
    assert_eq!(unit_for("EM"), Unit::Px);
}

#[test]
fn unit_is_read_without_regard_to_case() {
    let mut parser = CssParser::new("TuRn;");
    assert_eq!(parser.parse_unit(), Unit::Turn);
    assert_eq!(parser.next_char(), ';');
}

#[test]
fn value_stops_at_its_terminators() {
    for (text, rest) in [("a b;c", ';'), ("a b!c", '!'), ("a b}c", '}'), ("a b:c", ':')] {
        let mut parser = CssParser::new(text);
        assert_eq!(parser.parse_value(), Value::List(vec![keyword("a"), keyword("b")]));
        assert_eq!(parser.next_char(), rest);
    }
}

#[test]
fn value_of_nothing_is_the_empty_list() {
    let mut parser = CssParser::new(";");
    assert_eq!(parser.parse_value(), Value::List(vec![]));
    assert_eq!(parser.position(), 0);
    let mut parser = CssParser::new("(a)");
    assert_eq!(parser.parse_value(), Value::List(vec![]));
    assert_eq!(parser.position(), 0);
}

#[test]
fn value_list_ends_at_the_closing_character() {
    let mut parser = CssParser::new("1px , b c, 'd') e");
    assert_eq!(
        parser.parse_value_list(')'),
        vec![
            Value::Length(Number { text: "1".to_string() }, Unit::Px),
            Value::List(vec![keyword("b"), keyword("c")]),
            Value::String("d".to_string()),
        ]
    );
    assert_eq!(parser.next_char(), ' ');
}

#[test]
fn number_is_the_run_of_numeric_characters() {
    let mut parser = CssParser::new("+1.5-2e3");
    assert_eq!(parser.parse_number(), Number { text: "+1.5-2".to_string() });
    assert_eq!(parser.next_char(), 'e');
}

#[test]
fn selector_errors() {
    assert_eq!(CssParser::new("{").parse_selector(), Err(ParseError::EmptySelector));
    assert_eq!(CssParser::new("").parse_selector(), Err(ParseError::EmptySelector));
    assert_eq!(CssParser::new("a[x y]").parse_selector(), Err(ParseError::InvalidAttributeSelector));
    assert_eq!(CssParser::new("{").parse_selectors(), Err(ParseError::NoValidSelectors));
    assert_eq!(CssParser::new("").parse_selectors(), Err(ParseError::NoValidSelectors));
}

#[test]
fn attribute_selector_forms() {
    let attr = |name: &str, op: Option<AttributeOperator>, value: Option<&str>| AttributeSelector {
        name: name.to_string(),
        op,
        value: value.map(|v| v.to_string()),
    };
    assert_eq!(CssParser::new("a]").parse_attribute_selector(), Ok(attr("a", None, None)));
    assert_eq!(CssParser::new("a ]").parse_attribute_selector(), Ok(attr("a", None, None)));
    assert_eq!(
        CssParser::new("a = \"b c\" ]").parse_attribute_selector(),
        Ok(attr("a", Some(AttributeOperator::Equal), Some("b c")))
    );
    assert_eq!(
        CssParser::new("a|=b]").parse_attribute_selector(),
        Ok(attr("a", Some(AttributeOperator::DashMatch), Some("b")))
    );
    assert_eq!(
        CssParser::new("a$=]").parse_attribute_selector(),
        Ok(attr("a", Some(AttributeOperator::Suffix), Some("")))
    );
    // a run of operator characters that spells no operator: the `=` goes with it
    assert_eq!(CssParser::new("a~~=]").parse_attribute_selector(), Ok(attr("a", None, None)));
    // operator characters without `=`
    let mut parser = CssParser::new("a~b] c");
    assert_eq!(parser.parse_attribute_selector(), Err(ParseError::InvalidAttributeSelector));
    assert_eq!(parser.next_char(), ' ');
    // unterminated: the rest is consumed
    let mut parser = CssParser::new("a='b");
    assert_eq!(parser.parse_attribute_selector(), Err(ParseError::InvalidAttributeSelector));
    assert!(parser.eof());
}

#[test]
fn declaration_errors() {
    assert_eq!(CssParser::new(": x").parse_declaration(), Err(ParseError::EmptyPropertyName));
    assert_eq!(CssParser::new("").parse_declaration(), Err(ParseError::EmptyPropertyName));
    assert_eq!(CssParser::new("x").parse_declaration(), Err(ParseError::ExpectedColon));
    let mut parser = CssParser::new("x ;y");
    assert_eq!(parser.parse_declaration(), Err(ParseError::ExpectedColon));
    assert_eq!(parser.next_char(), 'y');
    assert_eq!(CssParser::new("").parse_declarations(), Err(ParseError::ExpectedOpenBrace));
    let mut parser = CssParser::new("x{}");
    assert_eq!(parser.parse_declarations(), Err(ParseError::ExpectedOpenBrace));
    assert_eq!(parser.next_char(), '{');
}

#[test]
fn declaration_without_semicolon() {
    let mut parser = CssParser::new("a:b}");
    assert_eq!(parser.parse_declaration(), Ok(decl("a", keyword("b"))));
    assert_eq!(parser.next_char(), '}');
}

#[test]
fn declaration_name_is_lower_cased() {
    assert_eq!(CssParser::new("COLOR: Red").parse_declaration(), Ok(decl("color", keyword("Red"))));
    assert_eq!(
        CssParser::new("COLOR: red;").parse_declaration(),
        Ok(decl("color", keyword("red")))
    );
    assert_eq!(
        CssParser::new("Margin-TOP:0").parse_declaration(),
        Ok(decl("margin-top", Value::Length(Number { text: "0".to_string() }, Unit::Px)))
    );
    assert_eq!(CssParser::new("É: x").parse_declaration(), Ok(decl("é", keyword("x"))));
}

#[test]
fn declarations_block_ends_at_the_end_of_input() {
    let mut parser = CssParser::new("{ a: b; c: d");
    assert_eq!(
        parser.parse_declarations(),
        Ok(vec![decl("a", keyword("b")), decl("c", keyword("d"))])
    );
    assert!(parser.eof());
}

#[test]
fn rule_is_selectors_and_block() {
    let mut parser = CssParser::new("a,b{c:d}e");
    assert_eq!(
        parser.parse_rule(),
        Ok(Rule::Style(StyleRule {
            selectors: vec![tag("a"), tag("b")],
            declarations: vec![decl("c", keyword("d"))],
        }))
    );
    assert_eq!(parser.next_char(), 'e');
    assert_eq!(CssParser::new("a").parse_rule(), Err(ParseError::ExpectedOpenBrace));
    assert_eq!(CssParser::new("{}").parse_rule(), Err(ParseError::NoValidSelectors));
}

#[test]
fn skip_to_next_rule_tracks_depth() {
    let mut parser = CssParser::new("a { b { c } d } e");
    assert_eq!(parser.skip_to_next_rule(), 15);
    assert_eq!(parser.next_char(), ' ');
    let mut parser = CssParser::new("x @media");
    assert_eq!(parser.skip_to_next_rule(), 2);
    assert_eq!(parser.next_char(), '@');
    let mut parser = CssParser::new("{ @x } y");
    assert_eq!(parser.skip_to_next_rule(), 6);
    let mut parser = CssParser::new("} y");
    assert_eq!(parser.skip_to_next_rule(), 1);
    let mut parser = CssParser::new("abc");
    assert_eq!(parser.skip_to_next_rule(), 3);
    assert!(parser.eof());
    assert_eq!(CssParser::new("@").skip_to_next_rule(), 0);
    let mut parser = CssParser::new("é { → } x");
    assert_eq!(parser.skip_to_next_rule(), 10);
    assert_eq!(parser.position(), 10);
    assert_eq!(parser.peek_char(1), 'x');
}

#[test]
fn skip_block_balances_braces() {
    let mut parser = CssParser::new("{ a { b } \"}\" '}' /* } */ } c");
    assert_eq!(parser.skip_block(), Ok(()));
    assert_eq!(parser.next_char(), ' ');
    assert_eq!(parser.peek_char(1), 'c');
    let mut parser = CssParser::new("{ a { b }");
    assert_eq!(parser.skip_block(), Err(ParseError::UnclosedBlock));
    assert!(parser.eof());
    let mut parser = CssParser::new("{ \"unterminated }");
    assert_eq!(parser.skip_block(), Err(ParseError::UnclosedBlock));
    assert!(parser.eof());
}

#[test]
fn skip_helpers() {
    let mut parser = CssParser::new("ab]c");
    parser.skip_to_char(']');
    assert_eq!(parser.next_char(), 'c');
    parser.skip_to_char(']');
    assert!(parser.eof());
    let mut parser = CssParser::new("a b, c {");
    parser.skip_to_next_selector();
    assert_eq!(parser.position(), 4);
    parser.skip_to_next_selector();
    assert_eq!(parser.next_char(), '{');
    let mut parser = CssParser::new("a: b; c }");
    parser.skip_to_next_declaration();
    assert_eq!(parser.position(), 5);
    parser.skip_to_next_declaration();
    assert_eq!(parser.next_char(), '}');
}

#[test]
fn expect_char_consumes_only_what_is_expected() {
    let mut parser = CssParser::new("{a");
    assert_eq!(parser.expect_char('}'), Err(ParseError::ExpectedCharacter));
    assert_eq!(parser.position(), 0);
    assert_eq!(parser.expect_char('{'), Ok(()));
    assert_eq!(parser.position(), 1);
    assert_eq!(CssParser::new("").expect_char('\0'), Err(ParseError::ExpectedCharacter));
}

#[test]
fn at_rule_errors() {
    assert_eq!(CssParser::new("@media { }").parse_at_rule(), Err(ParseError::EmptyMediaQuery));
    assert_eq!(CssParser::new("@media screen").parse_at_rule(), Err(ParseError::ExpectedCharacter));
    assert_eq!(CssParser::new("@media screen { a { } ").parse_at_rule(), Err(ParseError::ExpectedCharacter));
    let mut parser = CssParser::new("@import 'x'; a");
    assert_eq!(parser.parse_at_rule(), Err(ParseError::UnsupportedAtRule));
    assert_eq!(parser.next_char(), ' ');
    let mut parser = CssParser::new("@font-face { a: b } c");
    assert_eq!(parser.parse_at_rule(), Err(ParseError::UnsupportedAtRule));
    assert_eq!(parser.peek_char(1), 'c');
    assert_eq!(CssParser::new("@x { a").parse_at_rule(), Err(ParseError::UnclosedBlock));
    assert_eq!(CssParser::new("@x").parse_at_rule(), Err(ParseError::UnsupportedAtRule));
    assert_eq!(CssParser::new("@keyframes a }").parse_at_rule(), Err(ParseError::ExpectedCharacter));
    assert_eq!(CssParser::new("@keyframes a").parse_at_rule(), Err(ParseError::ExpectedCharacter));
    assert_eq!(CssParser::new("@keyframes a { from { }").parse_at_rule(), Err(ParseError::ExpectedCharacter));
    assert_eq!(CssParser::new("@keyframes a { from }").parse_at_rule(), Err(ParseError::InvalidKeyframeSelector));
    assert_eq!(CssParser::new("@keyframes a { from {} to x").parse_at_rule(), Err(ParseError::InvalidKeyframeSelector));
    assert_eq!(
        CssParser::new("@keyframes a{ from ").parse_at_rule(),
        Err(ParseError::InvalidKeyframeSelector)
    );
}

#[test]
fn keyframes_rule() {
    let length = |t: &str| Value::Length(Number { text: t.to_string() }, Unit::Px);
    let mut parser =
        CssParser::new("@keyframes spin { from { opacity: 0; } to { opacity: 1; } }");
    assert_eq!(
        parser.parse_at_rule(),
        Ok(Rule::Keyframes {
            name: "spin".to_string(),
            frames: vec![
                Keyframe {
                    selectors: vec!["from".to_string()],
                    declarations: vec![decl("opacity", length("0"))],
                },
                Keyframe {
                    selectors: vec!["to".to_string()],
                    declarations: vec![decl("opacity", length("1"))],
                },
            ],
        })
    );
    assert!(parser.eof());
}

#[test]
fn keyframe_selectors_are_trimmed() {
    let mut parser = CssParser::new("@keyframes spin{ from { a: b; } 0% , 50%\t,to{ c: d; } }x");
    assert_eq!(
        parser.parse_at_rule(),
        Ok(Rule::Keyframes {
            name: "spin".to_string(),
            frames: vec![
                Keyframe {
                    selectors: vec!["from".to_string()],
                    declarations: vec![decl("a", keyword("b"))],
                },
                Keyframe {
                    selectors: vec!["0%".to_string(), "50%".to_string(), "to".to_string()],
                    declarations: vec![decl("c", keyword("d"))],
                },
            ],
        })
    );
    assert_eq!(parser.next_char(), 'x');
    let mut parser = CssParser::new(" a b ,, c {");
    assert_eq!(
        parser.parse_keyframe_selectors(),
        Ok(vec!["a b".to_string(), "".to_string(), "c".to_string()])
    );
    assert_eq!(parser.next_char(), '{');
}

#[test]
fn keyframes_block_may_be_empty() {
    let cases = [
        ("@keyframes a{}", "a"),
        ("@keyframes a { }", "a"),
        ("@keyframes a\n{ /* none */ }", "a"),
        ("@keyframes  {}", ""),
    ];
    for (text, name) in cases {
        let mut parser = CssParser::new(text);
        assert_eq!(
            parser.parse_at_rule(),
            Ok(Rule::Keyframes { name: name.to_string(), frames: vec![] }),
            "{}",
            text
        );
        assert!(parser.eof());
    }
}

#[test]
fn media_rule_skips_bad_nested_rules() {
    let mut parser = CssParser::new("@media  print  { > { x: y } a { b: c } }");
    assert_eq!(
        parser.parse_at_rule(),
        Ok(Rule::Media {
            query: "print".to_string(),
            rules: vec![Rule::Style(StyleRule {
                selectors: vec![tag("a")],
                declarations: vec![decl("b", keyword("c"))],
            })],
        })
    );
}

#[test]
fn skip_at_rule_by_kind() {
    let mut parser = CssParser::new("@media x { a { } } b");
    assert_eq!(parser.skip_at_rule(), Ok(()));
    assert_eq!(parser.peek_char(1), 'b');
    let mut parser = CssParser::new("@import x; b");
    assert_eq!(parser.skip_at_rule(), Ok(()));
    assert_eq!(parser.peek_char(1), 'b');
    assert_eq!(CssParser::new("@supports x { ").skip_at_rule(), Err(ParseError::UnclosedBlock));
    let mut parser = CssParser::new("@keyframes x");
    assert_eq!(parser.skip_at_rule(), Ok(()));
    assert!(parser.eof());
}

#[test]
fn error_messages() {
    assert_eq!(ParseError::UnclosedBlock.message(), "Unclosed block");
    assert_eq!(ParseError::MemoryLimitExceeded.message(), "Memory limit exceeded");
    assert_eq!(ParseError::NoValidSelectors.message(), "No valid selectors found");
    assert_eq!(ParseError::EmptySelector.message(), "Empty selector");
    assert_eq!(ParseError::InvalidAttributeSelector.message(), "Invalid attribute selector");
    assert_eq!(ParseError::ExpectedOpenBrace.message(), "Expected '{' for declarations block");
    assert_eq!(ParseError::EmptyPropertyName.message(), "Empty property name");
    assert_eq!(ParseError::ExpectedColon.message(), "Expected ':' after property name");
    assert_eq!(ParseError::EmptyMediaQuery.message(), "Empty media query");
    assert_eq!(ParseError::UnsupportedAtRule.message(), "Skipped unsupported at-rule");
    assert_eq!(ParseError::ExpectedCharacter.message(), "Expected character not found");
    assert_eq!(ParseError::InvalidKeyframeSelector.message(), "Invalid keyframe selector");
}

#[test]
fn memory_check_is_against_ten_mebibytes() {
    let text = "a".repeat(10 * 1024 * 1024 + 1);
    let mut parser = CssParser::new(&text);
    assert_eq!(parser.check_memory_limit(), Ok(()));
    parser.consume_while(CharClass::Except('b'));
    assert_eq!(parser.bytes_consumed(), 10 * 1024 * 1024 + 1);
    assert_eq!(parser.check_memory_limit(), Err(ParseError::MemoryLimitExceeded));
    let text = "a".repeat(10 * 1024 * 1024);
    let mut parser = CssParser::new(&text);
    parser.consume_while(CharClass::Except('b'));
    assert_eq!(parser.check_memory_limit(), Ok(()));
}

#[test]
fn specificity_counts() {
    let mut s = SimpleSelector::new();
    assert_eq!(s.specificity(), Specificity::new(0, 0, 0));
    s.tag_name = Some("a".to_string());
    s.classes = vec!["x".to_string(), "y".to_string()];
    assert_eq!(s.specificity(), Specificity::new(0, 2, 1));
    s.id = Some("i".to_string());
    let sp = s.specificity();
    assert_eq!((sp.id_count(), sp.class_count(), sp.tag_count()), (1, 2, 1));
}

#[test]
fn specificity_order_is_lexicographic() {
    let ordered = [
        Specificity::new(0, 0, 0),
        Specificity::new(0, 0, 1),
        Specificity::new(0, 1, 0),
        Specificity::new(0, 7, 9),
        Specificity::new(1, 0, 0),
        Specificity::new(1, 0, 1),
        Specificity::new(1, 2, 0),
    ];
    for i in 0..ordered.len() {
        for j in 0..ordered.len() {
            assert_eq!(ordered[i].partial_cmp(&ordered[j]), Some(i.cmp(&j)));
            assert_eq!(ordered[i].cmp(&ordered[j]), i.cmp(&j));
            assert_eq!(ordered[i] < ordered[j], i < j);
            assert_eq!(ordered[i] == ordered[j], i == j);
        }
    }
    assert_eq!(*ordered.iter().max().unwrap(), Specificity::new(1, 2, 0));
}
