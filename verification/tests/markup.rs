use web_parser::css::rules::{Declaration, Rule, Selector, SimpleSelector, StyleRule, Stylesheet};
use web_parser::css::values::{Color, Number, Unit, Value};
use web_parser::html::dom::Node;
use web_parser::html::parser::{wrap, Parser};
use web_parser::html::tokenizer::{Token, Tokenizer};
use web_parser::json::{
    css_value_to_json, declaration_to_json, node_to_json, selector_to_json, stylesheet_to_json,
    Json,
};
use web_parser::printer::{
    collapse_whitespace, escape_html_attribute, escape_html_text, pretty_print, render_into,
    PrintMode,
};
use web_parser::styles::parse_inline_styles;

fn tokens(text: &str) -> Vec<Token> {
    let mut tokenizer = Tokenizer::new(text.to_string());
    assert_eq!(tokenizer.input(), text);
    let mut out = Vec::new();
    loop {
        let token = tokenizer.next_token();
        if token == Token::EOF {
            assert!(tokenizer.at_end());
            assert_eq!(tokenizer.next_token(), Token::EOF);
            return out;
        }
        out.push(token);
        assert!(out.len() <= text.chars().count());
    }
}

fn attrs(pairs: &[(&str, &str)]) -> Vec<(String, String)> {
    pairs.iter().map(|(k, v)| (k.to_string(), v.to_string())).collect()
}

fn start(name: &str, pairs: &[(&str, &str)]) -> Token {
    Token::StartTag(name.to_string(), attrs(pairs))
}

fn end(name: &str) -> Token {
    Token::EndTag(name.to_string())
}

fn text(t: &str) -> Token {
    Token::Text(t.to_string())
}

fn parse(source: &str) -> Node {
    Parser::new(source.to_string()).parse()
}

fn el(name: &str, pairs: &[(&str, &str)], children: Vec<Node>) -> Node {
    Node::elem(name.to_string(), attrs(pairs), children, false)
}

fn void(name: &str, pairs: &[(&str, &str)]) -> Node {
    Node::elem(name.to_string(), attrs(pairs), vec![], true)
}

fn txt(t: &str) -> Node {
    Node::text(t.to_string())
}

fn document(children: Vec<Node>) -> Node {
    Node::new(web_parser::html::dom::NodeType::Document, children)
}

fn wrapped(head: Vec<Node>, body: Vec<Node>) -> Node {
    document(vec![el("html", &[], vec![el("head", &[], head), el("body", &[], body)])])
}

#[test]
fn tokens_of_a_small_document() {
    assert_eq!(
        tokens("<!DOCTYPE html>\n<html> <p class=\"a\">Hi &amp; <b>you</b></p><!-- c --></html>"),
        vec![
            Token::Doctype,
            start("html", &[]),
            start("p", &[("class", "a")]),
            text("Hi &amp;"),
            start("b", &[]),
            text("you"),
            end("b"),
            end("p"),
            Token::Comment(" c ".to_string()),
            end("html"),
        ]
    );
}

#[test]
fn tag_and_attribute_names_are_lowercased() {
    assert_eq!(tokens("<A HREF=X Y>"), vec![start("a", &[("href", "X"), ("y", "")])]);
    assert_eq!(tokens("</DIV  >"), vec![end("div")]);
    assert_eq!(tokens("<\u{c9}>"), vec![start("\u{c9}", &[])]);
}

#[test]
fn attribute_forms() {
    assert_eq!(
        tokens("<a x = 'y z' w=1 v=\"'\" u>t</a>"),
        vec![start("a", &[("x", "y z"), ("w", "1"), ("v", "'"), ("u", "")]), text("t"), end("a")]
    );
    assert_eq!(tokens("<a =b>"), vec![start("a", &[("", "b")])]);
    assert_eq!(tokens("<d-iv>"), vec![start("d", &[("-iv", "")])]);
    assert_eq!(tokens("<br/>"), vec![start("br", &[("/", "")])]);
    assert_eq!(tokens("<br />x"), vec![start("br", &[("/", "")]), text("x")]);
}

#[test]
fn truncated_tags() {
    assert_eq!(tokens("<"), vec![text("<")]);
    assert_eq!(tokens("a <"), vec![text("a"), text("<")]);
    assert_eq!(tokens("<a"), vec![start("a", &[])]);
    assert_eq!(tokens("<a "), vec![start("a", &[])]);
    assert_eq!(tokens("<a x"), vec![start("a", &[("x", "")])]);
    assert_eq!(tokens("<a x="), vec![start("a", &[("x", "")])]);
    assert_eq!(tokens("<a x= "), vec![start("a", &[("x", "")])]);
    assert_eq!(tokens("<a x='y"), vec![start("a", &[("x", "y")])]);
    assert_eq!(tokens("</"), vec![end("")]);
    assert_eq!(tokens("</>"), vec![end("")]);
    assert_eq!(tokens("<!"), vec![text("<!")]);
    assert_eq!(tokens("<!-"), vec![text("<!"), text("-")]);
    assert_eq!(tokens("<!--"), vec![text("<!"), text("--")]);
}

#[test]
fn comments_and_doctypes() {
    assert_eq!(tokens("<!--a-->b"), vec![Token::Comment("a".to_string()), text("b")]);
    assert_eq!(tokens("<!---->"), vec![Token::Comment("".to_string())]);
    assert_eq!(tokens("<!--a--b-->c"), vec![Token::Comment("a".to_string()), text("-->c")]);
    assert_eq!(tokens("<!--abc"), vec![Token::Comment("a".to_string())]);
    assert_eq!(tokens("<!--a"), vec![Token::Comment("".to_string())]);
    assert_eq!(tokens("<!doctype html>x"), vec![Token::Doctype, text("x")]);
    assert_eq!(tokens("<!x"), vec![text("<!"), text("x")]);
    assert_eq!(tokens("<!xyz"), vec![Token::Doctype]);
}

#[test]
fn text_is_trimmed_and_whitespace_alone_is_no_token() {
    assert_eq!(tokens("  hello   world  <p>  "), vec![text("hello   world"), start("p", &[])]);
    assert_eq!(tokens(" \n\t "), vec![]);
    assert_eq!(tokens(""), vec![]);
}

#[test]
fn document_with_html_element_is_kept() {
    let doc = parse("<!DOCTYPE html><html><head><title>T</title></head><body><p class=\"a\">Hi <b>you</b></p><br><img src=x></body></html>");
    assert_eq!(
        doc,
        document(vec![
            Node::doctype(),
            el(
                "html",
                &[],
                vec![
                    el("head", &[], vec![el("title", &[], vec![txt("T")])]),
                    el(
                        "body",
                        &[],
                        vec![
                            el("p", &[("class", "a")], vec![txt("Hi"), el("b", &[], vec![txt("you")])]),
                            void("br", &[]),
                            void("img", &[("src", "x")]),
                        ]
                    ),
                ]
            ),
        ])
    );
}

#[test]
fn nodes_without_html_element_are_wrapped() {
    assert_eq!(
        parse("<head><title>x</title></head><p>y</p><!--c-->"),
        wrapped(
            vec![el("title", &[], vec![txt("x")])],
            vec![el("p", &[], vec![txt("y")]), Node::comment("c".to_string())]
        )
    );
    assert_eq!(parse(""), wrapped(vec![], vec![]));
    assert_eq!(parse("<!DOCTYPE html>"), wrapped(vec![], vec![Node::doctype()]));
    assert_eq!(parse("<html></html><p>x</p>"), document(vec![el("html", &[], vec![]), el("p", &[], vec![txt("x")])]));
}

#[test]
fn the_last_head_wins() {
    assert_eq!(
        parse("<head>1</head>a<head>2</head>b"),
        wrapped(vec![txt("2")], vec![txt("a"), txt("b")])
    );
    let nodes = vec![txt("a"), el("head", &[], vec![txt("1")]), el("head", &[], vec![])];
    assert_eq!(wrap(nodes), el("html", &[], vec![el("head", &[], vec![]), el("body", &[], vec![txt("a")])]));
}

#[test]
fn end_tags_that_match_nothing_are_dropped() {
    assert_eq!(
        parse("</x><div><p>a</div>b</p>c"),
        wrapped(vec![], vec![el("div", &[], vec![el("p", &[], vec![txt("a"), txt("b")]), txt("c")])])
    );
    assert_eq!(parse("<div><span>"), wrapped(vec![], vec![el("div", &[], vec![el("span", &[], vec![])])]));
}

#[test]
fn parse_node_by_token() {
    let mut parser = Parser::new("<br>x</p><!--c--><p>y</p>".to_string());
    assert_eq!(parser.parse_node(), Some(void("br", &[])));
    assert_eq!(parser.parse_node(), Some(txt("x")));
    assert_eq!(parser.parse_node(), None);
    assert_eq!(parser.parse_node(), Some(Node::comment("c".to_string())));
    assert_eq!(parser.parse_node(), Some(el("p", &[], vec![txt("y")])));
    assert_eq!(parser.parse_node(), None);
    assert_eq!(parser.parse_node(), None);
}

#[test]
fn parse_element_reads_to_its_end_tag() {
    let mut parser = Parser::new("a<b>c</b></x></div>d".to_string());
    assert_eq!(
        parser.parse_element("div".to_string(), attrs(&[("k", "v")])),
        el("div", &[("k", "v")], vec![txt("a"), el("b", &[], vec![txt("c")])])
    );
    assert_eq!(parser.parse_node(), Some(txt("d")));
}

#[test]
fn escaping() {
    assert_eq!(escape_html_text("a < b && c > \"d\" 'e'"), "a &lt; b &amp;&amp; c &gt; \"d\" 'e'");
    assert_eq!(escape_html_text(""), "");
    assert_eq!(escape_html_text("&amp;"), "&amp;amp;");
    assert_eq!(
        escape_html_attribute("a < b & c > \"d\" 'e'"),
        "a &lt; b &amp; c &gt; &quot;d&quot; &apos;e&apos;"
    );
    for sample in ["<&>\"'", "x&lt;y", "é → ü", "&&&", "'\"'\""] {
        assert_eq!(
            escape_html_text(sample),
            sample.replace('&', "&amp;").replace('<', "&lt;").replace('>', "&gt;")
        );
        assert_eq!(
            escape_html_attribute(sample),
            sample
                .replace('&', "&amp;")
                .replace('<', "&lt;")
                .replace('>', "&gt;")
                .replace('"', "&quot;")
                .replace('\'', "&apos;")
        );
    }
}

#[test]
fn collapsing_whitespace() {
    assert_eq!(collapse_whitespace("a  b\n\t c".to_string()), "a b c");
    assert_eq!(collapse_whitespace("  a  ".to_string()), " a ");
    assert_eq!(collapse_whitespace("".to_string()), "");
    assert_eq!(collapse_whitespace(" \n ".to_string()), " ");
    assert_eq!(collapse_whitespace("a\u{a0}\u{2003}b".to_string()), "a b");
    assert_eq!(collapse_whitespace("abc".to_string()), "abc");
}

#[test]
fn compact_output() {
    let doc = parse("<!DOCTYPE html><html><head><title>T</title></head><body><p class=\"a\" hidden>Hi &  <b>you</b></p><br><img src='x\"y'><!-- c --></body></html>");
    assert_eq!(
        pretty_print(&doc, 0, PrintMode::Compact),
        "<!DOCTYPE html>\n<html><head><title>T</title></head><body><p class=\"a\" hidden>Hi &amp;<b>you</b></p><br/>\n<img src=\"x&quot;y\"/>\n<!-- c --></body></html>"
    );
}

#[test]
fn pretty_output() {
    let doc = parse("<div><p>a  b</p><br><!--c--></div>");
    assert_eq!(
        pretty_print(&doc, 0, PrintMode::Pretty),
        "<html>\n  <head></head>\n  <body>\n    <div>\n      <p>\n        a b\n      </p>\n\n      <br/>\n      <!--c-->\n    </div>\n\n  </body>\n\n</html>\n\n"
    );
    assert_eq!(pretty_print(&txt(" x "), 3, PrintMode::Pretty), "   x\n");
    assert_eq!(pretty_print(&txt(" x "), 3, PrintMode::Compact), " x ");
    assert_eq!(pretty_print(&txt("   "), 3, PrintMode::Pretty), "");
    assert_eq!(pretty_print(&txt("   "), 3, PrintMode::Compact), " ");
    assert_eq!(pretty_print(&el("a", &[], vec![]), 2, PrintMode::Pretty), "  <a></a>\n");
    assert_eq!(pretty_print(&el("a", &[], vec![]), 2, PrintMode::Compact), "<a></a>");
    assert_eq!(
        pretty_print(&Node::elem("a".to_string(), vec![], vec![txt("x")], true), 0, PrintMode::Compact),
        "<a/>\n"
    );
}

#[test]
fn json_mode_writes_doctypes_only() {
    let doc = parse("<!DOCTYPE html><html><p>a</p><!--c--><br></html>");
    assert_eq!(pretty_print(&doc, 0, PrintMode::Json), "<!DOCTYPE html>\n");
    assert_eq!(pretty_print(&el("a", &[], vec![Node::doctype()]), 0, PrintMode::Json), "<!DOCTYPE html>\n");
    assert_eq!(pretty_print(&void("br", &[]), 0, PrintMode::Json), "");
}

#[test]
fn render_into_appends() {
    let mut out = String::from("x");
    render_into(&mut out, &txt("a"), 0, PrintMode::Compact);
    render_into(&mut out, &Node::comment("b".to_string()), 1, PrintMode::Pretty);
    assert_eq!(out, "xa <!--b-->\n");
}

fn tag(name: &str) -> Selector {
    let mut s = SimpleSelector::new();
    s.tag_name = Some(name.to_string());
    Selector::Simple(s)
}

fn style(selector: &str, declarations: Vec<Declaration>) -> Rule {
    Rule::Style(StyleRule { selectors: vec![tag(selector)], declarations })
}

#[test]
fn inline_styles_are_gathered_in_document_order() {
    let doc = parse("<style>p { color: red; }</style><div><style>a{} b{}</style><style><!--x--></style><style></style></div>");
    let mut sheet = Stylesheet { rules: vec![style("first", vec![])] };
    parse_inline_styles(&doc, &mut sheet);
    assert_eq!(
        sheet.rules,
        vec![
            style("first", vec![]),
            style(
                "p",
                vec![Declaration {
                    name: "color".to_string(),
                    value: Value::Keyword("red".to_string()),
                    important: false,
                }]
            ),
            style("a", vec![]),
            style("b", vec![]),
        ]
    );
}

#[test]
fn style_element_is_not_searched_further() {
    let inner = el("style", &[], vec![txt("a{}")]);
    let outer = el("style", &[], vec![el("div", &[], vec![]), inner]);
    let mut sheet = Stylesheet { rules: vec![] };
    parse_inline_styles(&outer, &mut sheet);
    assert_eq!(sheet.rules, vec![]);
    let outer = el("style", &[], vec![txt("b{}"), el("style", &[], vec![txt("a{}")])]);
    parse_inline_styles(&outer, &mut sheet);
    assert_eq!(sheet.rules, vec![style("b", vec![])]);
}

fn s(t: &str) -> Json {
    Json::String(t.to_string())
}

fn obj(members: Vec<(&str, Json)>) -> Json {
    Json::Object(members.into_iter().map(|(k, v)| (k.to_string(), v)).collect())
}

#[test]
fn node_json() {
    let doc = document(vec![
        Node::doctype(),
        el("a", &[("href", "x"), ("b", "")], vec![txt("t"), Node::comment("c".to_string())]),
        void("br", &[]),
    ]);
    assert_eq!(
        node_to_json(&doc),
        obj(vec![
            ("type", s("document")),
            (
                "children",
                Json::Array(vec![
                    obj(vec![("type", s("doctype"))]),
                    obj(vec![
                        ("type", s("element")),
                        ("tag", s("a")),
                        ("attributes", Json::Array(vec![obj(vec![("href", s("x"))]), obj(vec![("b", s(""))])])),
                        (
                            "children",
                            Json::Array(vec![
                                obj(vec![("type", s("text")), ("value", s("t"))]),
                                obj(vec![("type", s("comment")), ("value", s("c"))]),
                            ])
                        ),
                    ]),
                    obj(vec![
                        ("type", s("element")),
                        ("tag", s("br")),
                        ("attributes", Json::Array(vec![])),
                        ("children", Json::Array(vec![])),
                        ("selfClosing", Json::Bool(true)),
                    ]),
                ])
            ),
        ])
    );
}

fn number(t: &str) -> Number {
    Number { text: t.to_string() }
}

#[test]
fn value_json() {
    assert_eq!(css_value_to_json(&Value::Keyword("red".to_string())), s("red"));
    assert_eq!(css_value_to_json(&Value::String("x".to_string())), s("x"));
    assert_eq!(css_value_to_json(&Value::Url("u".to_string())), s("u"));
    assert_eq!(css_value_to_json(&Value::Initial), s("initial"));
    assert_eq!(css_value_to_json(&Value::Inherit), s("inherit"));
    assert_eq!(css_value_to_json(&Value::Unset), s("unset"));
    assert_eq!(css_value_to_json(&Value::CurrentColor), s("currentColor"));
    assert_eq!(css_value_to_json(&Value::Auto), s("auto"));
    assert_eq!(css_value_to_json(&Value::NoneValue), s("none"));
    assert_eq!(
        css_value_to_json(&Value::Length(number("1.5"), Unit::Px)),
        obj(vec![("value", Json::Literal(number("1.5"))), ("unit", s("px"))])
    );
    assert_eq!(
        css_value_to_json(&Value::Length(number("1"), Unit::Percent)),
        obj(vec![("value", Json::Literal(number("1"))), ("unit", s("percent"))])
    );
    assert_eq!(
        css_value_to_json(&Value::Length(number("1"), Unit::Khz)),
        obj(vec![("value", Json::Literal(number("1"))), ("unit", s("khz"))])
    );
    assert_eq!(
        css_value_to_json(&Value::Percentage(number("50"))),
        obj(vec![("value", Json::Literal(number("50"))), ("unit", s("%"))])
    );
    let color = obj(vec![
        ("type", s("color")),
        ("r", Json::Integer(1)),
        ("g", Json::Integer(2)),
        ("b", Json::Integer(3)),
        ("a", Json::Ratio(128, 255)),
    ]);
    assert_eq!(css_value_to_json(&Value::Color(Color { r: 1, g: 2, b: 3, a: 128 })), color);
    assert_eq!(
        css_value_to_json(&Value::Function(
            "f".to_string(),
            vec![Value::Auto, Value::List(vec![Value::Initial, Value::Unset])]
        )),
        obj(vec![
            ("type", s("function")),
            ("name", s("f")),
            ("args", Json::Array(vec![s("auto"), Json::Array(vec![s("initial"), s("unset")])])),
        ])
    );
    assert_eq!(
        css_value_to_json(&Value::Rect(web_parser::css::values::Rect {
            top: Box::new(Value::Auto),
            right: Box::new(Value::Initial),
            bottom: Box::new(Value::Unset),
            left: Box::new(Value::Inherit),
        })),
        obj(vec![
            ("type", s("rect")),
            ("top", s("auto")),
            ("right", s("initial")),
            ("bottom", s("unset")),
            ("left", s("inherit")),
        ])
    );
    assert_eq!(
        css_value_to_json(&Value::LinearGradient(Box::new(web_parser::css::values::LinearGradient {
            direction: Box::new(Value::Auto),
            stops: vec![
                web_parser::css::values::GradientStop {
                    color: Color { r: 1, g: 2, b: 3, a: 128 },
                    position: None,
                },
                web_parser::css::values::GradientStop {
                    color: Color { r: 1, g: 2, b: 3, a: 128 },
                    position: Some(Value::Percentage(number("5"))),
                },
            ],
        }))),
        obj(vec![
            ("type", s("linear-gradient")),
            ("direction", s("auto")),
            (
                "stops",
                Json::Array(vec![
                    obj(vec![("color", obj(vec![
                        ("type", s("color")),
                        ("r", Json::Integer(1)),
                        ("g", Json::Integer(2)),
                        ("b", Json::Integer(3)),
                        ("a", Json::Ratio(128, 255)),
                    ])), ("position", Json::Null)]),
                    obj(vec![
                        ("color", obj(vec![
                            ("type", s("color")),
                            ("r", Json::Integer(1)),
                            ("g", Json::Integer(2)),
                            ("b", Json::Integer(3)),
                            ("a", Json::Ratio(128, 255)),
                        ])),
                        ("position", obj(vec![("value", Json::Literal(number("5"))), ("unit", s("%"))])),
                    ]),
                ])
            ),
        ])
    );
}

#[test]
fn stylesheet_json() {
    let mut parser = web_parser::css::parser::CssParser::new(
        "a#i.c.d[x^=y][z] { w: v !important } @media m { * { } } @keyframes k{ from, to{ p: q } }",
    );
    let sheet = parser.parse_stylesheet().unwrap();
    let selector = obj(vec![
        ("type", s("simple_selector")),
        ("tag_name", s("a")),
        ("id", s("i")),
        ("classes", Json::Array(vec![s("c"), s("d")])),
        ("universal", Json::Bool(false)),
        (
            "attributes",
            Json::Array(vec![
                obj(vec![("name", s("x")), ("operator", s("^=")), ("value", s("y"))]),
                obj(vec![("name", s("z")), ("operator", s("")), ("value", Json::Null)]),
            ]),
        ),
    ]);
    let universal = obj(vec![
        ("type", s("simple_selector")),
        ("tag_name", Json::Null),
        ("id", Json::Null),
        ("classes", Json::Array(vec![])),
        ("universal", Json::Bool(true)),
        ("attributes", Json::Array(vec![])),
    ]);
    assert_eq!(
        stylesheet_to_json(&sheet),
        obj(vec![
            ("type", s("stylesheet")),
            (
                "rules",
                Json::Array(vec![
                    obj(vec![
                        ("type", s("style_rule")),
                        ("selectors", Json::Array(vec![selector])),
                        (
                            "declarations",
                            Json::Array(vec![obj(vec![
                                ("property", s("w")),
                                ("value", s("v")),
                                ("important", Json::Bool(true)),
                            ])])
                        ),
                    ]),
                    obj(vec![
                        ("type", s("media_rule")),
                        ("query", s("m")),
                        (
                            "rules",
                            Json::Array(vec![obj(vec![
                                ("type", s("style_rule")),
                                ("selectors", Json::Array(vec![universal])),
                                ("declarations", Json::Array(vec![])),
                            ])])
                        ),
                    ]),
                    obj(vec![
                        ("type", s("keyframes_rule")),
                        ("name", s("k")),
                        (
                            "frames",
                            Json::Array(vec![obj(vec![
                                ("selectors", Json::Array(vec![s("from"), s("to")])),
                                (
                                    "declarations",
                                    Json::Array(vec![obj(vec![
                                        ("property", s("p")),
                                        ("value", s("q")),
                                        ("important", Json::Bool(false)),
                                    ])])
                                ),
                            ])])
                        ),
                    ]),
                ])
            ),
        ])
    );
    assert_eq!(selector_to_json(&tag("p")), obj(vec![
        ("type", s("simple_selector")),
        ("tag_name", s("p")),
        ("id", Json::Null),
        ("classes", Json::Array(vec![])),
        ("universal", Json::Bool(false)),
        ("attributes", Json::Array(vec![])),
    ]));
    assert_eq!(
        declaration_to_json(&Declaration { name: "n".to_string(), value: Value::Auto, important: false }),
        obj(vec![("property", s("n")), ("value", s("auto")), ("important", Json::Bool(false))])
    );
}
