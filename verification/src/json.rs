//! Projecting documents and stylesheets to JSON trees.

use vstd::prelude::*;
use crate::css::rules::{
    AttributeOperator,
    AttributeSelector,
    AttributeSelectorView,
    Declaration,
    DeclarationView,
    Keyframe,
    KeyframeView,
    Rule,
    RuleView,
    Selector,
    SelectorView,
    StyleRule,
    Stylesheet,
    declaration_views,
    keyframe_views,
    selector_views,
    texts,
};
use crate::css::values::{
    Color,
    GradientStop,
    GradientStopView,
    LinearGradient,
    Number,
    Rect,
    Unit,
    Value,
    ValueView,
};
use crate::html::dom::{ElementData, ElementDataView, Node, NodeType, NodeTypeView, NodeView, attribute_views};

verus! {

/// A JSON value. An object keeps its members in the order they were added.
/// Numbers come in three forms: a whole number, a literal kept as it was
/// written, and a ratio of two whole numbers.
#[derive(Debug, PartialEq)]
pub enum Json {
    Null,
    Bool(bool),
    Integer(u64),
    Literal(Number),
    Ratio(u64, u64),
    String(String),
    Array(Vec<Json>),
    Object(Vec<(String, Json)>),
}

/// The mathematical counterpart of [`Json`].
pub enum JsonView {
    Null,
    Bool(bool),
    Integer(u64),
    Literal(Seq<char>),
    Ratio(u64, u64),
    String(Seq<char>),
    Array(Seq<JsonView>),
    Object(Seq<(Seq<char>, JsonView)>),
}

impl Json {
    pub open spec fn model(&self) -> JsonView
        decreases self,
    {
        match self {
            Json::Null => JsonView::Null,
            Json::Bool(b) => JsonView::Bool(*b),
            Json::Integer(n) => JsonView::Integer(*n),
            Json::Literal(n) => JsonView::Literal(n@),
            Json::Ratio(n, d) => JsonView::Ratio(*n, *d),
            Json::String(s) => JsonView::String(s@),
            Json::Array(items) => JsonView::Array(Json::models(items@)),
            Json::Object(members) => JsonView::Object(Json::member_models(members@)),
        }
    }

    /// The models of a sequence of values, in order.
    pub open spec fn models(items: Seq<Json>) -> Seq<JsonView>
        decreases items,
    {
        Seq::new(
            items.len(),
            |i: int|
                if 0 <= i < items.len() {
                    items[i].model()
                } else {
                    JsonView::Null
                },
        )
    }

    /// The models of the members of an object, in order.
    pub open spec fn member_models(members: Seq<(String, Json)>) -> Seq<(Seq<char>, JsonView)>
        decreases members,
    {
        Seq::new(
            members.len(),
            |i: int|
                if 0 <= i < members.len() {
                    (members[i].0@, members[i].1.model())
                } else {
                    (Seq::empty(), JsonView::Null)
                },
        )
    }
}

impl View for Json {
    type V = JsonView;

    open spec fn view(&self) -> JsonView {
        self.model()
    }
}

/// A JSON string.
pub open spec fn text_json(s: Seq<char>) -> JsonView {
    JsonView::String(s)
}

/// A JSON string, or null where there is none.
pub open spec fn optional_text_json(s: Option<Seq<char>>) -> JsonView {
    match s {
        Some(t) => JsonView::String(t),
        None => JsonView::Null,
    }
}

/// An array of JSON strings.
pub open spec fn texts_json(v: Seq<Seq<char>>) -> JsonView {
    JsonView::Array(v.map_values(|s: Seq<char>| JsonView::String(s)))
}

/// One attribute as an object with a single member, named by the attribute.
pub open spec fn attribute_json(a: (Seq<char>, Seq<char>)) -> JsonView {
    JsonView::Object(seq![(a.0, JsonView::String(a.1))])
}

/// The attributes of an element as an array.
pub open spec fn attributes_json(attrs: Seq<(Seq<char>, Seq<char>)>) -> JsonView {
    JsonView::Array(attrs.map_values(|a: (Seq<char>, Seq<char>)| attribute_json(a)))
}

/// A node as JSON: an object tagged with the node's kind.
pub open spec fn node_json(node: NodeView) -> JsonView
    decreases node, 0nat,
{
    match node.node_type {
        NodeTypeView::Document => JsonView::Object(
            seq![
                ("type"@, text_json("document"@)),
                (
                    "children"@,
                    JsonView::Array(node_jsons(node.children, node.children.len() as int)),
                ),
            ],
        ),
        NodeTypeView::Doctype => JsonView::Object(seq![("type"@, text_json("doctype"@))]),
        NodeTypeView::Element(e) => JsonView::Object(
            element_members(e, node_jsons(node.children, node.children.len() as int)),
        ),
        NodeTypeView::Text(text) => JsonView::Object(
            seq![("type"@, text_json("text"@)), ("value"@, text_json(text))],
        ),
        NodeTypeView::Comment(text) => JsonView::Object(
            seq![("type"@, text_json("comment"@)), ("value"@, text_json(text))],
        ),
    }
}

/// The members of an element's object; `selfClosing` is there only when it
/// is true.
pub open spec fn element_members(e: ElementDataView, children: Seq<JsonView>) -> Seq<
    (Seq<char>, JsonView),
> {
    let members = seq![
        ("type"@, text_json("element"@)),
        ("tag"@, text_json(e.tag_name)),
        ("attributes"@, attributes_json(e.attributes)),
        ("children"@, JsonView::Array(children)),
    ];
    if e.is_self_closing {
        members.push(("selfClosing"@, JsonView::Bool(true)))
    } else {
        members
    }
}

/// The first `n` of some sibling nodes as JSON.
pub open spec fn node_jsons(children: Seq<NodeView>, n: int) -> Seq<JsonView>
    decreases children, n,
{
    if n <= 0 || n > children.len() {
        Seq::empty()
    } else {
        node_jsons(children, n - 1).push(node_json(children[n - 1]))
    }
}

/// The name a unit has in JSON: its name in lower case.
pub open spec fn unit_json_name(u: Unit) -> Seq<char> {
    match u {
        Unit::Px => "px"@,
        Unit::Em => "em"@,
        Unit::Rem => "rem"@,
        Unit::Ex => "ex"@,
        Unit::Ch => "ch"@,
        Unit::Vw => "vw"@,
        Unit::Vh => "vh"@,
        Unit::Vmin => "vmin"@,
        Unit::Vmax => "vmax"@,
        Unit::Pt => "pt"@,
        Unit::Pc => "pc"@,
        Unit::In => "in"@,
        Unit::Cm => "cm"@,
        Unit::Mm => "mm"@,
        Unit::Q => "q"@,
        Unit::Deg => "deg"@,
        Unit::Rad => "rad"@,
        Unit::Grad => "grad"@,
        Unit::Turn => "turn"@,
        Unit::S => "s"@,
        Unit::Ms => "ms"@,
        Unit::Hz => "hz"@,
        Unit::Khz => "khz"@,
        Unit::Dpi => "dpi"@,
        Unit::Dpcm => "dpcm"@,
        Unit::Dppx => "dppx"@,
        Unit::Fr => "fr"@,
        Unit::Percent => "percent"@,
    }
}

/// A colour as JSON; its opacity is the ratio of the alpha channel to 255.
pub open spec fn color_json(c: Color) -> JsonView {
    JsonView::Object(
        seq![
            ("type"@, text_json("color"@)),
            ("r"@, JsonView::Integer(c.r as u64)),
            ("g"@, JsonView::Integer(c.g as u64)),
            ("b"@, JsonView::Integer(c.b as u64)),
            ("a"@, JsonView::Ratio(c.a as u64, 255)),
        ],
    )
}

/// A value as JSON.
pub open spec fn value_json(v: ValueView) -> JsonView
    decreases v, 0nat,
{
    match v {
        ValueView::Keyword(s) => text_json(s),
        ValueView::Length(n, unit) => JsonView::Object(
            seq![("value"@, JsonView::Literal(n)), ("unit"@, text_json(unit_json_name(unit)))],
        ),
        ValueView::Percentage(n) => JsonView::Object(
            seq![("value"@, JsonView::Literal(n)), ("unit"@, text_json("%"@))],
        ),
        ValueView::Color(c) => color_json(c),
        ValueView::Url(s) => text_json(s),
        ValueView::String(s) => text_json(s),
        ValueView::Function(name, args) => JsonView::Object(
            seq![
                ("type"@, text_json("function"@)),
                ("name"@, text_json(name)),
                ("args"@, JsonView::Array(value_jsons(args, args.len() as int))),
            ],
        ),
        ValueView::Rect(r) => JsonView::Object(
            seq![
                ("type"@, text_json("rect"@)),
                ("top"@, value_json(*r.top)),
                ("right"@, value_json(*r.right)),
                ("bottom"@, value_json(*r.bottom)),
                ("left"@, value_json(*r.left)),
            ],
        ),
        ValueView::Initial => text_json("initial"@),
        ValueView::Inherit => text_json("inherit"@),
        ValueView::Unset => text_json("unset"@),
        ValueView::CurrentColor => text_json("currentColor"@),
        ValueView::Auto => text_json("auto"@),
        ValueView::NoneValue => text_json("none"@),
        ValueView::LinearGradient(g) => JsonView::Object(
            seq![
                ("type"@, text_json("linear-gradient"@)),
                ("direction"@, value_json(*g.direction)),
                ("stops"@, JsonView::Array(stop_jsons(g.stops, g.stops.len() as int))),
            ],
        ),
        ValueView::List(items) => JsonView::Array(value_jsons(items, items.len() as int)),
    }
}

/// The first `n` of some values as JSON.
pub open spec fn value_jsons(values: Seq<ValueView>, n: int) -> Seq<JsonView>
    decreases values, n,
{
    if n <= 0 || n > values.len() {
        Seq::empty()
    } else {
        value_jsons(values, n - 1).push(value_json(values[n - 1]))
    }
}

/// A gradient stop as JSON; a stop without a position has a null one.
pub open spec fn stop_json(stop: GradientStopView) -> JsonView
    decreases stop, 0nat,
{
    JsonView::Object(
        seq![
            ("color"@, color_json(stop.color)),
            (
                "position"@,
                match stop.position {
                    Some(p) => value_json(p),
                    None => JsonView::Null,
                },
            ),
        ],
    )
}

/// The first `n` of some gradient stops as JSON.
pub open spec fn stop_jsons(stops: Seq<GradientStopView>, n: int) -> Seq<JsonView>
    decreases stops, n,
{
    if n <= 0 || n > stops.len() {
        Seq::empty()
    } else {
        stop_jsons(stops, n - 1).push(stop_json(stops[n - 1]))
    }
}

/// How an attribute operator is written; the empty text for none.
pub open spec fn operator_text(op: Option<AttributeOperator>) -> Seq<char> {
    match op {
        Some(AttributeOperator::Equal) => "="@,
        Some(AttributeOperator::Includes) => "~="@,
        Some(AttributeOperator::DashMatch) => "|="@,
        Some(AttributeOperator::Prefix) => "^="@,
        Some(AttributeOperator::Suffix) => "$="@,
        Some(AttributeOperator::Substring) => "*="@,
        None => ""@,
    }
}

pub open spec fn attribute_selector_json(a: AttributeSelectorView) -> JsonView {
    JsonView::Object(
        seq![
            ("name"@, text_json(a.name)),
            ("operator"@, text_json(operator_text(a.op))),
            ("value"@, optional_text_json(a.value)),
        ],
    )
}

pub open spec fn selector_json(s: SelectorView) -> JsonView {
    match s {
        SelectorView::Simple(simple) => JsonView::Object(
            seq![
                ("type"@, text_json("simple_selector"@)),
                ("tag_name"@, optional_text_json(simple.tag_name)),
                ("id"@, optional_text_json(simple.id)),
                ("classes"@, texts_json(simple.classes)),
                ("universal"@, JsonView::Bool(simple.universal)),
                (
                    "attributes"@,
                    JsonView::Array(
                        simple.attributes.map_values(
                            |a: AttributeSelectorView| attribute_selector_json(a),
                        ),
                    ),
                ),
            ],
        ),
    }
}

pub open spec fn declaration_json(d: DeclarationView) -> JsonView {
    JsonView::Object(
        seq![
            ("property"@, text_json(d.name)),
            ("value"@, value_json(d.value)),
            ("important"@, JsonView::Bool(d.important)),
        ],
    )
}

pub open spec fn declarations_json(v: Seq<DeclarationView>) -> JsonView {
    JsonView::Array(v.map_values(|d: DeclarationView| declaration_json(d)))
}

pub open spec fn keyframe_json(k: KeyframeView) -> JsonView {
    JsonView::Object(
        seq![
            ("selectors"@, texts_json(k.selectors)),
            ("declarations"@, declarations_json(k.declarations)),
        ],
    )
}

/// A rule as JSON: an object tagged with the rule's kind.
pub open spec fn rule_json(rule: RuleView) -> JsonView
    decreases rule, 0nat,
{
    match rule {
        RuleView::Style(r) => JsonView::Object(
            seq![
                ("type"@, text_json("style_rule"@)),
                ("selectors"@, JsonView::Array(r.selectors.map_values(|s: SelectorView| selector_json(s)))),
                ("declarations"@, declarations_json(r.declarations)),
            ],
        ),
        RuleView::Media { query, rules } => JsonView::Object(
            seq![
                ("type"@, text_json("media_rule"@)),
                ("query"@, text_json(query)),
                ("rules"@, JsonView::Array(rule_jsons(rules, rules.len() as int))),
            ],
        ),
        RuleView::Keyframes { name, frames } => JsonView::Object(
            seq![
                ("type"@, text_json("keyframes_rule"@)),
                ("name"@, text_json(name)),
                ("frames"@, JsonView::Array(frames.map_values(|k: KeyframeView| keyframe_json(k)))),
            ],
        ),
    }
}

/// The first `n` of some rules as JSON.
pub open spec fn rule_jsons(rules: Seq<RuleView>, n: int) -> Seq<JsonView>
    decreases rules, n,
{
    if n <= 0 || n > rules.len() {
        Seq::empty()
    } else {
        rule_jsons(rules, n - 1).push(rule_json(rules[n - 1]))
    }
}

/// A stylesheet as JSON.
pub open spec fn stylesheet_json(rules: Seq<RuleView>) -> JsonView {
    JsonView::Object(
        seq![
            ("type"@, text_json("stylesheet"@)),
            ("rules"@, JsonView::Array(rule_jsons(rules, rules.len() as int))),
        ],
    )
}

/// A JSON string holding `s`.
fn text(s: &str) -> (j: Json)
    ensures
        j@ == text_json(s@),
{
    Json::String(s.to_owned())
}

/// A JSON string holding `s`, or null for `None`.
fn optional_text(s: &Option<String>) -> (j: Json)
    ensures
        j@ == optional_text_json(crate::css::rules::opt_text(*s)),
{
    match s {
        Some(t) => Json::String(t.clone()),
        None => Json::Null,
    }
}

/// An array of JSON strings.
fn text_array(v: &Vec<String>) -> (j: Json)
    ensures
        j@ == texts_json(texts(v@)),
{
    let mut items: Vec<Json> = Vec::new();
    let mut i: usize = 0;
    while i < v.len()
        invariant
            i <= v.len(),
            items@.len() == i,
            forall|k: int| 0 <= k < i ==> (#[trigger] items@[k])@ == JsonView::String(v@[k]@),
        decreases v.len() - i,
    {
        items.push(Json::String(v[i].clone()));
        i += 1;
    }
    let j = Json::Array(items);
    assert(j@->Array_0 =~= texts(v@).map_values(|s: Seq<char>| JsonView::String(s)));
    j
}

/// An object with the given members.
fn object(members: Vec<(String, Json)>) -> (j: Json)
    ensures
        j@ == JsonView::Object(Json::member_models(members@)),
{
    Json::Object(members)
}

/// Adds a member to the members of an object.
fn put(members: &mut Vec<(String, Json)>, key: &str, value: Json)
    ensures
        Json::member_models(final(members)@) == Json::member_models(old(members)@).push(
            (key@, value@),
        ),
{
    members.push((key.to_owned(), value));
    assert(Json::member_models(members@) =~= Json::member_models(old(members)@).push(
        (key@, value@),
    ));
}

/// No members yet.
fn no_members() -> (members: Vec<(String, Json)>)
    ensures
        Json::member_models(members@) == Seq::<(Seq<char>, JsonView)>::empty(),
{
    let members: Vec<(String, Json)> = Vec::new();
    assert(Json::member_models(members@) =~= Seq::empty());
    members
}

fn attributes_to_json(attrs: &Vec<(String, String)>) -> (j: Json)
    ensures
        j@ == attributes_json(attribute_views(attrs@)),
{
    let mut items: Vec<Json> = Vec::new();
    let mut i: usize = 0;
    while i < attrs.len()
        invariant
            i <= attrs.len(),
            items@.len() == i,
            forall|k: int|
                0 <= k < i ==> (#[trigger] items@[k])@ == attribute_json((attrs@[k].0@, attrs@[k].1@)),
        decreases attrs.len() - i,
    {
        let mut members = no_members();
        put(&mut members, attrs[i].0.as_str(), text(attrs[i].1.as_str()));
        assert(Seq::<(Seq<char>, JsonView)>::empty().push(
            (attrs@[i as int].0@, text_json(attrs@[i as int].1@)),
        ) =~= seq![(attrs@[i as int].0@, JsonView::String(attrs@[i as int].1@))]);
        items.push(object(members));
        i += 1;
    }
    let j = Json::Array(items);
    assert(j@->Array_0 =~= attribute_views(attrs@).map_values(
        |a: (Seq<char>, Seq<char>)| attribute_json(a),
    ));
    j
}

fn nodes_to_json(children: &Vec<Node>) -> (items: Vec<Json>)
    ensures
        Json::models(items@) == node_jsons(Node::models(children@), children@.len() as int),
    decreases children, 1nat,
{
    let ghost views = Node::models(children@);
    let mut items: Vec<Json> = Vec::new();
    let mut i: usize = 0;
    assert(Json::models(items@) =~= node_jsons(views, 0));
    while i < children.len()
        invariant
            i <= children.len(),
            views == Node::models(children@),
            Json::models(items@) == node_jsons(views, i as int),
        decreases children.len() - i,
    {
        let ghost before = Json::models(items@);
        let j = node_to_json(&children[i]);
        items.push(j);
        assert(Json::models(items@) =~= before.push(j@));
        i += 1;
    }
    items
}

fn element_to_json(e: &ElementData, children: Vec<Json>) -> (j: Json)
    ensures
        j@ == JsonView::Object(element_members(e@, Json::models(children@))),
{
    let mut members = no_members();
    put(&mut members, "type", text("element"));
    put(&mut members, "tag", text(e.tag_name.as_str()));
    put(&mut members, "attributes", attributes_to_json(&e.attributes));
    put(&mut members, "children", Json::Array(children));
    assert(Json::member_models(members@) =~= seq![
        ("type"@, text_json("element"@)),
        ("tag"@, text_json(e@.tag_name)),
        ("attributes"@, attributes_json(e@.attributes)),
        ("children"@, JsonView::Array(Json::models(children@))),
    ]);
    if e.is_self_closing {
        put(&mut members, "selfClosing", Json::Bool(true));
    }
    object(members)
}

/// Projects a node and all that lies under it to JSON.
pub fn node_to_json(node: &Node) -> (j: Json)
    ensures
        j@ == node_json(node@),
    decreases node, 0nat,
{
    match &node.node_type {
        NodeType::Document => {
            let children = nodes_to_json(&node.children);
            let mut members = no_members();
            put(&mut members, "type", text("document"));
            put(&mut members, "children", Json::Array(children));
            assert(Json::member_models(members@) =~= seq![
                ("type"@, text_json("document"@)),
                ("children"@, JsonView::Array(Json::models(children@))),
            ]);
            object(members)
        },
        NodeType::Doctype => {
            let mut members = no_members();
            put(&mut members, "type", text("doctype"));
            assert(Json::member_models(members@) =~= seq![("type"@, text_json("doctype"@))]);
            object(members)
        },
        NodeType::Element(e) => {
            let children = nodes_to_json(&node.children);
            element_to_json(e, children)
        },
        NodeType::Text(t) => {
            let mut members = no_members();
            put(&mut members, "type", text("text"));
            put(&mut members, "value", text(t.as_str()));
            assert(Json::member_models(members@) =~= seq![
                ("type"@, text_json("text"@)),
                ("value"@, text_json(t@)),
            ]);
            object(members)
        },
        NodeType::Comment(t) => {
            let mut members = no_members();
            put(&mut members, "type", text("comment"));
            put(&mut members, "value", text(t.as_str()));
            assert(Json::member_models(members@) =~= seq![
                ("type"@, text_json("comment"@)),
                ("value"@, text_json(t@)),
            ]);
            object(members)
        },
    }
}

/// The name a unit has in JSON.
fn unit_name(u: Unit) -> (r: &'static str)
    ensures
        r@ == unit_json_name(u),
{
    match u {
        Unit::Px => "px",
        Unit::Em => "em",
        Unit::Rem => "rem",
        Unit::Ex => "ex",
        Unit::Ch => "ch",
        Unit::Vw => "vw",
        Unit::Vh => "vh",
        Unit::Vmin => "vmin",
        Unit::Vmax => "vmax",
        Unit::Pt => "pt",
        Unit::Pc => "pc",
        Unit::In => "in",
        Unit::Cm => "cm",
        Unit::Mm => "mm",
        Unit::Q => "q",
        Unit::Deg => "deg",
        Unit::Rad => "rad",
        Unit::Grad => "grad",
        Unit::Turn => "turn",
        Unit::S => "s",
        Unit::Ms => "ms",
        Unit::Hz => "hz",
        Unit::Khz => "khz",
        Unit::Dpi => "dpi",
        Unit::Dpcm => "dpcm",
        Unit::Dppx => "dppx",
        Unit::Fr => "fr",
        Unit::Percent => "percent",
    }
}

fn color_to_json(c: &Color) -> (j: Json)
    ensures
        j@ == color_json(*c),
{
    let mut members = no_members();
    put(&mut members, "type", text("color"));
    put(&mut members, "r", Json::Integer(c.r as u64));
    put(&mut members, "g", Json::Integer(c.g as u64));
    put(&mut members, "b", Json::Integer(c.b as u64));
    put(&mut members, "a", Json::Ratio(c.a as u64, 255));
    assert(Json::member_models(members@) =~= seq![
        ("type"@, text_json("color"@)),
        ("r"@, JsonView::Integer(c.r as u64)),
        ("g"@, JsonView::Integer(c.g as u64)),
        ("b"@, JsonView::Integer(c.b as u64)),
        ("a"@, JsonView::Ratio(c.a as u64, 255)),
    ]);
    object(members)
}

fn number_with_unit(n: &Number, unit: &str) -> (j: Json)
    ensures
        j@ == JsonView::Object(
            seq![("value"@, JsonView::Literal(n@)), ("unit"@, text_json(unit@))],
        ),
{
    let mut members = no_members();
    put(&mut members, "value", Json::Literal(n.clone()));
    put(&mut members, "unit", text(unit));
    assert(Json::member_models(members@) =~= seq![
        ("value"@, JsonView::Literal(n@)),
        ("unit"@, text_json(unit@)),
    ]);
    object(members)
}

fn values_to_json(values: &Vec<Value>) -> (items: Vec<Json>)
    ensures
        Json::models(items@) == value_jsons(Value::models(values@), values@.len() as int),
    decreases values, 1nat,
{
    let ghost views = Value::models(values@);
    let mut items: Vec<Json> = Vec::new();
    let mut i: usize = 0;
    assert(Json::models(items@) =~= value_jsons(views, 0));
    while i < values.len()
        invariant
            i <= values.len(),
            views == Value::models(values@),
            Json::models(items@) == value_jsons(views, i as int),
        decreases values.len() - i,
    {
        let ghost before = Json::models(items@);
        let j = css_value_to_json(&values[i]);
        items.push(j);
        assert(Json::models(items@) =~= before.push(j@));
        i += 1;
    }
    items
}

fn stop_to_json(stop: &GradientStop) -> (j: Json)
    ensures
        j@ == stop_json(stop@),
    decreases stop, 0nat,
{
    let position = match &stop.position {
        Some(p) => css_value_to_json(p),
        None => Json::Null,
    };
    assert(position@ == match stop@.position {
        Some(p) => value_json(p),
        None => JsonView::Null,
    });
    let mut members = no_members();
    put(&mut members, "color", color_to_json(&stop.color));
    put(&mut members, "position", position);
    assert(Json::member_models(members@) =~= seq![
        ("color"@, color_json(stop@.color)),
        ("position"@, position@),
    ]);
    proof {
        let sj = stop_json(stop@);
        assert(sj is Object);
        assert(sj->Object_0.len() == 2);
        assert(sj->Object_0[0] == ("color"@, color_json(stop@.color)));
        assert(sj->Object_0[1].0 == "position"@);
        assert(sj->Object_0[1].1 == position@);
        assert(sj->Object_0 =~= Json::member_models(members@));
    }
    object(members)
}

fn stops_to_json(stops: &Vec<GradientStop>) -> (items: Vec<Json>)
    ensures
        Json::models(items@) == stop_jsons(
            Seq::new(stops@.len(), |i: int| stops@[i].model()),
            stops@.len() as int,
        ),
    decreases stops, 1nat,
{
    let ghost views = Seq::new(stops@.len(), |i: int| stops@[i].model());
    let mut items: Vec<Json> = Vec::new();
    let mut i: usize = 0;
    assert(Json::models(items@) =~= stop_jsons(views, 0));
    while i < stops.len()
        invariant
            i <= stops.len(),
            views == Seq::new(stops@.len(), |i: int| stops@[i].model()),
            Json::models(items@) == stop_jsons(views, i as int),
        decreases stops.len() - i,
    {
        let ghost before = Json::models(items@);
        let j = stop_to_json(&stops[i]);
        items.push(j);
        assert(Json::models(items@) =~= before.push(j@));
        i += 1;
    }
    items
}

fn rect_to_json(r: &Rect) -> (j: Json)
    ensures
        j@ == value_json(ValueView::Rect(r@)),
    decreases r, 1nat,
{
    let top = css_value_to_json(&r.top);
    let right = css_value_to_json(&r.right);
    let bottom = css_value_to_json(&r.bottom);
    let left = css_value_to_json(&r.left);
    let mut members = no_members();
    put(&mut members, "type", text("rect"));
    put(&mut members, "top", top);
    put(&mut members, "right", right);
    put(&mut members, "bottom", bottom);
    put(&mut members, "left", left);
    assert(Json::member_models(members@) =~= seq![
        ("type"@, text_json("rect"@)),
        ("top"@, value_json(*r@.top)),
        ("right"@, value_json(*r@.right)),
        ("bottom"@, value_json(*r@.bottom)),
        ("left"@, value_json(*r@.left)),
    ]);
    object(members)
}

fn gradient_to_json(g: &LinearGradient) -> (j: Json)
    ensures
        j@ == value_json(ValueView::LinearGradient(g@)),
    decreases g, 2nat,
{
    let direction = css_value_to_json(&g.direction);
    let stops = stops_to_json(&g.stops);
    assert(g@.stops =~= Seq::new(g.stops@.len(), |i: int| g.stops@[i].model()));
    let mut members = no_members();
    put(&mut members, "type", text("linear-gradient"));
    put(&mut members, "direction", direction);
    put(&mut members, "stops", Json::Array(stops));
    assert(Json::member_models(members@) =~= seq![
        ("type"@, text_json("linear-gradient"@)),
        ("direction"@, value_json(*g@.direction)),
        ("stops"@, JsonView::Array(stop_jsons(g@.stops, g@.stops.len() as int))),
    ]);
    object(members)
}

fn function_to_json(name: &String, args: &Vec<Value>) -> (j: Json)
    ensures
        j@ == value_json(ValueView::Function(name@, Value::models(args@))),
    decreases args, 2nat,
{
    let items = values_to_json(args);
    let mut members = no_members();
    put(&mut members, "type", text("function"));
    put(&mut members, "name", text(name.as_str()));
    put(&mut members, "args", Json::Array(items));
    assert(Json::member_models(members@) =~= seq![
        ("type"@, text_json("function"@)),
        ("name"@, text_json(name@)),
        ("args"@, JsonView::Array(value_jsons(Value::models(args@), args@.len() as int))),
    ]);
    object(members)
}

/// Projects a value to JSON.
pub fn css_value_to_json(value: &Value) -> (j: Json)
    ensures
        j@ == value_json(value@),
    decreases value, 0nat,
{
    match value {
        Value::Keyword(s) => text(s.as_str()),
        Value::Length(n, unit) => number_with_unit(n, unit_name(*unit)),
        Value::Percentage(n) => number_with_unit(n, "%"),
        Value::Color(c) => color_to_json(c),
        Value::Url(s) => text(s.as_str()),
        Value::String(s) => text(s.as_str()),
        Value::Function(name, args) => function_to_json(name, args),
        Value::Rect(r) => rect_to_json(r),
        Value::Initial => text("initial"),
        Value::Inherit => text("inherit"),
        Value::Unset => text("unset"),
        Value::CurrentColor => text("currentColor"),
        Value::Auto => text("auto"),
        Value::NoneValue => text("none"),
        Value::LinearGradient(g) => gradient_to_json(g),
        Value::List(items) => Json::Array(values_to_json(items)),
    }
}

fn operator_str(op: &Option<AttributeOperator>) -> (r: &'static str)
    ensures
        r@ == operator_text(*op),
{
    match op {
        Some(AttributeOperator::Equal) => "=",
        Some(AttributeOperator::Includes) => "~=",
        Some(AttributeOperator::DashMatch) => "|=",
        Some(AttributeOperator::Prefix) => "^=",
        Some(AttributeOperator::Suffix) => "$=",
        Some(AttributeOperator::Substring) => "*=",
        None => "",
    }
}

pub fn attribute_selector_to_json(attr: &AttributeSelector) -> (j: Json)
    ensures
        j@ == attribute_selector_json(attr@),
{
    let mut members = no_members();
    put(&mut members, "name", text(attr.name.as_str()));
    put(&mut members, "operator", text(operator_str(&attr.op)));
    put(&mut members, "value", optional_text(&attr.value));
    assert(Json::member_models(members@) =~= seq![
        ("name"@, text_json(attr@.name)),
        ("operator"@, text_json(operator_text(attr@.op))),
        ("value"@, optional_text_json(attr@.value)),
    ]);
    object(members)
}

pub fn selector_to_json(selector: &Selector) -> (j: Json)
    ensures
        j@ == selector_json(selector@),
{
    match selector {
        Selector::Simple(simple) => {
            let mut attributes: Vec<Json> = Vec::new();
            let mut i: usize = 0;
            while i < simple.attributes.len()
                invariant
                    i <= simple.attributes.len(),
                    attributes@.len() == i,
                    forall|k: int|
                        0 <= k < i ==> (#[trigger] attributes@[k])@ == attribute_selector_json(
                            simple.attributes@[k]@,
                        ),
                decreases simple.attributes.len() - i,
            {
                attributes.push(attribute_selector_to_json(&simple.attributes[i]));
                i += 1;
            }
            let attributes = Json::Array(attributes);
            assert(attributes@->Array_0 =~= simple@.attributes.map_values(
                |a: AttributeSelectorView| attribute_selector_json(a),
            ));
            let mut members = no_members();
            put(&mut members, "type", text("simple_selector"));
            put(&mut members, "tag_name", optional_text(&simple.tag_name));
            put(&mut members, "id", optional_text(&simple.id));
            put(&mut members, "classes", text_array(&simple.classes));
            put(&mut members, "universal", Json::Bool(simple.universal));
            put(&mut members, "attributes", attributes);
            assert(Json::member_models(members@) =~= seq![
                ("type"@, text_json("simple_selector"@)),
                ("tag_name"@, optional_text_json(simple@.tag_name)),
                ("id"@, optional_text_json(simple@.id)),
                ("classes"@, texts_json(simple@.classes)),
                ("universal"@, JsonView::Bool(simple@.universal)),
                ("attributes"@, attributes@),
            ]);
            object(members)
        },
    }
}

pub fn declaration_to_json(declaration: &Declaration) -> (j: Json)
    ensures
        j@ == declaration_json(declaration@),
{
    let mut members = no_members();
    put(&mut members, "property", text(declaration.name.as_str()));
    put(&mut members, "value", css_value_to_json(&declaration.value));
    put(&mut members, "important", Json::Bool(declaration.important));
    assert(Json::member_models(members@) =~= seq![
        ("property"@, text_json(declaration@.name)),
        ("value"@, value_json(declaration@.value)),
        ("important"@, JsonView::Bool(declaration@.important)),
    ]);
    object(members)
}

fn declarations_to_json(declarations: &Vec<Declaration>) -> (j: Json)
    ensures
        j@ == declarations_json(declaration_views(declarations@)),
{
    let mut items: Vec<Json> = Vec::new();
    let mut i: usize = 0;
    while i < declarations.len()
        invariant
            i <= declarations.len(),
            items@.len() == i,
            forall|k: int|
                0 <= k < i ==> (#[trigger] items@[k])@ == declaration_json(declarations@[k]@),
        decreases declarations.len() - i,
    {
        items.push(declaration_to_json(&declarations[i]));
        i += 1;
    }
    let j = Json::Array(items);
    assert(j@->Array_0 =~= declaration_views(declarations@).map_values(
        |d: DeclarationView| declaration_json(d),
    ));
    j
}

pub fn keyframe_to_json(keyframe: &Keyframe) -> (j: Json)
    ensures
        j@ == keyframe_json(keyframe@),
{
    let mut members = no_members();
    put(&mut members, "selectors", text_array(&keyframe.selectors));
    put(&mut members, "declarations", declarations_to_json(&keyframe.declarations));
    assert(Json::member_models(members@) =~= seq![
        ("selectors"@, texts_json(keyframe@.selectors)),
        ("declarations"@, declarations_json(keyframe@.declarations)),
    ]);
    object(members)
}

fn style_rule_to_json(rule: &StyleRule) -> (j: Json)
    ensures
        j@ == rule_json(RuleView::Style(rule@)),
{
    let mut selectors: Vec<Json> = Vec::new();
    let mut i: usize = 0;
    while i < rule.selectors.len()
        invariant
            i <= rule.selectors.len(),
            selectors@.len() == i,
            forall|k: int|
                0 <= k < i ==> (#[trigger] selectors@[k])@ == selector_json(rule.selectors@[k]@),
        decreases rule.selectors.len() - i,
    {
        selectors.push(selector_to_json(&rule.selectors[i]));
        i += 1;
    }
    let selectors = Json::Array(selectors);
    assert(selectors@->Array_0 =~= selector_views(rule.selectors@).map_values(
        |s: SelectorView| selector_json(s),
    ));
    let mut members = no_members();
    put(&mut members, "type", text("style_rule"));
    put(&mut members, "selectors", selectors);
    put(&mut members, "declarations", declarations_to_json(&rule.declarations));
    assert(Json::member_models(members@) =~= seq![
        ("type"@, text_json("style_rule"@)),
        ("selectors"@, selectors@),
        ("declarations"@, declarations_json(rule@.declarations)),
    ]);
    object(members)
}

fn keyframes_to_json(name: &String, frames: &Vec<Keyframe>) -> (j: Json)
    ensures
        j@ == rule_json(RuleView::Keyframes { name: name@, frames: keyframe_views(frames@) }),
{
    let mut items: Vec<Json> = Vec::new();
    let mut i: usize = 0;
    while i < frames.len()
        invariant
            i <= frames.len(),
            items@.len() == i,
            forall|k: int| 0 <= k < i ==> (#[trigger] items@[k])@ == keyframe_json(frames@[k]@),
        decreases frames.len() - i,
    {
        items.push(keyframe_to_json(&frames[i]));
        i += 1;
    }
    let items = Json::Array(items);
    assert(items@->Array_0 =~= keyframe_views(frames@).map_values(
        |k: KeyframeView| keyframe_json(k),
    ));
    let mut members = no_members();
    put(&mut members, "type", text("keyframes_rule"));
    put(&mut members, "name", text(name.as_str()));
    put(&mut members, "frames", items);
    assert(Json::member_models(members@) =~= seq![
        ("type"@, text_json("keyframes_rule"@)),
        ("name"@, text_json(name@)),
        ("frames"@, items@),
    ]);
    object(members)
}

fn rules_to_json(rules: &Vec<Rule>) -> (items: Vec<Json>)
    ensures
        Json::models(items@) == rule_jsons(Rule::models(rules@), rules@.len() as int),
    decreases rules, 1nat,
{
    let ghost views = Rule::models(rules@);
    let mut items: Vec<Json> = Vec::new();
    let mut i: usize = 0;
    assert(Json::models(items@) =~= rule_jsons(views, 0));
    while i < rules.len()
        invariant
            i <= rules.len(),
            views == Rule::models(rules@),
            Json::models(items@) == rule_jsons(views, i as int),
        decreases rules.len() - i,
    {
        let ghost before = Json::models(items@);
        let j = rule_to_json(&rules[i]);
        items.push(j);
        assert(Json::models(items@) =~= before.push(j@));
        i += 1;
    }
    items
}

/// Projects a rule to JSON.
pub fn rule_to_json(rule: &Rule) -> (j: Json)
    ensures
        j@ == rule_json(rule@),
    decreases rule, 0nat,
{
    match rule {
        Rule::Style(r) => style_rule_to_json(r),
        Rule::Media { query, rules } => {
            let items = rules_to_json(rules);
            let mut members = no_members();
            put(&mut members, "type", text("media_rule"));
            put(&mut members, "query", text(query.as_str()));
            put(&mut members, "rules", Json::Array(items));
            assert(Json::member_models(members@) =~= seq![
                ("type"@, text_json("media_rule"@)),
                ("query"@, text_json(query@)),
                ("rules"@, JsonView::Array(rule_jsons(Rule::models(rules@), rules@.len() as int))),
            ]);
            object(members)
        },
        Rule::Keyframes { name, frames } => keyframes_to_json(name, frames),
    }
}

/// Projects a stylesheet to JSON.
pub fn stylesheet_to_json(stylesheet: &Stylesheet) -> (j: Json)
    ensures
        j@ == stylesheet_json(stylesheet@),
{
    let items = rules_to_json(&stylesheet.rules);
    let mut members = no_members();
    put(&mut members, "type", text("stylesheet"));
    put(&mut members, "rules", Json::Array(items));
    assert(Json::member_models(members@) =~= seq![
        ("type"@, text_json("stylesheet"@)),
        ("rules"@, JsonView::Array(rule_jsons(stylesheet@, stylesheet@.len() as int))),
    ]);
    object(members)
}

} // verus!
