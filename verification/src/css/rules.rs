//! The rule model: stylesheets, rules, selectors and declarations.

use vstd::prelude::*;
use crate::css::specificity::Specificity;
use crate::css::values::{Value, ValueView};

verus! {

#[derive(Debug, PartialEq)]
pub struct Stylesheet {
    pub rules: Vec<Rule>,
}

#[derive(Debug, PartialEq)]
pub enum Rule {
    Style(StyleRule),
    Media { query: String, rules: Vec<Rule> },
    Keyframes { name: String, frames: Vec<Keyframe> },
}

#[derive(Debug, PartialEq)]
pub struct StyleRule {
    pub selectors: Vec<Selector>,
    pub declarations: Vec<Declaration>,
}

/// One keyframe: its selectors as written (`from`, `50%`), trimmed, and its
/// declarations.
#[derive(Debug, PartialEq)]
pub struct Keyframe {
    pub selectors: Vec<String>,
    pub declarations: Vec<Declaration>,
}

/// A declaration of a block. Declarations that a parser returns carry the
/// property name in lower case.
#[derive(Debug, PartialEq)]
pub struct Declaration {
    pub name: String,
    pub value: Value,
    pub important: bool,
}

#[derive(Debug, PartialEq, Eq)]
pub enum Selector {
    Simple(SimpleSelector),
}

#[derive(Debug, PartialEq, Eq)]
pub struct SimpleSelector {
    pub tag_name: Option<String>,
    pub id: Option<String>,
    pub classes: Vec<String>,
    pub attributes: Vec<AttributeSelector>,
    pub universal: bool,
}

#[derive(Debug, PartialEq, Eq)]
pub struct AttributeSelector {
    pub name: String,
    pub op: Option<AttributeOperator>,
    pub value: Option<String>,
}

#[derive(Debug, PartialEq, Clone, Copy, Eq, Structural)]
pub enum AttributeOperator {
    Equal,
    Includes,
    DashMatch,
    Prefix,
    Suffix,
    Substring,
}

pub struct AttributeSelectorView {
    pub name: Seq<char>,
    pub op: Option<AttributeOperator>,
    pub value: Option<Seq<char>>,
}

pub struct SimpleSelectorView {
    pub tag_name: Option<Seq<char>>,
    pub id: Option<Seq<char>>,
    pub classes: Seq<Seq<char>>,
    pub attributes: Seq<AttributeSelectorView>,
    pub universal: bool,
}

pub enum SelectorView {
    Simple(SimpleSelectorView),
}

pub struct DeclarationView {
    pub name: Seq<char>,
    pub value: ValueView,
    pub important: bool,
}

pub struct StyleRuleView {
    pub selectors: Seq<SelectorView>,
    pub declarations: Seq<DeclarationView>,
}

pub struct KeyframeView {
    pub selectors: Seq<Seq<char>>,
    pub declarations: Seq<DeclarationView>,
}

pub enum RuleView {
    Style(StyleRuleView),
    Media { query: Seq<char>, rules: Seq<RuleView> },
    Keyframes { name: Seq<char>, frames: Seq<KeyframeView> },
}

/// The text of an optional string.
pub open spec fn opt_text(o: Option<String>) -> Option<Seq<char>> {
    match o {
        Some(s) => Some(s@),
        None => None,
    }
}

/// The texts of a sequence of strings, in order.
pub open spec fn texts(v: Seq<String>) -> Seq<Seq<char>> {
    v.map_values(|s: String| s@)
}

impl View for AttributeSelector {
    type V = AttributeSelectorView;

    open spec fn view(&self) -> AttributeSelectorView {
        AttributeSelectorView { name: self.name@, op: self.op, value: opt_text(self.value) }
    }
}

impl View for SimpleSelector {
    type V = SimpleSelectorView;

    open spec fn view(&self) -> SimpleSelectorView {
        SimpleSelectorView {
            tag_name: opt_text(self.tag_name),
            id: opt_text(self.id),
            classes: texts(self.classes@),
            attributes: self.attributes@.map_values(|a: AttributeSelector| a@),
            universal: self.universal,
        }
    }
}

impl View for Selector {
    type V = SelectorView;

    open spec fn view(&self) -> SelectorView {
        match self {
            Selector::Simple(s) => SelectorView::Simple(s@),
        }
    }
}

impl View for Declaration {
    type V = DeclarationView;

    open spec fn view(&self) -> DeclarationView {
        DeclarationView { name: self.name@, value: self.value@, important: self.important }
    }
}

/// The models of a sequence of declarations, in order.
pub open spec fn declaration_views(v: Seq<Declaration>) -> Seq<DeclarationView> {
    v.map_values(|d: Declaration| d@)
}

/// The models of a sequence of keyframes, in order.
pub open spec fn keyframe_views(v: Seq<Keyframe>) -> Seq<KeyframeView> {
    v.map_values(|k: Keyframe| k@)
}

/// The models of a sequence of selectors, in order.
pub open spec fn selector_views(v: Seq<Selector>) -> Seq<SelectorView> {
    v.map_values(|s: Selector| s@)
}

impl View for StyleRule {
    type V = StyleRuleView;

    open spec fn view(&self) -> StyleRuleView {
        StyleRuleView {
            selectors: selector_views(self.selectors@),
            declarations: declaration_views(self.declarations@),
        }
    }
}

impl View for Keyframe {
    type V = KeyframeView;

    open spec fn view(&self) -> KeyframeView {
        KeyframeView {
            selectors: texts(self.selectors@),
            declarations: declaration_views(self.declarations@),
        }
    }
}

impl Rule {
    pub open spec fn model(&self) -> RuleView
        decreases self,
    {
        match self {
            Rule::Style(r) => RuleView::Style(r@),
            Rule::Media { query, rules } => RuleView::Media {
                query: query@,
                rules: Rule::models(rules@),
            },
            Rule::Keyframes { name, frames } => RuleView::Keyframes {
                name: name@,
                frames: keyframe_views(frames@),
            },
        }
    }

    /// The models of a sequence of rules, in order.
    pub open spec fn models(rules: Seq<Rule>) -> Seq<RuleView>
        decreases rules,
    {
        Seq::new(
            rules.len(),
            |i: int|
                if 0 <= i < rules.len() {
                    rules[i].model()
                } else {
                    RuleView::Style(
                        StyleRuleView { selectors: Seq::empty(), declarations: Seq::empty() },
                    )
                },
        )
    }
}

impl View for Rule {
    type V = RuleView;

    open spec fn view(&self) -> RuleView {
        self.model()
    }
}

impl View for Stylesheet {
    type V = Seq<RuleView>;

    open spec fn view(&self) -> Seq<RuleView> {
        Rule::models(self.rules@)
    }
}

impl AttributeSelectorView {
    /// A value stands only after an operator.
    pub open spec fn is_valid(self) -> bool {
        self.value is Some ==> self.op is Some
    }
}

impl SimpleSelectorView {
    /// Whether the selector names at least one thing: a tag, an id, a class,
    /// an attribute predicate, or the universal flag.
    pub open spec fn names_something(self) -> bool {
        self.tag_name is Some || self.id is Some || self.classes.len() > 0 || self.attributes.len()
            > 0 || self.universal
    }

    /// A selector names something, and each of its attribute predicates is
    /// valid.
    pub open spec fn is_valid(self) -> bool {
        &&& self.names_something()
        &&& forall|i: int| 0 <= i < self.attributes.len() ==> (#[trigger] self.attributes[i]).is_valid()
    }
}

impl SelectorView {
    pub open spec fn is_valid(self) -> bool {
        match self {
            SelectorView::Simple(s) => s.is_valid(),
        }
    }
}

impl StyleRuleView {
    /// A style rule has at least one selector, and its selectors are valid.
    pub open spec fn is_valid(self) -> bool {
        &&& self.selectors.len() > 0
        &&& forall|i: int| 0 <= i < self.selectors.len() ==> (#[trigger] self.selectors[i]).is_valid()
    }
}

impl RuleView {
    /// A style rule is valid as such; a media rule has a query and holds
    /// valid rules.
    pub open spec fn is_valid(self) -> bool
        decreases self,
    {
        match self {
            RuleView::Style(r) => r.is_valid(),
            RuleView::Media { query, rules } => {
                &&& query.len() > 0
                &&& forall|i: int| 0 <= i < rules.len() ==> (#[trigger] rules[i]).is_valid()
            },
            RuleView::Keyframes { name, frames } => true,
        }
    }
}

/// Whether every rule of a sequence is valid.
pub open spec fn all_valid(rules: Seq<RuleView>) -> bool {
    forall|i: int| 0 <= i < rules.len() ==> (#[trigger] rules[i]).is_valid()
}

impl SimpleSelector {
    /// A selector with nothing set. It is not yet valid: a part must be added
    /// before it can stand in a rule.
    pub fn new() -> (s: Self)
        ensures
            s@ == (SimpleSelectorView {
                tag_name: None,
                id: None,
                classes: Seq::empty(),
                attributes: Seq::empty(),
                universal: false,
            }),
    {
        let s = SimpleSelector {
            tag_name: None,
            id: None,
            classes: Vec::new(),
            attributes: Vec::new(),
            universal: false,
        };
        assert(s@.classes =~= Seq::empty());
        assert(s@.attributes =~= Seq::empty());
        s
    }
}

/// A copy of each of some strings, in order.
fn clone_strings(v: &Vec<String>) -> (r: Vec<String>)
    ensures
        texts(r@) == texts(v@),
{
    let mut r: Vec<String> = Vec::new();
    let mut i: usize = 0;
    while i < v.len()
        invariant
            i <= v.len(),
            r@.len() == i,
            forall|k: int| 0 <= k < i ==> (#[trigger] r@[k])@ == v@[k]@,
        decreases v.len() - i,
    {
        r.push(v[i].clone());
        i += 1;
    }
    assert(texts(r@) =~= texts(v@));
    r
}

/// A copy of an optional string.
fn clone_optional(o: &Option<String>) -> (r: Option<String>)
    ensures
        opt_text(r) == opt_text(*o),
{
    match o {
        Some(s) => Some(s.clone()),
        None => None,
    }
}

/// A copy of each of some declarations, in order.
fn clone_declarations(v: &Vec<Declaration>) -> (r: Vec<Declaration>)
    ensures
        declaration_views(r@) == declaration_views(v@),
{
    let mut r: Vec<Declaration> = Vec::new();
    let mut i: usize = 0;
    while i < v.len()
        invariant
            i <= v.len(),
            r@.len() == i,
            forall|k: int| 0 <= k < i ==> (#[trigger] r@[k])@ == v@[k]@,
        decreases v.len() - i,
    {
        r.push(v[i].clone());
        i += 1;
    }
    assert(declaration_views(r@) =~= declaration_views(v@));
    r
}

/// A copy of each of some rules, in order.
fn clone_rules(v: &Vec<Rule>) -> (r: Vec<Rule>)
    ensures
        Rule::models(r@) == Rule::models(v@),
    decreases v, 1nat,
{
    let mut r: Vec<Rule> = Vec::new();
    let mut i: usize = 0;
    while i < v.len()
        invariant
            i <= v.len(),
            r@.len() == i,
            forall|k: int| 0 <= k < i ==> (#[trigger] r@[k]).model() == v@[k].model(),
        decreases v.len() - i,
    {
        r.push(v[i].clone());
        i += 1;
    }
    assert(Rule::models(r@) =~= Rule::models(v@));
    r
}

impl Clone for AttributeSelector {
    fn clone(&self) -> (r: Self)
        ensures
            r@ == self@,
    {
        AttributeSelector {
            name: self.name.clone(),
            op: self.op,
            value: clone_optional(&self.value),
        }
    }
}

impl Clone for SimpleSelector {
    fn clone(&self) -> (r: Self)
        ensures
            r@ == self@,
    {
        let mut attributes: Vec<AttributeSelector> = Vec::new();
        let mut i: usize = 0;
        while i < self.attributes.len()
            invariant
                i <= self.attributes.len(),
                attributes@.len() == i,
                forall|k: int| 0 <= k < i ==> (#[trigger] attributes@[k])@ == self.attributes@[k]@,
            decreases self.attributes.len() - i,
        {
            attributes.push(self.attributes[i].clone());
            i += 1;
        }
        let r = SimpleSelector {
            tag_name: clone_optional(&self.tag_name),
            id: clone_optional(&self.id),
            classes: clone_strings(&self.classes),
            attributes,
            universal: self.universal,
        };
        assert(r@.attributes =~= self@.attributes);
        r
    }
}

impl Clone for Selector {
    fn clone(&self) -> (r: Self)
        ensures
            r@ == self@,
    {
        match self {
            Selector::Simple(s) => Selector::Simple(s.clone()),
        }
    }
}

impl Clone for Declaration {
    fn clone(&self) -> (r: Self)
        ensures
            r@ == self@,
    {
        Declaration {
            name: self.name.clone(),
            value: self.value.clone(),
            important: self.important,
        }
    }
}

impl Clone for StyleRule {
    fn clone(&self) -> (r: Self)
        ensures
            r@ == self@,
    {
        let mut selectors: Vec<Selector> = Vec::new();
        let mut i: usize = 0;
        while i < self.selectors.len()
            invariant
                i <= self.selectors.len(),
                selectors@.len() == i,
                forall|k: int| 0 <= k < i ==> (#[trigger] selectors@[k])@ == self.selectors@[k]@,
            decreases self.selectors.len() - i,
        {
            selectors.push(self.selectors[i].clone());
            i += 1;
        }
        let r = StyleRule { selectors, declarations: clone_declarations(&self.declarations) };
        assert(r@.selectors =~= self@.selectors);
        r
    }
}

impl Clone for Keyframe {
    fn clone(&self) -> (r: Self)
        ensures
            r@ == self@,
    {
        Keyframe {
            selectors: clone_strings(&self.selectors),
            declarations: clone_declarations(&self.declarations),
        }
    }
}

impl Clone for Rule {
    fn clone(&self) -> (r: Self)
        ensures
            r@ == self@,
        decreases self, 0nat,
    {
        match self {
            Rule::Style(rule) => Rule::Style(rule.clone()),
            Rule::Media { query, rules } => Rule::Media {
                query: query.clone(),
                rules: clone_rules(rules),
            },
            Rule::Keyframes { name, frames } => {
                let mut copies: Vec<Keyframe> = Vec::new();
                let mut i: usize = 0;
                while i < frames.len()
                    invariant
                        i <= frames.len(),
                        copies@.len() == i,
                        forall|k: int| 0 <= k < i ==> (#[trigger] copies@[k])@ == frames@[k]@,
                    decreases frames.len() - i,
                {
                    copies.push(frames[i].clone());
                    i += 1;
                }
                assert(keyframe_views(copies@) =~= keyframe_views(frames@));
                Rule::Keyframes { name: name.clone(), frames: copies }
            },
        }
    }
}

impl Clone for Stylesheet {
    fn clone(&self) -> (r: Self)
        ensures
            r@ == self@,
    {
        Stylesheet { rules: clone_rules(&self.rules) }
    }
}

impl SimpleSelectorView {
    /// The selector's weight: one for an id, the number of classes (its low
    /// 32 bits), and one for a tag name.
    pub open spec fn specificity(self) -> (u32, u32, u32) {
        (
            if self.id is Some {
                1u32
            } else {
                0u32
            },
            self.classes.len() as u32,
            if self.tag_name is Some {
                1u32
            } else {
                0u32
            },
        )
    }
}

impl SimpleSelector {
    pub fn specificity(&self) -> (s: Specificity)
        ensures
            s@ == self@.specificity(),
    {
        let a: u32 = if self.id.is_some() {
            1
        } else {
            0
        };
        let n: usize = self.classes.len();
        let b: u32 = #[verifier::truncate]
        (n as u32);
        assert(b == n as u32);
        assert(self@.classes.len() == n);
        let c: u32 = if self.tag_name.is_some() {
            1
        } else {
            0
        };
        Specificity::new(a, b, c)
    }
}

} // verus!
