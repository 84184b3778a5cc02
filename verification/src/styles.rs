//! Gathering the stylesheets that a document embeds in `style` elements.

use vstd::prelude::*;
use crate::css::grammar;
use crate::css::parser::CssParser;
use crate::css::rules::{Rule, RuleView, Stylesheet};
use crate::html::dom::{Node, NodeType, NodeTypeView, NodeView};
use crate::html::parser::is_element_named;
use crate::text::str_equal;

verus! {

/// The rules that the `style` elements in and under `node` hold, in document
/// order. A `style` element gives the rules of its first child if that is a
/// text node, and none otherwise; what lies under a `style` element is not
/// searched.
pub open spec fn inline_rules(node: NodeView) -> Seq<RuleView>
    decreases node, 0nat,
{
    if is_element_named(node, "style"@) {
        if node.children.len() > 0 {
            match node.children[0].node_type {
                NodeTypeView::Text(text) => grammar::parse_stylesheet(text),
                _ => Seq::empty(),
            }
        } else {
            Seq::empty()
        }
    } else {
        inline_rules_of(node.children, node.children.len() as int)
    }
}

/// The rules that the first `n` of some sibling nodes hold.
pub open spec fn inline_rules_of(children: Seq<NodeView>, n: int) -> Seq<RuleView>
    decreases children, n,
{
    if n <= 0 || n > children.len() {
        Seq::empty()
    } else {
        inline_rules_of(children, n - 1) + inline_rules(children[n - 1])
    }
}

/// Adds the rules of an embedded stylesheet text to `stylesheet`.
fn append_parsed(text: &str, stylesheet: &mut Stylesheet)
    ensures
        final(stylesheet)@ == old(stylesheet)@ + grammar::parse_stylesheet(text@),
{
    let mut parser = CssParser::new(text);
    match parser.parse_stylesheet() {
        Ok(parsed) => {
            let mut rules = parsed.rules;
            let ghost added = rules@;
            stylesheet.rules.append(&mut rules);
            assert(Rule::models(old(stylesheet).rules@ + added) =~= Rule::models(
                old(stylesheet).rules@,
            ) + Rule::models(added));
        },
        Err(_) => {},
    }
}

fn parse_styles_of_children(children: &Vec<Node>, stylesheet: &mut Stylesheet)
    ensures
        final(stylesheet)@ == old(stylesheet)@ + inline_rules_of(
            Node::models(children@),
            children@.len() as int,
        ),
    decreases children, 1nat,
{
    let ghost views = Node::models(children@);
    let mut i: usize = 0;
    assert(old(stylesheet)@ =~= old(stylesheet)@ + inline_rules_of(views, 0));
    while i < children.len()
        invariant
            i <= children.len(),
            views == Node::models(children@),
            stylesheet@ == old(stylesheet)@ + inline_rules_of(views, i as int),
        decreases children.len() - i,
    {
        parse_inline_styles(&children[i], stylesheet);
        i += 1;
        assert(stylesheet@ =~= old(stylesheet)@ + inline_rules_of(views, i as int));
    }
}

/// Parses the stylesheets embedded in and under `node` and adds their rules
/// to `stylesheet`, in document order.
pub fn parse_inline_styles(node: &Node, stylesheet: &mut Stylesheet)
    ensures
        final(stylesheet)@ == old(stylesheet)@ + inline_rules(node@),
    decreases node, 0nat,
{
    let is_style = match &node.node_type {
        NodeType::Element(e) => str_equal(e.tag_name.as_str(), "style"),
        _ => false,
    };
    if is_style {
        if node.children.len() > 0 {
            match &node.children[0].node_type {
                NodeType::Text(text) => {
                    append_parsed(text.as_str(), stylesheet);
                },
                _ => {
                    assert(old(stylesheet)@ =~= old(stylesheet)@ + Seq::<RuleView>::empty());
                },
            }
        } else {
            assert(old(stylesheet)@ =~= old(stylesheet)@ + Seq::<RuleView>::empty());
        }
    } else {
        parse_styles_of_children(&node.children, stylesheet);
    }
}

} // verus!
