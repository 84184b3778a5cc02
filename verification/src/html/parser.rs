//! The tree builder: from tokens to a document tree.

use vstd::prelude::*;
use crate::html::dom::{
    ElementDataView,
    Node,
    NodeType,
    NodeTypeView,
    NodeView,
    attribute_views,
    is_void_element,
    is_void_tag,
};
use crate::html::tokenizer::{Token, TokenView, Tokenizer, next_token};
use crate::text::str_equal;

verus! {

/// Where a tree builder stands: the token it looks at, and the position in
/// the text after that token.
pub struct ParserState {
    pub pos: int,
    pub current: TokenView,
}

/// The state after the current token is consumed.
pub open spec fn advance(s: Seq<char>, st: ParserState) -> ParserState {
    ParserState { pos: next_token(s, st.pos).1, current: next_token(s, st.pos).0 }
}

/// What is left to read: the characters after the current token, and the
/// current token unless it is `EOF`.
pub open spec fn measure(s: Seq<char>, st: ParserState) -> nat {
    let left: nat = if st.pos < s.len() {
        (s.len() - st.pos) as nat
    } else {
        0
    };
    if st.current is EOF {
        left
    } else {
        left + 1
    }
}

pub open spec fn element_view(
    name: Seq<char>,
    attrs: Seq<(Seq<char>, Seq<char>)>,
    children: Seq<NodeView>,
    is_self_closing: bool,
) -> NodeView {
    NodeView {
        children,
        node_type: NodeTypeView::Element(
            ElementDataView { tag_name: name, attributes: attrs, is_self_closing },
        ),
    }
}

pub open spec fn leaf(node_type: NodeTypeView) -> NodeView {
    NodeView { children: Seq::empty(), node_type }
}

/// Whether a node is an element with the given tag name.
pub open spec fn is_element_named(node: NodeView, name: Seq<char>) -> bool {
    match node.node_type {
        NodeTypeView::Element(e) => e.tag_name == name,
        _ => false,
    }
}

/// The node that the current token begins, if it begins one. A start tag of
/// a void element and a self-closing tag make an element without children;
/// any other start tag makes an element with the nodes up to its end tag. An
/// end tag is consumed and makes nothing.
pub open spec fn parse_node(s: Seq<char>, st: ParserState) -> (Option<NodeView>, ParserState)
    decreases measure(s, st), 0nat,
{
    match st.current {
        TokenView::StartTag(name, attrs) => {
            let st1 = advance(s, st);
            if is_void_tag(name) {
                (Some(element_view(name, attrs, Seq::empty(), true)), st1)
            } else if measure(s, st1) < measure(s, st) {
                let (children, st2) = element_children(s, st1, name, Seq::empty());
                (Some(element_view(name, attrs, children, false)), st2)
            } else {
                (Some(element_view(name, attrs, Seq::empty(), false)), st1)
            }
        },
        TokenView::SelfClosingTag(name, attrs) => (
            Some(element_view(name, attrs, Seq::empty(), true)),
            advance(s, st),
        ),
        TokenView::Text(text) => (Some(leaf(NodeTypeView::Text(text))), advance(s, st)),
        TokenView::Comment(text) => (Some(leaf(NodeTypeView::Comment(text))), advance(s, st)),
        TokenView::Doctype => (Some(leaf(NodeTypeView::Doctype)), advance(s, st)),
        TokenView::EndTag(_) => (None, advance(s, st)),
        TokenView::EOF => (None, st),
    }
}

/// The children of an element named `tag` from the current token on, added
/// to `acc`, up to and including the end tag of that name, or up to the end
/// of the text. End tags of other names are dropped.
pub open spec fn element_children(
    s: Seq<char>,
    st: ParserState,
    tag: Seq<char>,
    acc: Seq<NodeView>,
) -> (Seq<NodeView>, ParserState)
    decreases measure(s, st), 1nat,
{
    match st.current {
        TokenView::EOF => (acc, st),
        TokenView::EndTag(name) => {
            let st1 = advance(s, st);
            if name == tag || measure(s, st1) >= measure(s, st) {
                (acc, st1)
            } else {
                element_children(s, st1, tag, acc)
            }
        },
        _ => {
            let (node, st1) = parse_node(s, st);
            let next = match node {
                Some(n) => acc.push(n),
                None => acc,
            };
            if measure(s, st1) < measure(s, st) {
                element_children(s, st1, tag, next)
            } else {
                (next, st1)
            }
        },
    }
}

/// The nodes at the top of the document from the current token on, added to
/// `acc`.
pub open spec fn top_level_nodes(s: Seq<char>, st: ParserState, acc: Seq<NodeView>) -> Seq<
    NodeView,
>
    decreases measure(s, st),
{
    if st.current is EOF {
        acc
    } else {
        let (node, st1) = parse_node(s, st);
        let next = match node {
            Some(n) => acc.push(n),
            None => acc,
        };
        if measure(s, st1) < measure(s, st) {
            top_level_nodes(s, st1, next)
        } else {
            next
        }
    }
}

/// The nodes other than `head` elements, in order.
pub open spec fn body_nodes(nodes: Seq<NodeView>) -> Seq<NodeView>
    decreases nodes.len(),
{
    if nodes.len() == 0 {
        Seq::empty()
    } else if is_element_named(nodes.last(), "head"@) {
        body_nodes(nodes.drop_last())
    } else {
        body_nodes(nodes.drop_last()).push(nodes.last())
    }
}

/// The last `head` element among the nodes, if there is one.
pub open spec fn head_node(nodes: Seq<NodeView>) -> Option<NodeView>
    decreases nodes.len(),
{
    if nodes.len() == 0 {
        None
    } else if is_element_named(nodes.last(), "head"@) {
        Some(nodes.last())
    } else {
        head_node(nodes.drop_last())
    }
}

/// Whether one of the nodes is an `html` element.
pub open spec fn has_html(nodes: Seq<NodeView>) -> bool {
    exists|i: int| 0 <= i < nodes.len() && is_element_named(#[trigger] nodes[i], "html"@)
}

/// The top-level nodes put under an `html` element: its first child is the
/// last `head` element among them, or an empty one; its second is a `body`
/// that holds all the nodes that are not `head` elements.
pub open spec fn wrap_in_html(nodes: Seq<NodeView>) -> NodeView {
    let head = match head_node(nodes) {
        Some(h) => h,
        None => element_view("head"@, Seq::empty(), Seq::empty(), false),
    };
    let body = element_view("body"@, Seq::empty(), body_nodes(nodes), false);
    element_view("html"@, Seq::empty(), seq![head, body], false)
}

/// The document that a text describes: a leading doctype, then the
/// top-level nodes, which are put under an `html` element unless one of
/// those after the doctype is an `html` element.
pub open spec fn document(s: Seq<char>) -> NodeView {
    document_from(s, advance(s, ParserState { pos: 0, current: TokenView::EOF }))
}

/// A tree builder over one markup text.
pub struct Parser {
    tokenizer: Tokenizer,
    current_token: Token,
}

impl Parser {
    /// The text being parsed.
    pub closed spec fn text(&self) -> Seq<char> {
        self.tokenizer.text()
    }

    /// Where the builder stands.
    pub closed spec fn state(&self) -> ParserState {
        ParserState { pos: self.tokenizer.pos(), current: self.current_token@ }
    }

    pub closed spec fn wf(&self) -> bool {
        self.tokenizer.wf()
    }

    /// `self` is a valid state over the same text as `before`, with no more
    /// left to read.
    pub open spec fn continues(&self, before: &Self) -> bool {
        &&& self.wf()
        &&& self.text() == before.text()
        &&& measure(self.text(), self.state()) <= measure(before.text(), before.state())
    }

    /// The position of a valid builder lies within its text.
    pub proof fn lemma_state_in_text(&self)
        requires
            self.wf(),
        ensures
            0 <= self.state().pos <= self.text().len(),
    {
        self.tokenizer.lemma_pos_in_text();
    }

    pub fn new(input: String) -> (p: Self)
        ensures
            p.wf(),
            p.text() == input@,
            p.state() == advance(input@, ParserState { pos: 0, current: TokenView::EOF }),
    {
        let mut tokenizer = Tokenizer::new(input);
        let current_token = tokenizer.next_token();
        Parser { tokenizer, current_token }
    }

    fn at_eof(&self) -> (b: bool)
        ensures
            b == (self.state().current is EOF),
    {
        match &self.current_token {
            Token::EOF => true,
            _ => false,
        }
    }

    /// Reads the next token and returns the one that was current.
    fn take_token(&mut self) -> (token: Token)
        requires
            old(self).wf(),
            !(old(self).state().current is EOF),
        ensures
            final(self).continues(old(self)),
            token@ == old(self).state().current,
            final(self).state() == advance(old(self).text(), old(self).state()),
            measure(final(self).text(), final(self).state()) < measure(
                old(self).text(),
                old(self).state(),
            ),
    {
        proof {
            self.tokenizer.lemma_pos_in_text();
        }
        let mut token = self.tokenizer.next_token();
        core::mem::swap(&mut self.current_token, &mut token);
        token
    }

    fn consume_token(&mut self)
        requires
            old(self).wf(),
            !(old(self).state().current is EOF),
        ensures
            final(self).continues(old(self)),
            final(self).state() == advance(old(self).text(), old(self).state()),
            measure(final(self).text(), final(self).state()) < measure(
                old(self).text(),
                old(self).state(),
            ),
    {
        let _ = self.take_token();
    }

    /// Reads the node that the current token begins, if it begins one.
    pub fn parse_node(&mut self) -> (node: Option<Node>)
        requires
            old(self).wf(),
        ensures
            final(self).continues(old(self)),
            (
                match node {
                    Some(n) => Some(n@),
                    None => None,
                },
                final(self).state(),
            ) == parse_node(old(self).text(), old(self).state()),
            !(old(self).state().current is EOF) ==> measure(final(self).text(), final(self).state())
                < measure(old(self).text(), old(self).state()),
        decreases measure(old(self).text(), old(self).state()), 0nat,
    {
        if self.at_eof() {
            return None;
        }
        match self.take_token() {
            Token::StartTag(name, attrs) => {
                if is_void_element(name.as_str()) {
                    let children: Vec<Node> = Vec::new();
                    assert(Node::models(children@) =~= Seq::empty());
                    Some(Node::elem(name, attrs, children, true))
                } else {
                    Some(self.parse_element(name, attrs))
                }
            },
            Token::SelfClosingTag(name, attrs) => {
                let children: Vec<Node> = Vec::new();
                assert(Node::models(children@) =~= Seq::empty());
                Some(Node::elem(name, attrs, children, true))
            },
            Token::Text(text) => Some(Node::text(text)),
            Token::Comment(text) => Some(Node::comment(text)),
            Token::Doctype => Some(Node::doctype()),
            Token::EndTag(_) => None,
            Token::EOF => None,
        }
    }

    /// Reads the children of an element up to its end tag and returns the
    /// element.
    pub fn parse_element(&mut self, tag_name: String, attributes: Vec<(String, String)>) -> (node:
        Node)
        requires
            old(self).wf(),
        ensures
            final(self).continues(old(self)),
            node@ == element_view(
                tag_name@,
                attribute_views(attributes@),
                element_children(old(self).text(), old(self).state(), tag_name@, Seq::empty()).0,
                false,
            ),
            final(self).state() == element_children(
                old(self).text(),
                old(self).state(),
                tag_name@,
                Seq::empty(),
            ).1,
        decreases measure(old(self).text(), old(self).state()), 1nat,
    {
        let mut children: Vec<Node> = Vec::new();
        let ghost s = self.text();
        assert(Node::models(children@) =~= Seq::empty());
        while !self.at_eof()
            invariant_except_break
                element_children(s, old(self).state(), tag_name@, Seq::empty()) == element_children(
                    s,
                    self.state(),
                    tag_name@,
                    Node::models(children@),
                ),
            invariant
                self.continues(old(self)),
                s == self.text(),
            ensures
                self.continues(old(self)),
                element_children(s, old(self).state(), tag_name@, Seq::empty()) == (
                    Node::models(children@),
                    self.state(),
                ),
            decreases measure(s, self.state()),
        {
            let ghost acc = Node::models(children@);
            let closes = match &self.current_token {
                Token::EndTag(name) => Some(str_equal(name.as_str(), tag_name.as_str())),
                _ => None,
            };
            match closes {
                Some(true) => {
                    self.consume_token();
                    break ;
                },
                Some(false) => {
                    self.consume_token();
                },
                None => {
                    match self.parse_node() {
                        Some(child) => {
                            children.push(child);
                            assert(Node::models(children@) =~= acc.push(child@));
                        },
                        None => {},
                    }
                },
            }
        }
        Node::elem(tag_name, attributes, children, false)
    }

    /// Builds the document: a leading doctype, then every node up to the end
    /// of the text. Unless one of those nodes is an `html` element, they are
    /// put under a new one, split into its `head` and its `body`.
    pub fn parse(&mut self) -> (doc: Node)
        requires
            old(self).wf(),
        ensures
            final(self).continues(old(self)),
            doc@ == document_from(old(self).text(), old(self).state()),
    {
        let mut children: Vec<Node> = Vec::new();
        let mut has_html_element = false;
        let ghost s = self.text();
        assert(Node::models(children@) =~= Seq::empty());
        let is_doctype = match &self.current_token {
            Token::Doctype => true,
            _ => false,
        };
        if is_doctype {
            children.push(Node::doctype());
            self.consume_token();
            assert(Node::models(children@) =~= seq![leaf(NodeTypeView::Doctype)]);
        }
        let ghost first = Node::models(children@);
        let ghost start = self.state();
        while !self.at_eof()
            invariant
                self.continues(old(self)),
                s == self.text(),
                top_level_nodes(s, start, first) == top_level_nodes(
                    s,
                    self.state(),
                    Node::models(children@),
                ),
                has_html_element == has_html(Node::models(children@)),
            decreases measure(s, self.state()),
        {
            let ghost acc = Node::models(children@);
            match self.parse_node() {
                Some(node) => {
                    let named_html = match &node.node_type {
                        NodeType::Element(e) => str_equal(e.tag_name.as_str(), "html"),
                        _ => false,
                    };
                    children.push(node);
                    assert(Node::models(children@) =~= acc.push(node@));
                    assert(has_html(acc.push(node@)) == (has_html(acc) || named_html)) by {
                        let next = acc.push(node@);
                        if has_html(acc) {
                            let i = choose|i: int|
                                0 <= i < acc.len() && is_element_named(#[trigger] acc[i], "html"@);
                            assert(is_element_named(next[i], "html"@));
                        }
                        if named_html {
                            assert(is_element_named(next[acc.len() as int], "html"@));
                        }
                        if has_html(next) {
                            let i = choose|i: int|
                                0 <= i < next.len() && is_element_named(
                                    #[trigger] next[i],
                                    "html"@,
                                );
                            if i < acc.len() {
                                assert(is_element_named(acc[i], "html"@));
                            }
                        }
                    }
                    has_html_element = has_html_element || named_html;
                },
                None => {},
            }
        }
        if !has_html_element {
            let wrapped = wrap(children);
            let mut top: Vec<Node> = Vec::new();
            let ghost w = wrapped@;
            top.push(wrapped);
            assert(Node::models(top@) =~= seq![w]);
            children = top;
        }
        Node::new(NodeType::Document, children)
    }
}

/// The document that a builder in state `st` over the text `s` builds.
pub open spec fn document_from(s: Seq<char>, st: ParserState) -> NodeView {
    let (first, st1) = if st.current is Doctype {
        (seq![leaf(NodeTypeView::Doctype)], advance(s, st))
    } else {
        (Seq::empty(), st)
    };
    let nodes = top_level_nodes(s, st1, first);
    NodeView {
        children: if has_html(nodes) {
            nodes
        } else {
            seq![wrap_in_html(nodes)]
        },
        node_type: NodeTypeView::Document,
    }
}

/// Puts top-level nodes under a new `html` element, split into `head` and
/// `body`.
pub fn wrap(nodes: Vec<Node>) -> (html: Node)
    ensures
        html@ == wrap_in_html(Node::models(nodes@)),
{
    let mut head: Option<Node> = None;
    let mut body_children: Vec<Node> = Vec::new();
    let ghost all = Node::models(nodes@);
    assert(Node::models(body_children@) =~= Seq::empty());
    assert(all.take(0) =~= Seq::empty());
    for child in it: nodes
        invariant
            all == Node::models(it.seq()),
            Node::models(body_children@) == body_nodes(all.take(it.index() as int)),
            (match head {
                Some(h) => Some(h@),
                None => None,
            }) == head_node(all.take(it.index() as int)),
    {
        let ghost acc = Node::models(body_children@);
        let ghost i = it.index() as int;
        proof {
            assert(all.take(i + 1).drop_last() =~= all.take(i));
            assert(all.take(i + 1).last() == child@);
        }
        let named_head = match &child.node_type {
            NodeType::Element(e) => str_equal(e.tag_name.as_str(), "head"),
            _ => false,
        };
        if named_head {
            head = Some(child);
        } else {
            body_children.push(child);
            assert(Node::models(body_children@) =~= acc.push(child@));
        }
    }
    assert(all.take(all.len() as int) =~= all);
    let head = match head {
        Some(h) => h,
        None => {
            let none: Vec<Node> = Vec::new();
            assert(Node::models(none@) =~= Seq::empty());
            let attrs: Vec<(String, String)> = Vec::new();
            assert(attribute_views(attrs@) =~= Seq::empty());
            Node::elem("head".to_string(), attrs, none, false)
        },
    };
    let attrs: Vec<(String, String)> = Vec::new();
    assert(attribute_views(attrs@) =~= Seq::empty());
    let body = Node::elem("body".to_string(), attrs, body_children, false);
    let mut html_children: Vec<Node> = Vec::new();
    let ghost h = head@;
    let ghost b = body@;
    html_children.push(head);
    html_children.push(body);
    assert(Node::models(html_children@) =~= seq![h, b]);
    let attrs: Vec<(String, String)> = Vec::new();
    assert(attribute_views(attrs@) =~= Seq::empty());
    Node::elem("html".to_string(), attrs, html_children, false)
}

} // verus!
