//! The document tree.

use vstd::prelude::*;
use crate::text::str_equal;

verus! {

#[derive(Debug, PartialEq)]
pub enum NodeType {
    Document,
    Doctype,
    Element(ElementData),
    Text(String),
    Comment(String),
}

#[derive(Debug, PartialEq)]
pub struct Node {
    pub children: Vec<Node>,
    pub node_type: NodeType,
}

#[derive(Debug, PartialEq)]
pub struct ElementData {
    pub tag_name: String,
    pub attributes: Vec<(String, String)>,
    pub is_self_closing: bool,
}

pub struct ElementDataView {
    pub tag_name: Seq<char>,
    pub attributes: Seq<(Seq<char>, Seq<char>)>,
    pub is_self_closing: bool,
}

pub enum NodeTypeView {
    Document,
    Doctype,
    Element(ElementDataView),
    Text(Seq<char>),
    Comment(Seq<char>),
}

pub struct NodeView {
    pub children: Seq<NodeView>,
    pub node_type: NodeTypeView,
}

/// The names and values of a list of attributes, in order.
pub open spec fn attribute_views(v: Seq<(String, String)>) -> Seq<(Seq<char>, Seq<char>)> {
    v.map_values(|a: (String, String)| (a.0@, a.1@))
}

impl View for ElementData {
    type V = ElementDataView;

    open spec fn view(&self) -> ElementDataView {
        ElementDataView {
            tag_name: self.tag_name@,
            attributes: attribute_views(self.attributes@),
            is_self_closing: self.is_self_closing,
        }
    }
}

impl View for NodeType {
    type V = NodeTypeView;

    open spec fn view(&self) -> NodeTypeView {
        match self {
            NodeType::Document => NodeTypeView::Document,
            NodeType::Doctype => NodeTypeView::Doctype,
            NodeType::Element(e) => NodeTypeView::Element(e@),
            NodeType::Text(t) => NodeTypeView::Text(t@),
            NodeType::Comment(t) => NodeTypeView::Comment(t@),
        }
    }
}

impl Node {
    pub open spec fn model(&self) -> NodeView
        decreases self,
    {
        NodeView { children: Node::models(self.children@), node_type: self.node_type@ }
    }

    /// The models of a sequence of nodes, in order.
    pub open spec fn models(nodes: Seq<Node>) -> Seq<NodeView>
        decreases nodes,
    {
        Seq::new(
            nodes.len(),
            |i: int|
                if 0 <= i < nodes.len() {
                    nodes[i].model()
                } else {
                    NodeView { children: Seq::empty(), node_type: NodeTypeView::Document }
                },
        )
    }
}

impl View for Node {
    type V = NodeView;

    open spec fn view(&self) -> NodeView {
        self.model()
    }
}

impl Node {
    pub fn new(node_type: NodeType, children: Vec<Node>) -> (node: Self)
        ensures
            node@ == (NodeView { children: Node::models(children@), node_type: node_type@ }),
    {
        Node { children, node_type }
    }

    /// A text node.
    pub fn text(data: String) -> (node: Self)
        ensures
            node@ == (NodeView { children: Seq::empty(), node_type: NodeTypeView::Text(data@) }),
    {
        let children: Vec<Node> = Vec::new();
        assert(Node::models(children@) =~= Seq::empty());
        Node::new(NodeType::Text(data), children)
    }

    /// An element node.
    pub fn elem(
        name: String,
        attrs: Vec<(String, String)>,
        children: Vec<Node>,
        is_self_closing: bool,
    ) -> (node: Self)
        ensures
            node@ == (NodeView {
                children: Node::models(children@),
                node_type: NodeTypeView::Element(
                    ElementDataView {
                        tag_name: name@,
                        attributes: attribute_views(attrs@),
                        is_self_closing,
                    },
                ),
            }),
    {
        Node::new(
            NodeType::Element(ElementData { tag_name: name, attributes: attrs, is_self_closing }),
            children,
        )
    }

    /// A doctype node.
    pub fn doctype() -> (node: Self)
        ensures
            node@ == (NodeView { children: Seq::empty(), node_type: NodeTypeView::Doctype }),
    {
        let children: Vec<Node> = Vec::new();
        assert(Node::models(children@) =~= Seq::empty());
        Node::new(NodeType::Doctype, children)
    }

    /// A comment node.
    pub fn comment(data: String) -> (node: Self)
        ensures
            node@ == (NodeView { children: Seq::empty(), node_type: NodeTypeView::Comment(data@) }),
    {
        let children: Vec<Node> = Vec::new();
        assert(Node::models(children@) =~= Seq::empty());
        Node::new(NodeType::Comment(data), children)
    }
}

/// The elements that never have content or an end tag.
pub open spec fn is_void_tag(name: Seq<char>) -> bool {
    name == "area"@ || name == "base"@ || name == "br"@ || name == "col"@ || name == "embed"@
        || name == "hr"@ || name == "img"@ || name == "input"@ || name == "link"@ || name
        == "meta"@ || name == "param"@ || name == "source"@ || name == "track"@ || name == "wbr"@
}

pub fn is_void_element(tag_name: &str) -> (b: bool)
    ensures
        b == is_void_tag(tag_name@),
{
    str_equal(tag_name, "area") || str_equal(tag_name, "base") || str_equal(tag_name, "br")
        || str_equal(tag_name, "col") || str_equal(tag_name, "embed") || str_equal(tag_name, "hr")
        || str_equal(tag_name, "img") || str_equal(tag_name, "input") || str_equal(
        tag_name,
        "link",
    ) || str_equal(tag_name, "meta") || str_equal(tag_name, "param") || str_equal(
        tag_name,
        "source",
    ) || str_equal(tag_name, "track") || str_equal(tag_name, "wbr")
}

} // verus!
