//! Writing a document tree back out as markup.

use vstd::prelude::*;
use vstd::string::StringExecFns;
use crate::html::dom::{
    ElementData,
    ElementDataView,
    Node,
    NodeType,
    NodeTypeView,
    NodeView,
    attribute_views,
    is_void_element,
    is_void_tag,
};
use crate::text::{
    is_whitespace,
    is_whitespace_char,
    to_chars,
    trim_range,
    trimmed,
};

verus! {

/// How a document is written out.
#[derive(Clone, Copy, PartialEq, Eq, Debug, Structural)]
pub enum PrintMode {
    Pretty,
    Json,
    Compact,
}

/// What a character of text becomes in markup: `&`, `<` and `>` are written
/// as entities.
pub open spec fn escaped_text_char(c: char) -> Seq<char> {
    if c == '&' {
        "&amp;"@
    } else if c == '<' {
        "&lt;"@
    } else if c == '>' {
        "&gt;"@
    } else {
        seq![c]
    }
}

/// What a character of an attribute value becomes in markup: as in text,
/// and the two quotes are written as entities too.
pub open spec fn escaped_attribute_char(c: char) -> Seq<char> {
    if c == '"' {
        "&quot;"@
    } else if c == '\'' {
        "&apos;"@
    } else {
        escaped_text_char(c)
    }
}

/// A text with each character escaped for markup text.
pub open spec fn escaped_text(s: Seq<char>) -> Seq<char>
    decreases s.len(),
{
    if s.len() == 0 {
        Seq::empty()
    } else {
        escaped_text(s.drop_last()) + escaped_text_char(s.last())
    }
}

/// A text with each character escaped for an attribute value.
pub open spec fn escaped_attribute(s: Seq<char>) -> Seq<char>
    decreases s.len(),
{
    if s.len() == 0 {
        Seq::empty()
    } else {
        escaped_attribute(s.drop_last()) + escaped_attribute_char(s.last())
    }
}

/// What the character at `i` leaves in a text whose whitespace is collapsed:
/// itself if it is no whitespace, one space if it starts a run of
/// whitespace, nothing if it continues one.
pub open spec fn collapsed_char(s: Seq<char>, i: int) -> Seq<char> {
    if !is_whitespace_char(s[i]) {
        seq![s[i]]
    } else if i > 0 && is_whitespace_char(s[i - 1]) {
        Seq::empty()
    } else {
        seq![' ']
    }
}

/// The first `n` characters of `s` with each run of whitespace collapsed to
/// one space.
pub open spec fn collapsed_prefix(s: Seq<char>, n: int) -> Seq<char>
    decreases n,
{
    if n <= 0 {
        Seq::empty()
    } else {
        collapsed_prefix(s, n - 1) + collapsed_char(s, n - 1)
    }
}

/// `s` with each run of whitespace collapsed to one space.
pub open spec fn collapsed(s: Seq<char>) -> Seq<char> {
    collapsed_prefix(s, s.len() as int)
}

/// Appends the escaped form of one character of text.
fn push_escaped_text_char(out: &mut String, c: char)
    ensures
        final(out)@ == old(out)@ + escaped_text_char(c),
{
    if c == '&' {
        out.append("&amp;");
    } else if c == '<' {
        out.append("&lt;");
    } else if c == '>' {
        out.append("&gt;");
    } else {
        out.push(c);
        assert(old(out)@.push(c) =~= old(out)@ + seq![c]);
    }
}

/// Escapes a text for use as markup text.
pub fn escape_html_text(text: &str) -> (r: String)
    ensures
        r@ == escaped_text(text@),
{
    let chars = to_chars(text);
    let mut out = String::new();
    let mut i: usize = 0;
    assert(chars@.take(0) =~= Seq::empty());
    while i < chars.len()
        invariant
            i <= chars.len(),
            chars@ == text@,
            out@ == escaped_text(chars@.take(i as int)),
        decreases chars.len() - i,
    {
        assert(chars@.take(i + 1).drop_last() =~= chars@.take(i as int));
        push_escaped_text_char(&mut out, chars[i]);
        i += 1;
    }
    assert(chars@.take(i as int) =~= chars@);
    out
}

/// Escapes a text for use as an attribute value between double quotes.
pub fn escape_html_attribute(value: &str) -> (r: String)
    ensures
        r@ == escaped_attribute(value@),
{
    let chars = to_chars(value);
    let mut out = String::new();
    let mut i: usize = 0;
    assert(chars@.take(0) =~= Seq::empty());
    while i < chars.len()
        invariant
            i <= chars.len(),
            chars@ == value@,
            out@ == escaped_attribute(chars@.take(i as int)),
        decreases chars.len() - i,
    {
        assert(chars@.take(i + 1).drop_last() =~= chars@.take(i as int));
        let c = chars[i];
        if c == '"' {
            out.append("&quot;");
        } else if c == '\'' {
            out.append("&apos;");
        } else {
            push_escaped_text_char(&mut out, c);
        }
        i += 1;
    }
    assert(chars@.take(i as int) =~= chars@);
    out
}

/// Collapses each run of whitespace in `v[from..to]` to one space.
fn collapse_range(v: &Vec<char>, from: usize, to: usize) -> (r: String)
    requires
        from <= to <= v.len(),
    ensures
        r@ == collapsed(v@.subrange(from as int, to as int)),
{
    let ghost s = v@.subrange(from as int, to as int);
    let mut out = String::new();
    let mut in_whitespace = false;
    let mut i: usize = from;
    while i < to
        invariant
            from <= i <= to <= v.len(),
            s == v@.subrange(from as int, to as int),
            out@ == collapsed_prefix(s, i - from),
            in_whitespace == (i > from && is_whitespace_char(s[i - from - 1])),
        decreases to - i,
    {
        let c = v[i];
        assert(s[i - from] == c);
        let ghost before = out@;
        if is_whitespace(c) {
            if !in_whitespace {
                out.push(' ');
                in_whitespace = true;
                assert(before.push(' ') =~= before + seq![' ']);
            } else {
                assert(before =~= before + Seq::<char>::empty());
            }
        } else {
            out.push(c);
            in_whitespace = false;
            assert(before.push(c) =~= before + seq![c]);
        }
        i += 1;
    }
    out
}

/// Collapses each run of whitespace to one space.
pub fn collapse_whitespace(text: String) -> (r: String)
    ensures
        r@ == collapsed(text@),
{
    let chars = to_chars(text.as_str());
    assert(chars@.subrange(0, chars@.len() as int) =~= chars@);
    collapse_range(&chars, 0, chars.len())
}

/// `n` spaces.
pub open spec fn spaces(n: nat) -> Seq<char> {
    Seq::new(n, |i: int| ' ')
}

/// The indentation of the children of an element indented by `indent`.
pub open spec fn deeper(indent: nat) -> nat {
    if indent + 2 > usize::MAX {
        usize::MAX as nat
    } else {
        indent + 2
    }
}

/// The margin before a line: the indentation when printing prettily,
/// nothing otherwise.
pub open spec fn margin(indent: nat, mode: PrintMode) -> Seq<char> {
    if mode == PrintMode::Pretty {
        spaces(indent)
    } else {
        Seq::empty()
    }
}

/// One attribute as written in a tag: a space and the name, and for a
/// value that is not empty `="` the escaped value `"`.
pub open spec fn rendered_attribute(a: (Seq<char>, Seq<char>)) -> Seq<char> {
    if a.1.len() == 0 {
        " "@ + a.0
    } else {
        " "@ + a.0 + "=\""@ + escaped_attribute(a.1) + "\""@
    }
}

/// The first `n` attributes as written in a tag.
pub open spec fn rendered_attributes(attrs: Seq<(Seq<char>, Seq<char>)>, n: int) -> Seq<char>
    decreases n,
{
    if n <= 0 {
        Seq::empty()
    } else {
        rendered_attributes(attrs, n - 1) + rendered_attribute(attrs[n - 1])
    }
}

/// A text node as written out: escaped, trimmed when printing prettily,
/// whitespace collapsed, on a line of its own when printing prettily.
/// Nothing is written for a text that comes out empty.
pub open spec fn rendered_text(text: Seq<char>, indent: nat, mode: PrintMode) -> Seq<char> {
    let escaped = escaped_text(text);
    let body = if mode == PrintMode::Pretty {
        collapsed(trimmed(escaped))
    } else {
        collapsed(escaped)
    };
    if body.len() == 0 {
        Seq::empty()
    } else if mode == PrintMode::Pretty {
        spaces(indent) + body + "\n"@
    } else {
        body
    }
}

/// A comment node as written out.
pub open spec fn rendered_comment(text: Seq<char>, indent: nat, mode: PrintMode) -> Seq<char> {
    if mode == PrintMode::Pretty {
        spaces(indent) + "<!--"@ + text + "-->\n"@
    } else {
        "<!--"@ + text + "-->"@
    }
}

/// The opening of an element up to the end of its attributes.
pub open spec fn rendered_open(e: ElementDataView, indent: nat, mode: PrintMode) -> Seq<char> {
    margin(indent, mode) + "<"@ + e.tag_name + rendered_attributes(
        e.attributes,
        e.attributes.len() as int,
    )
}

/// The end of an element's start tag: `/>` and a line break for an element
/// without content, else `>`, followed by a line break when printing
/// prettily an element that has children.
pub open spec fn rendered_open_end(e: ElementDataView, has_children: bool, mode: PrintMode) -> Seq<
    char,
> {
    if e.is_self_closing || is_void_tag(e.tag_name) {
        "/>\n"@
    } else if mode == PrintMode::Pretty && has_children {
        ">\n"@
    } else {
        ">"@
    }
}

/// The end tag of an element with content. Printed prettily it stands on a
/// line of its own after children, and a blank line follows it.
pub open spec fn rendered_close(
    e: ElementDataView,
    has_children: bool,
    indent: nat,
    mode: PrintMode,
) -> Seq<char> {
    if mode == PrintMode::Pretty && has_children {
        spaces(indent) + "</"@ + e.tag_name + ">\n\n"@
    } else if mode == PrintMode::Pretty {
        "</"@ + e.tag_name + ">\n"@
    } else {
        "</"@ + e.tag_name + ">"@
    }
}

/// A node as written out. In the mode `Json` only doctypes are written.
pub open spec fn rendered(node: NodeView, indent: nat, mode: PrintMode) -> Seq<char>
    decreases node, 0nat,
{
    match node.node_type {
        NodeTypeView::Document => rendered_children(
            node.children,
            node.children.len() as int,
            indent,
            mode,
        ),
        NodeTypeView::Doctype => "<!DOCTYPE html>\n"@,
        NodeTypeView::Element(e) => rendered_element(e, node.children, indent, mode),
        NodeTypeView::Text(text) => if mode == PrintMode::Json {
            Seq::empty()
        } else {
            rendered_text(text, indent, mode)
        },
        NodeTypeView::Comment(text) => if mode == PrintMode::Json {
            Seq::empty()
        } else {
            rendered_comment(text, indent, mode)
        },
    }
}

/// An element as written out: its start tag, then for an element with
/// content its children, indented further, and its end tag. In the mode
/// `Json` only what its children write is written.
pub open spec fn rendered_element(
    e: ElementDataView,
    children: Seq<NodeView>,
    indent: nat,
    mode: PrintMode,
) -> Seq<char>
    decreases children, children.len() + 1,
{
    let has_children = children.len() > 0;
    if e.is_self_closing || is_void_tag(e.tag_name) {
        if mode == PrintMode::Json {
            Seq::empty()
        } else {
            rendered_open(e, indent, mode) + rendered_open_end(e, has_children, mode)
        }
    } else {
        let inner = rendered_children(children, children.len() as int, deeper(indent), mode);
        if mode == PrintMode::Json {
            inner
        } else {
            rendered_open(e, indent, mode) + rendered_open_end(e, has_children, mode) + inner
                + rendered_close(e, has_children, indent, mode)
        }
    }
}

/// The first `n` of some sibling nodes as written out, one after another.
pub open spec fn rendered_children(
    children: Seq<NodeView>,
    n: int,
    indent: nat,
    mode: PrintMode,
) -> Seq<char>
    decreases children, n,
{
    if n <= 0 || n > children.len() {
        Seq::empty()
    } else {
        rendered_children(children, n - 1, indent, mode) + rendered(children[n - 1], indent, mode)
    }
}

/// Appends `n` spaces.
fn push_spaces(out: &mut String, n: usize)
    ensures
        final(out)@ == old(out)@ + spaces(n as nat),
{
    let mut i: usize = 0;
    assert(old(out)@ =~= old(out)@ + spaces(0));
    while i < n
        invariant
            i <= n,
            out@ == old(out)@ + spaces(i as nat),
        decreases n - i,
    {
        out.push(' ');
        i += 1;
        assert(old(out)@ + spaces(i as nat) =~= (old(out)@ + spaces((i - 1) as nat)).push(' '));
    }
}

/// Appends the margin before a line.
fn push_margin(out: &mut String, indent: usize, mode: PrintMode)
    ensures
        final(out)@ == old(out)@ + margin(indent as nat, mode),
{
    if mode == PrintMode::Pretty {
        push_spaces(out, indent);
    } else {
        assert(old(out)@ =~= old(out)@ + Seq::<char>::empty());
    }
}

/// Appends the attributes of a tag.
fn push_attributes(out: &mut String, attrs: &Vec<(String, String)>)
    ensures
        final(out)@ == old(out)@ + rendered_attributes(
            attribute_views(attrs@),
            attrs@.len() as int,
        ),
{
    let ghost views = attribute_views(attrs@);
    let mut i: usize = 0;
    assert(old(out)@ =~= old(out)@ + rendered_attributes(views, 0));
    while i < attrs.len()
        invariant
            i <= attrs.len(),
            views == attribute_views(attrs@),
            out@ == old(out)@ + rendered_attributes(views, i as int),
        decreases attrs.len() - i,
    {
        let ghost before = out@;
        let name = &attrs[i].0;
        let value = &attrs[i].1;
        assert(views[i as int] == (name@, value@));
        out.append(" ");
        out.append(name.as_str());
        if !value.as_str().is_empty() {
            out.append("=\"");
            let escaped = escape_html_attribute(value.as_str());
            out.append(escaped.as_str());
            out.append("\"");
        }
        i += 1;
        assert(out@ =~= before + rendered_attribute(views[i - 1]));
        assert(out@ =~= old(out)@ + rendered_attributes(views, i as int));
    }
}

/// Appends a text node as written out.
fn push_text(out: &mut String, text: &str, indent: usize, mode: PrintMode)
    requires
        mode != PrintMode::Json,
    ensures
        final(out)@ == old(out)@ + rendered_text(text@, indent as nat, mode),
{
    let escaped = escape_html_text(text);
    let chars = to_chars(escaped.as_str());
    let body = if mode == PrintMode::Pretty {
        let (lo, hi) = trim_range(&chars, 0, chars.len());
        assert(chars@.subrange(0, chars@.len() as int) =~= chars@);
        collapse_range(&chars, lo, hi)
    } else {
        assert(chars@.subrange(0, chars@.len() as int) =~= chars@);
        collapse_range(&chars, 0, chars.len())
    };
    if body.as_str().is_empty() {
        assert(old(out)@ =~= old(out)@ + Seq::<char>::empty());
    } else if mode == PrintMode::Pretty {
        push_spaces(out, indent);
        out.append(body.as_str());
        out.append("\n");
        assert(out@ =~= old(out)@ + (spaces(indent as nat) + body@ + "\n"@));
    } else {
        out.append(body.as_str());
    }
}

/// Appends a comment node as written out.
fn push_comment(out: &mut String, text: &str, indent: usize, mode: PrintMode)
    requires
        mode != PrintMode::Json,
    ensures
        final(out)@ == old(out)@ + rendered_comment(text@, indent as nat, mode),
{
    if mode == PrintMode::Pretty {
        push_spaces(out, indent);
        out.append("<!--");
        out.append(text);
        out.append("-->\n");
        assert(out@ =~= old(out)@ + (spaces(indent as nat) + "<!--"@ + text@ + "-->\n"@));
    } else {
        out.append("<!--");
        out.append(text);
        out.append("-->");
        assert(out@ =~= old(out)@ + ("<!--"@ + text@ + "-->"@));
    }
}

/// Appends the start tag of an element.
fn push_open(out: &mut String, e: &ElementData, has_children: bool, indent: usize, mode: PrintMode)
    requires
        mode != PrintMode::Json,
    ensures
        final(out)@ == old(out)@ + rendered_open(e@, indent as nat, mode) + rendered_open_end(
            e@,
            has_children,
            mode,
        ),
{
    push_margin(out, indent, mode);
    out.append("<");
    out.append(e.tag_name.as_str());
    push_attributes(out, &e.attributes);
    assert(out@ =~= old(out)@ + rendered_open(e@, indent as nat, mode));
    if e.is_self_closing || is_void_element(e.tag_name.as_str()) {
        out.append("/>\n");
    } else if mode == PrintMode::Pretty && has_children {
        out.append(">\n");
    } else {
        out.append(">");
    }
}

/// Appends the end tag of an element with content.
fn push_close(out: &mut String, e: &ElementData, has_children: bool, indent: usize, mode: PrintMode)
    requires
        mode != PrintMode::Json,
    ensures
        final(out)@ == old(out)@ + rendered_close(e@, has_children, indent as nat, mode),
{
    if mode == PrintMode::Pretty && has_children {
        push_spaces(out, indent);
        out.append("</");
        out.append(e.tag_name.as_str());
        out.append(">\n\n");
        assert(out@ =~= old(out)@ + (spaces(indent as nat) + "</"@ + e@.tag_name + ">\n\n"@));
    } else if mode == PrintMode::Pretty {
        out.append("</");
        out.append(e.tag_name.as_str());
        out.append(">\n");
        assert(out@ =~= old(out)@ + ("</"@ + e@.tag_name + ">\n"@));
    } else {
        out.append("</");
        out.append(e.tag_name.as_str());
        out.append(">");
        assert(out@ =~= old(out)@ + ("</"@ + e@.tag_name + ">"@));
    }
}

/// Appends the nodes of `children` as written out, one after another.
fn push_children(out: &mut String, children: &Vec<Node>, indent: usize, mode: PrintMode)
    ensures
        final(out)@ == old(out)@ + rendered_children(
            Node::models(children@),
            children@.len() as int,
            indent as nat,
            mode,
        ),
    decreases children, 1nat,
{
    let ghost views = Node::models(children@);
    let mut i: usize = 0;
    assert(old(out)@ =~= old(out)@ + rendered_children(views, 0, indent as nat, mode));
    while i < children.len()
        invariant
            i <= children.len(),
            views == Node::models(children@),
            out@ == old(out)@ + rendered_children(views, i as int, indent as nat, mode),
        decreases children.len() - i,
    {
        render_into(out, &children[i], indent, mode);
        i += 1;
        assert(out@ =~= old(out)@ + rendered_children(views, i as int, indent as nat, mode));
    }
}

/// Appends an element with the given children as written out.
fn render_element(
    out: &mut String,
    e: &ElementData,
    children: &Vec<Node>,
    indent: usize,
    mode: PrintMode,
)
    ensures
        final(out)@ == old(out)@ + rendered_element(
            e@,
            Node::models(children@),
            indent as nat,
            mode,
        ),
    decreases children, 2nat,
{
    let has_children = children.len() > 0;
    let ghost views = Node::models(children@);
    let ghost start = out@;
    if e.is_self_closing || is_void_element(e.tag_name.as_str()) {
        if mode == PrintMode::Json {
            assert(start =~= start + Seq::<char>::empty());
        } else {
            push_open(out, e, has_children, indent, mode);
            proof {
                lemma_concat_3(
                    start,
                    rendered_open(e@, indent as nat, mode),
                    rendered_open_end(e@, has_children, mode),
                );
            }
        }
    } else if mode == PrintMode::Json {
        push_children(out, children, indent.saturating_add(2), mode);
    } else {
        push_open(out, e, has_children, indent, mode);
        let ghost open = rendered_open(e@, indent as nat, mode) + rendered_open_end(
            e@,
            has_children,
            mode,
        );
        proof {
            lemma_concat_3(
                start,
                rendered_open(e@, indent as nat, mode),
                rendered_open_end(e@, has_children, mode),
            );
        }
        assert(out@ == start + open);
        push_children(out, children, indent.saturating_add(2), mode);
        let ghost inner = rendered_children(views, views.len() as int, deeper(indent as nat), mode);
        assert(out@ == start + open + inner);
        push_close(out, e, has_children, indent, mode);
        let ghost close = rendered_close(e@, has_children, indent as nat, mode);
        assert(out@ == start + open + inner + close);
        proof {
            lemma_concat_3(start, open, inner);
            lemma_concat_3(start, open + inner, close);
        }
    }
}

/// Appending two texts one after the other appends their concatenation.
proof fn lemma_concat_3(a: Seq<char>, b: Seq<char>, c: Seq<char>)
    ensures
        a + b + c == a + (b + c),
{
    assert(a + b + c =~= a + (b + c));
}

/// Appends `node` as written out in `mode`, indented by `indent`.
pub fn render_into(out: &mut String, node: &Node, indent: usize, mode: PrintMode)
    ensures
        final(out)@ == old(out)@ + rendered(node@, indent as nat, mode),
    decreases node, 0nat,
{
    match &node.node_type {
        NodeType::Document => {
            push_children(out, &node.children, indent, mode);
        },
        NodeType::Doctype => {
            out.append("<!DOCTYPE html>\n");
        },
        NodeType::Element(e) => {
            render_element(out, e, &node.children, indent, mode);
        },
        NodeType::Text(text) => {
            if mode == PrintMode::Json {
                assert(old(out)@ =~= old(out)@ + Seq::<char>::empty());
            } else {
                push_text(out, text.as_str(), indent, mode);
            }
        },
        NodeType::Comment(text) => {
            if mode == PrintMode::Json {
                assert(old(out)@ =~= old(out)@ + Seq::<char>::empty());
            } else {
                push_comment(out, text.as_str(), indent, mode);
            }
        },
    }
}

/// Writes `node` out as markup in `mode`, indented by `indent`.
pub fn pretty_print(node: &Node, indent: usize, mode: PrintMode) -> (r: String)
    ensures
        r@ == rendered(node@, indent as nat, mode),
{
    let mut out = String::new();
    render_into(&mut out, node, indent, mode);
    assert(out@ =~= rendered(node@, indent as nat, mode));
    out
}

} // verus!
