//! Properties of the grammar that hold of every text.

use vstd::prelude::*;
use crate::css::grammar::{
    Cursor,
    DiagnosticView,
    MAX_CONSECUTIVE_ERRORS,
    MAX_MEMORY_BYTES,
    at_end,
    char_at,
    comment_end,
    declaration_seq,
    ParseError,
    empty_selector,
    hex_color,
    importance,
    parse_declaration,
    parse_declarations,
    parse_failures,
    parse_quoted,
    parse_rule,
    parse_selector,
    parse_selectors,
    parse_stylesheet,
    parse_unit,
    parse_value,
    remaining,
    run,
    run_text,
    selector_list,
    selector_parts,
    sheet_seq,
    skip_comment,
    skip_trivia,
    start,
    step,
    top_level_rule,
    unit_of,
    value_item,
    value_seq,
};
use crate::css::rules::{DeclarationView, RuleView, SelectorView, SimpleSelectorView, StyleRuleView};
use crate::css::values::ValueView;
use crate::text::{
    CharClass,
    is_hex_digit,
    is_identifier_char,
    is_numeric_char,
    is_whitespace_char,
    lemma_run_len,
    lowercase_of,
    run_len,
};

verus! {

/// A run is exactly `n` long where `n` characters of the class are followed
/// by the end of the text or by a character outside the class.
pub proof fn lemma_run_len_exact(s: Seq<char>, pos: int, class: CharClass, n: nat)
    requires
        0 <= pos,
        pos + n <= s.len(),
        forall|i: int| pos <= i < pos + n ==> class.contains(#[trigger] s[i]),
        pos + n == s.len() || !class.contains(s[pos + n]),
    ensures
        run_len(s, pos, class) == n,
    decreases n,
{
    if n > 0 {
        lemma_run_len_exact(s, pos + 1, class, (n - 1) as nat);
    }
}

/// The same text gives the same stylesheet: what a parse returns depends on
/// nothing but the characters it is given.
pub proof fn lemma_parse_is_deterministic(a: Seq<char>, b: Seq<char>)
    requires
        a == b,
    ensures
        parse_stylesheet(a) == parse_stylesheet(b),
{
}

/// A parse reads nothing more at the end of the text, after ten failures
/// in a row, and once the bytes consumed exceed the ceiling: it returns the
/// rules it has.
pub proof fn lemma_parse_stops(s: Seq<char>, c: Cursor, acc: Seq<RuleView>, errors: nat)
    requires
        at_end(s, c) || errors >= MAX_CONSECUTIVE_ERRORS || c.used > MAX_MEMORY_BYTES,
    ensures
        sheet_seq(s, c, acc, errors) == (acc, c),
{
}

/// Rules once read are kept: whatever follows in the text, the rules read
/// so far come first in the result, in their order.
pub proof fn lemma_rules_are_kept(s: Seq<char>, c: Cursor, acc: Seq<RuleView>, errors: nat)
    ensures
        acc.len() <= sheet_seq(s, c, acc, errors).0.len(),
        sheet_seq(s, c, acc, errors).0.subrange(0, acc.len() as int) == acc,
    decreases remaining(s, c),
{
    assert(acc.subrange(0, acc.len() as int) =~= acc);
    if !(at_end(s, c) || errors >= MAX_CONSECUTIVE_ERRORS || c.used > MAX_MEMORY_BYTES) {
        let c1 = skip_trivia(s, c);
        if !at_end(s, c1) {
            let (r, c2) = top_level_rule(s, c1);
            let (next, failures) = match r {
                Ok(rule) => (acc.push(rule), 0nat),
                Err(_) => (acc, errors + 1),
            };
            assert(next.subrange(0, acc.len() as int) =~= acc);
            if c2.pos == c.pos {
                lemma_rules_are_kept(s, step(c2, 1), next, failures + 1);
                let out = sheet_seq(s, step(c2, 1), next, failures + 1).0;
                assert(out.subrange(0, acc.len() as int) =~= out.subrange(
                    0,
                    next.len() as int,
                ).subrange(0, acc.len() as int));
            } else if remaining(s, c2) < remaining(s, c) {
                lemma_rules_are_kept(s, c2, next, failures);
                let out = sheet_seq(s, c2, next, failures).0;
                assert(out.subrange(0, acc.len() as int) =~= out.subrange(
                    0,
                    next.len() as int,
                ).subrange(0, acc.len() as int));
            }
        }
    }
}

/// A comment that is never closed is skipped up to the end of the text.
pub proof fn lemma_unterminated_comment_runs_to_end(s: Seq<char>, c: Cursor)
    requires
        0 <= c.pos,
        c.pos + 2 <= s.len(),
        char_at(s, c.pos) == '/',
        char_at(s, c.pos + 1) == '*',
        forall|i: int| c.pos + 2 <= i < s.len() - 1 ==> !(#[trigger] s[i] == '*' && s[i + 1] == '/'),
    ensures
        skip_comment(s, c).pos == s.len(),
{
    lemma_open_comment_ends_at_end(s, step(c, 2));
}

/// From inside a comment with no `*/` ahead, the comment's end is the end
/// of the text.
pub proof fn lemma_open_comment_ends_at_end(s: Seq<char>, c: Cursor)
    requires
        0 <= c.pos <= s.len(),
        forall|i: int| c.pos <= i < s.len() - 1 ==> !(#[trigger] s[i] == '*' && s[i + 1] == '/'),
    ensures
        comment_end(s, c).pos == s.len(),
    decreases remaining(s, c),
{
    lemma_run_len(s, c.pos, CharClass::Except('*'));
    let c1 = run(s, c, CharClass::Except('*'));
    if !at_end(s, c1) {
        assert(s[c1.pos] == '*');
        lemma_open_comment_ends_at_end(s, step(c1, 1));
    }
}

/// A quoted string that is never closed is read up to the end of the text.
pub proof fn lemma_unterminated_string_runs_to_end(s: Seq<char>, c: Cursor)
    requires
        0 <= c.pos < s.len(),
        forall|i: int| c.pos < i < s.len() ==> #[trigger] s[i] != s[c.pos],
    ensures
        parse_quoted(s, c).1.pos == s.len(),
        parse_quoted(s, c).0 == s.subrange(c.pos + 1, s.len() as int),
{
    lemma_run_len_exact(
        s,
        c.pos + 1,
        CharClass::Except(s[c.pos]),
        (s.len() - c.pos - 1) as nat,
    );
}

/// A word: one or more identifier characters, none of them whitespace.
pub open spec fn is_word(w: Seq<char>) -> bool {
    &&& w.len() > 0
    &&& forall|i: int|
        0 <= i < w.len() ==> is_identifier_char(#[trigger] w[i]) && !is_whitespace_char(w[i])
}

/// A selector as it can be written in one piece: a tag name, `#` and an id,
/// `.` and a class, or `*`.
pub enum SelectorShape {
    Tag(Seq<char>),
    Id(Seq<char>),
    Class(Seq<char>),
    Universal,
}

impl SelectorShape {
    /// How the selector is written.
    pub open spec fn text(self) -> Seq<char> {
        match self {
            SelectorShape::Tag(w) => w,
            SelectorShape::Id(w) => seq!['#'] + w,
            SelectorShape::Class(w) => seq!['.'] + w,
            SelectorShape::Universal => seq!['*'],
        }
    }

    /// The name in the selector is a word.
    pub open spec fn is_well_formed(self) -> bool {
        match self {
            SelectorShape::Tag(w) => is_word(w),
            SelectorShape::Id(w) => is_word(w),
            SelectorShape::Class(w) => is_word(w),
            SelectorShape::Universal => true,
        }
    }

    /// The selector that the text describes.
    pub open spec fn view(self) -> SelectorView {
        SelectorView::Simple(
            match self {
                SelectorShape::Tag(w) => SimpleSelectorView {
                    tag_name: Some(w),
                    ..empty_selector()
                },
                SelectorShape::Id(w) => SimpleSelectorView { id: Some(w), ..empty_selector() },
                SelectorShape::Class(w) => SimpleSelectorView {
                    classes: seq![w],
                    ..empty_selector()
                },
                SelectorShape::Universal => SimpleSelectorView {
                    universal: true,
                    ..empty_selector()
                },
            },
        )
    }
}

/// A value as it can be written in one piece: a keyword, a number with a
/// unit, a percentage, a hex colour, or a quoted string.
pub enum ValueShape {
    Keyword(Seq<char>),
    Length(Seq<char>, Seq<char>),
    Percentage(Seq<char>),
    Hex(Seq<char>),
    Quoted(char, Seq<char>),
}

/// One or more of the characters that numbers are scanned from.
pub open spec fn is_number_text(n: Seq<char>) -> bool {
    &&& n.len() > 0
    &&& forall|i: int| 0 <= i < n.len() ==> is_numeric_char(#[trigger] n[i])
}

/// Identifier characters, the first of which cannot continue a number.
pub open spec fn is_unit_text(u: Seq<char>) -> bool {
    &&& forall|i: int| 0 <= i < u.len() ==> is_identifier_char(#[trigger] u[i])
    &&& u.len() > 0 ==> !is_numeric_char(u[0])
}

impl ValueShape {
    /// How the value is written.
    pub open spec fn text(self) -> Seq<char> {
        match self {
            ValueShape::Keyword(w) => w,
            ValueShape::Length(n, u) => n + u,
            ValueShape::Percentage(n) => n + seq!['%'],
            ValueShape::Hex(d) => seq!['#'] + d,
            ValueShape::Quoted(q, body) => seq![q] + body + seq![q],
        }
    }

    /// A keyword is a word that does not start like a number; a number is
    /// made of numeric characters and its unit of identifier characters; a
    /// colour is made of hex digits; a string holds no quote of its own kind.
    pub open spec fn is_well_formed(self) -> bool {
        match self {
            ValueShape::Keyword(w) => is_word(w) && !is_numeric_char(w[0]),
            ValueShape::Length(n, u) => is_number_text(n) && is_unit_text(u),
            ValueShape::Percentage(n) => is_number_text(n),
            ValueShape::Hex(d) => forall|i: int| 0 <= i < d.len() ==> is_hex_digit(#[trigger] d[i]),
            ValueShape::Quoted(q, body) => (q == '"' || q == '\'') && forall|i: int|
                0 <= i < body.len() ==> #[trigger] body[i] != q,
        }
    }

    /// The value that the text describes.
    pub open spec fn view(self) -> ValueView {
        match self {
            ValueShape::Keyword(w) => ValueView::Keyword(w),
            ValueShape::Length(n, u) => ValueView::Length(n, unit_of(lowercase_of(u))),
            ValueShape::Percentage(n) => ValueView::Percentage(n),
            ValueShape::Hex(d) => hex_color(d),
            ValueShape::Quoted(q, body) => ValueView::String(body),
        }
    }
}

/// How a mark after a value is written: a blank, `!` and the word; nothing
/// where there is no mark.
pub open spec fn mark_text(mark: Option<Seq<char>>) -> Seq<char> {
    match mark {
        Some(w) => seq![' ', '!'] + w,
        None => Seq::empty(),
    }
}

/// Whether a mark makes a declaration important: its word is `important`,
/// compared without regard to case.
pub open spec fn is_important(mark: Option<Seq<char>>) -> bool {
    match mark {
        Some(w) => lowercase_of(w) == "important"@,
        None => false,
    }
}

/// A mark, if there is one, holds a word.
pub open spec fn is_mark(mark: Option<Seq<char>>) -> bool {
    mark is Some ==> is_word(mark->0)
}

/// The text `selector { property: value; }`, or with a mark
/// `selector { property: value !word; }`.
pub open spec fn single_rule_text(
    selector: SelectorShape,
    property: Seq<char>,
    value: ValueShape,
    mark: Option<Seq<char>>,
) -> Seq<char> {
    selector.text() + seq![' ', '{', ' '] + property + seq![':', ' '] + value.text() + mark_text(
        mark,
    ) + seq![';', ' ', '}']
}

/// The declaration that `property: value;` or `property: value !word;`
/// describes: its name is the property in lower case, and it is important
/// where the word is `important`.
pub open spec fn single_declaration(
    property: Seq<char>,
    value: ValueShape,
    mark: Option<Seq<char>>,
) -> DeclarationView {
    DeclarationView {
        name: lowercase_of(property),
        value: value.view(),
        important: is_important(mark),
    }
}

/// The rule that `selector { property: value; }` describes, with or without
/// a mark.
pub open spec fn single_rule(
    selector: SelectorShape,
    property: Seq<char>,
    value: ValueShape,
    mark: Option<Seq<char>>,
) -> RuleView {
    RuleView::Style(
        StyleRuleView {
            selectors: seq![selector.view()],
            declarations: seq![single_declaration(property, value, mark)],
        },
    )
}

/// The identifier read at `pos` is the word that stands there, if a
/// character that ends an identifier follows it.
pub proof fn lemma_word_run(s: Seq<char>, pos: int, w: Seq<char>)
    requires
        0 <= pos,
        pos + w.len() < s.len(),
        s.subrange(pos, pos + w.len()) == w,
        is_word(w),
        !is_identifier_char(s[pos + w.len()]),
    ensures
        run_len(s, pos, CharClass::Identifier) == w.len(),
        run_len(s, pos, CharClass::Whitespace) == 0,
{
    lemma_class_run(s, pos, w, CharClass::Identifier);
    assert(s[pos] == w[0]);
}

/// The run of `class` at `pos` is the text that stands there, if the text
/// is made of the class and a character outside the class follows it.
pub proof fn lemma_class_run(s: Seq<char>, pos: int, w: Seq<char>, class: CharClass)
    requires
        0 <= pos,
        pos + w.len() < s.len(),
        s.subrange(pos, pos + w.len()) == w,
        forall|i: int| 0 <= i < w.len() ==> class.contains(#[trigger] w[i]),
        !class.contains(s[pos + w.len()]),
    ensures
        run_len(s, pos, class) == w.len(),
{
    assert forall|i: int| pos <= i < pos + w.len() implies class.contains(#[trigger] s[i]) by {
        assert(s[i] == w[i - pos]);
    }
    lemma_run_len_exact(s, pos, class, w.len());
}

/// A selector written in one piece and followed by a space is read as the
/// selector it describes, to its end.
pub proof fn lemma_selector_shape(s: Seq<char>, c: Cursor, shape: SelectorShape)
    requires
        0 <= c.pos,
        c.pos + shape.text().len() < s.len(),
        s.subrange(c.pos, c.pos + shape.text().len()) == shape.text(),
        shape.is_well_formed(),
        s[c.pos + shape.text().len()] == ' ',
    ensures
        parse_selector(s, c).0 == Ok::<SelectorView, ParseError>(shape.view()),
        parse_selector(s, c).1.pos == c.pos + shape.text().len(),
        parse_selector(s, c).1.log == c.log,
        !is_whitespace_char(s[c.pos]),
        s[c.pos] != '@',
        s[c.pos] != '/',
{
    let text = shape.text();
    assert(s[c.pos] == text[0]);
    match shape {
        SelectorShape::Tag(w) => {
            lemma_word_run(s, c.pos, w);
            let c1 = run(s, c, CharClass::Identifier);
            let sel = SimpleSelectorView { tag_name: Some(w), ..empty_selector() };
            assert(run_text(s, c, CharClass::Identifier) == w);
            assert(selector_parts(s, c, empty_selector()) == selector_parts(s, c1, sel));
            assert(sel.names_something());
        },
        SelectorShape::Id(w) => {
            assert(s.subrange(c.pos + 1, c.pos + 1 + w.len()) =~= w) by {
                assert forall|i: int| 0 <= i < w.len() implies s[c.pos + 1 + i] == w[i] by {
                    assert(s[c.pos + 1 + i] == text[1 + i]);
                }
            }
            lemma_word_run(s, c.pos + 1, w);
            let c1 = step(c, 1);
            let c2 = run(s, c1, CharClass::Identifier);
            let sel = SimpleSelectorView { id: Some(w), ..empty_selector() };
            assert(run_text(s, c1, CharClass::Identifier) == w);
            assert(selector_parts(s, c, empty_selector()) == selector_parts(s, c2, sel));
            assert(sel.names_something());
        },
        SelectorShape::Class(w) => {
            assert(s.subrange(c.pos + 1, c.pos + 1 + w.len()) =~= w) by {
                assert forall|i: int| 0 <= i < w.len() implies s[c.pos + 1 + i] == w[i] by {
                    assert(s[c.pos + 1 + i] == text[1 + i]);
                }
            }
            lemma_word_run(s, c.pos + 1, w);
            let c1 = step(c, 1);
            let c2 = run(s, c1, CharClass::Identifier);
            let sel = SimpleSelectorView { classes: seq![w], ..empty_selector() };
            assert(run_text(s, c1, CharClass::Identifier) == w);
            assert(empty_selector().classes.push(w) =~= seq![w]);
            assert(selector_parts(s, c, empty_selector()) == selector_parts(s, c2, sel));
            assert(sel.names_something());
        },
        SelectorShape::Universal => {
            let c1 = step(c, 1);
            let sel = SimpleSelectorView { universal: true, ..empty_selector() };
            assert(selector_parts(s, c, empty_selector()) == selector_parts(s, c1, sel));
            assert(sel.names_something());
        },
    }
}

/// A value written in one piece and followed by `;` or a blank is read as
/// the value it describes, to its end.
pub proof fn lemma_value_shape(s: Seq<char>, c: Cursor, shape: ValueShape)
    requires
        0 <= c.pos,
        c.pos + shape.text().len() < s.len(),
        s.subrange(c.pos, c.pos + shape.text().len()) == shape.text(),
        shape.is_well_formed(),
        s[c.pos + shape.text().len()] == ';' || s[c.pos + shape.text().len()] == ' ',
    ensures
        value_item(s, c).0 == Some(shape.view()),
        value_item(s, c).1.pos == c.pos + shape.text().len(),
        value_item(s, c).1.log == c.log,
        !is_whitespace_char(s[c.pos]),
{
    let text = shape.text();
    let end = c.pos + text.len();
    assert(s[c.pos] == text[0]);
    match shape {
        ValueShape::Keyword(w) => {
            lemma_word_run(s, c.pos, w);
            assert(run_text(s, c, CharClass::Identifier) == w);
        },
        ValueShape::Length(n, u) => {
            assert(s.subrange(c.pos, c.pos + n.len()) =~= n) by {
                assert forall|i: int| 0 <= i < n.len() implies s[c.pos + i] == n[i] by {
                    assert(s[c.pos + i] == text[i]);
                }
            }
            assert(s.subrange(c.pos + n.len(), end) =~= u) by {
                assert forall|i: int| 0 <= i < u.len() implies s[c.pos + n.len() + i] == u[i] by {
                    assert(s[c.pos + n.len() + i] == text[n.len() + i]);
                }
            }
            if u.len() > 0 {
                assert(s[c.pos + n.len()] == u[0]);
            }
            lemma_class_run(s, c.pos, n, CharClass::Numeric);
            let c1 = run(s, c, CharClass::Numeric);
            lemma_class_run(s, c1.pos, u, CharClass::Identifier);
            assert(run_text(s, c, CharClass::Numeric) == n);
            assert(run_text(s, c1, CharClass::Identifier) == u);
            assert(parse_unit(s, c1).0 == unit_of(lowercase_of(u)));
        },
        ValueShape::Percentage(n) => {
            assert(s.subrange(c.pos, c.pos + n.len()) =~= n) by {
                assert forall|i: int| 0 <= i < n.len() implies s[c.pos + i] == n[i] by {
                    assert(s[c.pos + i] == text[i]);
                }
            }
            assert(s[c.pos + n.len()] == text[n.len() as int]);
            lemma_class_run(s, c.pos, n, CharClass::Numeric);
            assert(run_text(s, c, CharClass::Numeric) == n);
        },
        ValueShape::Hex(d) => {
            assert(s.subrange(c.pos + 1, end) =~= d) by {
                assert forall|i: int| 0 <= i < d.len() implies s[c.pos + 1 + i] == d[i] by {
                    assert(s[c.pos + 1 + i] == text[1 + i]);
                }
            }
            lemma_class_run(s, c.pos + 1, d, CharClass::HexDigit);
            assert(run_text(s, step(c, 1), CharClass::HexDigit) == d);
        },
        ValueShape::Quoted(q, body) => {
            assert(s.subrange(c.pos + 1, end - 1) =~= body) by {
                assert forall|i: int| 0 <= i < body.len() implies s[c.pos + 1 + i] == body[i] by {
                    assert(s[c.pos + 1 + i] == text[1 + i]);
                }
            }
            assert(s[end - 1] == text[text.len() - 1]);
            lemma_class_run(s, c.pos + 1, body, CharClass::Except(q));
            assert(run_text(s, step(c, 1), CharClass::Except(q)) == body);
        },
    }
}

/// `property: value;` and `property: value !word;` are read as the
/// declaration they describe, to the end of the `;`.
pub proof fn lemma_declaration_shape(
    s: Seq<char>,
    c: Cursor,
    property: Seq<char>,
    value: ValueShape,
    mark: Option<Seq<char>>,
)
    requires
        0 <= c.pos,
        c.pos + property.len() + 2 + value.text().len() + mark_text(mark).len() + 1 <= s.len(),
        s.subrange(c.pos, c.pos + property.len()) == property,
        s[c.pos + property.len()] == ':',
        s[c.pos + property.len() + 1] == ' ',
        s.subrange(
            c.pos + property.len() + 2,
            c.pos + property.len() + 2 + value.text().len(),
        ) == value.text(),
        s.subrange(
            c.pos + property.len() + 2 + value.text().len(),
            c.pos + property.len() + 2 + value.text().len() + mark_text(mark).len(),
        ) == mark_text(mark),
        s[c.pos + property.len() + 2 + value.text().len() + mark_text(mark).len()] == ';',
        is_word(property),
        value.is_well_formed(),
        is_mark(mark),
    ensures
        parse_declaration(s, c).0 == Ok::<DeclarationView, ParseError>(
            single_declaration(property, value, mark),
        ),
        parse_declaration(s, c).1.pos == c.pos + property.len() + 2 + value.text().len()
            + mark_text(mark).len() + 1,
        parse_declaration(s, c).1.log == c.log,
{
    let colon = c.pos + property.len();
    let start = colon + 2;
    let end = start + value.text().len();
    let semi = end + mark_text(mark).len();
    let v = value.view();
    let tail = s.subrange(end, semi);
    lemma_word_run(s, c.pos, property);
    lemma_run_len_exact(s, colon, CharClass::Whitespace, 0);
    lemma_run_len_exact(s, semi, CharClass::Whitespace, 0);
    lemma_run_len_exact(s, semi, CharClass::Identifier, 0);
    let c1 = run(s, c, CharClass::Identifier);
    let c2 = run(s, c1, CharClass::Whitespace);
    assert(c2.pos == colon);
    // where the value ends: at the `;`, or at the blank before the mark
    let bang = match mark {
        Some(w) => end + 1,
        None => end,
    };
    match mark {
        Some(w) => {
            assert(tail.len() == w.len() + 2);
            assert(s[end] == tail[0] && s[end + 1] == tail[1]);
            assert(s.subrange(end + 2, semi) =~= w) by {
                assert forall|i: int| 0 <= i < w.len() implies s[end + 2 + i] == w[i] by {
                    assert(s[end + 2 + i] == tail[2 + i]);
                }
            }
            lemma_run_len_exact(s, end, CharClass::Whitespace, 1);
            lemma_run_len_exact(s, bang, CharClass::Whitespace, 0);
            lemma_word_run(s, end + 2, w);
        },
        None => {},
    }
    lemma_value_shape(s, Cursor { pos: start, ..c }, value);
    lemma_run_len_exact(s, colon + 1, CharClass::Whitespace, 1);
    lemma_run_len_exact(s, start, CharClass::Whitespace, 0);
    let c3 = run(s, step(c2, 1), CharClass::Whitespace);
    assert(c3.pos == start);
    // the value
    let w = run(s, c3, CharClass::Whitespace);
    assert(w.pos == start);
    lemma_value_shape(s, w, value);
    let item = value_item(s, w);
    assert(item.0 == Some(v));
    assert(item.1.pos == end);
    let w2 = run(s, item.1, CharClass::Whitespace);
    assert(w2.pos == bang);
    assert(value_item(s, w2).0 is None);
    assert(value_item(s, w2).1 == w2);
    assert(value_seq(s, item.1, seq![v]) == (seq![v], w2));
    assert(Seq::<ValueView>::empty().push(v) == seq![v]);
    assert(value_seq(s, c3, Seq::empty()) == value_seq(s, item.1, seq![v]));
    assert(parse_value(s, c3).0 == v);
    assert(parse_value(s, c3).1 == w2);
    let c5 = run(s, w2, CharClass::Whitespace);
    assert(c5.pos == bang);
    match mark {
        Some(word) => {
            assert(run_text(s, step(c5, 1), CharClass::Identifier) == word);
            assert(importance(s, c5).0 == is_important(mark));
            assert(importance(s, c5).1.pos == semi);
        },
        None => {
            assert(importance(s, c5) == (false, c5));
        },
    }
    assert(run_text(s, c, CharClass::Identifier) == property);
}

/// Where `selector { property: value; }` stands at `at`, with or without a
/// mark after the value.
pub open spec fn single_rule_at(
    s: Seq<char>,
    at: int,
    selector: SelectorShape,
    property: Seq<char>,
    value: ValueShape,
    mark: Option<Seq<char>>,
) -> bool {
    let a = at + selector.text().len();
    let b = a + 3;
    let d = b + property.len();
    let e = d + 2;
    let m = e + value.text().len();
    let f = m + mark_text(mark).len();
    &&& 0 <= at
    &&& f + 3 <= s.len()
    &&& s.subrange(at, a) == selector.text()
    &&& s[a] == ' '
    &&& s[a + 1] == '{'
    &&& s[a + 2] == ' '
    &&& s.subrange(b, d) == property
    &&& s[d] == ':'
    &&& s[d + 1] == ' '
    &&& s.subrange(e, m) == value.text()
    &&& s.subrange(m, f) == mark_text(mark)
    &&& s[f] == ';'
    &&& s[f + 1] == ' '
    &&& s[f + 2] == '}'
}

/// The length of the text `selector { property: value; }`, with or without
/// a mark.
pub open spec fn single_rule_len(
    selector: SelectorShape,
    property: Seq<char>,
    value: ValueShape,
    mark: Option<Seq<char>>,
) -> nat {
    selector.text().len() + property.len() + value.text().len() + mark_text(mark).len() + 8
}

/// The selectors of `selector { ... }` are the one selector, read up to the
/// `{`.
pub proof fn lemma_single_selector(s: Seq<char>, c: Cursor, selector: SelectorShape)
    requires
        0 <= c.pos,
        c.pos + selector.text().len() + 1 < s.len(),
        s.subrange(c.pos, c.pos + selector.text().len()) == selector.text(),
        selector.is_well_formed(),
        s[c.pos + selector.text().len()] == ' ',
        s[c.pos + selector.text().len() + 1] == '{',
    ensures
        parse_selectors(s, c).0 == Ok::<Seq<SelectorView>, ParseError>(seq![selector.view()]),
        parse_selectors(s, c).1.pos == c.pos + selector.text().len() + 1,
        parse_selectors(s, c).1.log == c.log,
{
    lemma_selector_shape(s, c, selector);
    let sel = selector.view();
    let c1 = parse_selector(s, c).1;
    lemma_run_len_exact(s, c.pos + selector.text().len(), CharClass::Whitespace, 1);
    let c2 = run(s, c1, CharClass::Whitespace);
    assert(c2.pos == c.pos + selector.text().len() + 1);
    assert(Seq::<SelectorView>::empty().push(sel) == seq![sel]);
    assert(selector_list(s, c, Seq::empty()) == (seq![sel], c2));
}

/// The block `{ property: value; }` holds the one declaration.
pub proof fn lemma_single_declaration_block(
    s: Seq<char>,
    c: Cursor,
    property: Seq<char>,
    value: ValueShape,
    mark: Option<Seq<char>>,
)
    requires
        0 <= c.pos,
        c.pos + property.len() + value.text().len() + mark_text(mark).len() + 7 <= s.len(),
        s[c.pos] == '{',
        s[c.pos + 1] == ' ',
        s.subrange(c.pos + 2, c.pos + 2 + property.len()) == property,
        s[c.pos + 2 + property.len()] == ':',
        s[c.pos + 3 + property.len()] == ' ',
        s.subrange(
            c.pos + 4 + property.len(),
            c.pos + 4 + property.len() + value.text().len(),
        ) == value.text(),
        s.subrange(
            c.pos + 4 + property.len() + value.text().len(),
            c.pos + 4 + property.len() + value.text().len() + mark_text(mark).len(),
        ) == mark_text(mark),
        s[c.pos + 4 + property.len() + value.text().len() + mark_text(mark).len()] == ';',
        s[c.pos + 5 + property.len() + value.text().len() + mark_text(mark).len()] == ' ',
        s[c.pos + 6 + property.len() + value.text().len() + mark_text(mark).len()] == '}',
        is_word(property),
        value.is_well_formed(),
        is_mark(mark),
    ensures
        parse_declarations(s, c).0 == Ok::<Seq<DeclarationView>, ParseError>(
            seq![single_declaration(property, value, mark)],
        ),
        parse_declarations(s, c).1.pos == c.pos + property.len() + value.text().len()
            + mark_text(mark).len() + 7,
        parse_declarations(s, c).1.log == c.log,
{
    let b = c.pos + 2;
    let f = b + property.len() + 2 + value.text().len() + mark_text(mark).len();
    let d0 = step(c, 1);
    assert(s[b] == property[0]);
    lemma_run_len_exact(s, c.pos + 1, CharClass::Whitespace, 1);
    lemma_word_run(s, b, property);
    let d1 = skip_trivia(s, d0);
    assert(d1.pos == b);
    lemma_declaration_shape(s, d1, property, value, mark);
    let decl = single_declaration(property, value, mark);
    let d2 = parse_declaration(s, d1).1;
    assert(d2.pos == f + 1);
    lemma_run_len_exact(s, f + 1, CharClass::Whitespace, 1);
    let d3 = skip_trivia(s, d2);
    assert(d3.pos == f + 2);
    assert(declaration_seq(s, d2, seq![decl]) == (seq![decl], step(d3, 1)));
    assert(Seq::<DeclarationView>::empty().push(decl) == seq![decl]);
    assert(declaration_seq(s, d0, Seq::empty()) == declaration_seq(s, d2, seq![decl]));
}

/// Where `selector { property: value; }` stands at the cursor, it is read
/// as the rule it describes, to its end.
pub proof fn lemma_single_rule_at(
    s: Seq<char>,
    c: Cursor,
    selector: SelectorShape,
    property: Seq<char>,
    value: ValueShape,
    mark: Option<Seq<char>>,
)
    requires
        single_rule_at(s, c.pos, selector, property, value, mark),
        selector.is_well_formed(),
        is_word(property),
        value.is_well_formed(),
        is_mark(mark),
    ensures
        parse_rule(s, c).0 == Ok::<RuleView, ParseError>(
            single_rule(selector, property, value, mark),
        ),
        parse_rule(s, c).1.pos == c.pos + single_rule_len(selector, property, value, mark),
        parse_rule(s, c).1.log == c.log,
{
    lemma_single_selector(s, c, selector);
    lemma_single_declaration_block(s, parse_selectors(s, c).1, property, value, mark);
}

/// A text that is one rule `selector { property: value; }` from its first
/// character to its last parses to that rule alone.
pub proof fn lemma_sheet_of_single_rule(
    s: Seq<char>,
    selector: SelectorShape,
    property: Seq<char>,
    value: ValueShape,
    mark: Option<Seq<char>>,
)
    requires
        single_rule_at(s, 0, selector, property, value, mark),
        s.len() == single_rule_len(selector, property, value, mark),
        selector.is_well_formed(),
        is_word(property),
        value.is_well_formed(),
        is_mark(mark),
    ensures
        parse_stylesheet(s) == seq![single_rule(selector, property, value, mark)],
        parse_failures(s) == Seq::<DiagnosticView>::empty(),
{
    let c0 = start();
    lemma_selector_shape(s, c0, selector);
    lemma_run_len_exact(s, 0, CharClass::Whitespace, 0);
    let t0 = skip_trivia(s, c0);
    assert(t0.pos == 0);
    lemma_single_rule_at(s, t0, selector, property, value, mark);
    let rule = single_rule(selector, property, value, mark);
    let c1 = parse_rule(s, t0).1;
    assert(c1.pos == s.len());
    assert(top_level_rule(s, t0) == parse_rule(s, t0));
    assert(Seq::<RuleView>::empty().push(rule) == seq![rule]);
    assert(sheet_seq(s, c1, seq![rule], 0) == (seq![rule], c1));
    assert(sheet_seq(s, c0, Seq::empty(), 0) == sheet_seq(s, c1, seq![rule], 0));
}

/// Every text of the form `selector { property: value; }` or
/// `selector { property: value !word; }` parses to exactly one style rule,
/// with that one selector and that one declaration, and without a recovery. The declaration's name
/// is the property in lower case, its value is the one value written, and it
/// is important exactly where the word after `!` is `important`, in any
/// case. The selector is a tag name, an id, a class or `*`; the property is
/// a word; the value is a keyword, a number with a unit, a percentage, a hex
/// colour or a quoted string.
pub proof fn lemma_single_rule_parses(
    selector: SelectorShape,
    property: Seq<char>,
    value: ValueShape,
    mark: Option<Seq<char>>,
)
    requires
        selector.is_well_formed(),
        is_word(property),
        value.is_well_formed(),
        is_mark(mark),
    ensures
        parse_stylesheet(single_rule_text(selector, property, value, mark)) == seq![
            single_rule(selector, property, value, mark),
        ],
        parse_failures(single_rule_text(selector, property, value, mark)) == Seq::<
            DiagnosticView,
        >::empty(),
{
    let s = single_rule_text(selector, property, value, mark);
    let a = selector.text().len() as int;
    let b = a + 3;
    let d = b + property.len();
    let e = d + 2;
    let m = e + value.text().len();
    let f = m + mark_text(mark).len();
    let opened = selector.text() + seq![' ', '{', ' '];
    let named = opened + property;
    let colon = named + seq![':', ' '];
    let valued = colon + value.text();
    let marked = valued + mark_text(mark);
    assert(s == marked + seq![';', ' ', '}']);
    assert(opened.len() == b && named.len() == d && colon.len() == e && valued.len() == m
        && marked.len() == f);
    assert(s.len() == f + 3);
    assert(s.subrange(0, a) =~= selector.text());
    assert(s[a] == opened[a] && s[a + 1] == opened[a + 1] && s[a + 2] == opened[a + 2]);
    assert(s.subrange(b, d) =~= property);
    assert(s[d] == colon[d] && s[d + 1] == colon[d + 1]);
    assert(s.subrange(e, m) =~= value.text());
    assert(s.subrange(m, f) =~= mark_text(mark));
    lemma_sheet_of_single_rule(s, selector, property, value, mark);
}

} // verus!
