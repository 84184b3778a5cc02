//! The grammar of stylesheets, written as functions on a text and a cursor.
//!
//! Each function here says what the parser method of the same name reads from
//! the text at a cursor and where it leaves the cursor. A loop that reads items
//! stops as soon as an item consumes nothing, so every function is total.

use vstd::prelude::*;
use crate::css::rules::{
    AttributeOperator,
    AttributeSelectorView,
    DeclarationView,
    KeyframeView,
    RuleView,
    SelectorView,
    SimpleSelectorView,
    StyleRuleView,
};
use crate::css::values::{Color, Unit, ValueView};
use crate::text::{
    CharClass,
    byte_len,
    hex_value,
    is_identifier_char,
    is_numeric_char,
    lowercase_of,
    run_len,
    trimmed,
};

verus! {

/// Ceiling on the bytes a parse may run through before it gives up.
pub const MAX_MEMORY_BYTES: usize = 10485760;

/// Number of rule-level failures in a row after which a parse gives up.
pub const MAX_CONSECUTIVE_ERRORS: usize = 10;

/// Why a piece of a stylesheet could not be parsed.
#[derive(Debug, Clone, Copy, PartialEq, Eq, Structural)]
pub enum ParseError {
    UnclosedBlock,
    MemoryLimitExceeded,
    NoValidSelectors,
    EmptySelector,
    InvalidAttributeSelector,
    ExpectedOpenBrace,
    EmptyPropertyName,
    ExpectedColon,
    EmptyMediaQuery,
    UnsupportedAtRule,
    ExpectedCharacter,
    InvalidKeyframeSelector,
}

impl ParseError {
    /// The message that describes the error.
    pub open spec fn text(self) -> Seq<char> {
        match self {
            ParseError::UnclosedBlock => "Unclosed block"@,
            ParseError::MemoryLimitExceeded => "Memory limit exceeded"@,
            ParseError::NoValidSelectors => "No valid selectors found"@,
            ParseError::EmptySelector => "Empty selector"@,
            ParseError::InvalidAttributeSelector => "Invalid attribute selector"@,
            ParseError::ExpectedOpenBrace => "Expected '{' for declarations block"@,
            ParseError::EmptyPropertyName => "Empty property name"@,
            ParseError::ExpectedColon => "Expected ':' after property name"@,
            ParseError::EmptyMediaQuery => "Empty media query"@,
            ParseError::UnsupportedAtRule => "Skipped unsupported at-rule"@,
            ParseError::ExpectedCharacter => "Expected character not found"@,
            ParseError::InvalidKeyframeSelector => "Invalid keyframe selector"@,
        }
    }

    pub fn message(&self) -> (m: &'static str)
        ensures
            m@ == self.text(),
    {
        match self {
            ParseError::UnclosedBlock => "Unclosed block",
            ParseError::MemoryLimitExceeded => "Memory limit exceeded",
            ParseError::NoValidSelectors => "No valid selectors found",
            ParseError::EmptySelector => "Empty selector",
            ParseError::InvalidAttributeSelector => "Invalid attribute selector",
            ParseError::ExpectedOpenBrace => "Expected '{' for declarations block",
            ParseError::EmptyPropertyName => "Empty property name",
            ParseError::ExpectedColon => "Expected ':' after property name",
            ParseError::EmptyMediaQuery => "Empty media query",
            ParseError::UnsupportedAtRule => "Skipped unsupported at-rule",
            ParseError::ExpectedCharacter => "Expected character not found",
            ParseError::InvalidKeyframeSelector => "Invalid keyframe selector",
        }
    }
}

/// What a parser was reading when it had to recover.
#[derive(Debug, Clone, Copy, PartialEq, Eq, Structural)]
pub enum Level {
    /// A selector was skipped within a selector list.
    Selector,
    /// A declaration was skipped within a block.
    Declaration,
    /// A style rule was skipped, at the top level or in a nested block.
    Rule,
    /// An at-rule at the top level was given up or passed over.
    AtRule,
}

/// A record of one recovery: what failed, why, and the byte offset at which
/// the parser stood when it gave the piece up, before it skipped ahead.
#[derive(Debug, Clone, Copy, PartialEq, Eq, Structural)]
pub struct Diagnostic {
    pub level: Level,
    pub error: ParseError,
    pub position: usize,
}

/// The mathematical counterpart of [`Diagnostic`].
pub struct DiagnosticView {
    pub level: Level,
    pub error: ParseError,
    pub position: nat,
}

impl View for Diagnostic {
    type V = DiagnosticView;

    open spec fn view(&self) -> DiagnosticView {
        DiagnosticView { level: self.level, error: self.error, position: self.position as nat }
    }
}

/// The models of a sequence of diagnostics, in order.
pub open spec fn diagnostic_views(v: Seq<Diagnostic>) -> Seq<DiagnosticView> {
    v.map_values(|d: Diagnostic| d@)
}

/// Where a scan stands: `pos` counts the characters behind it, `used` the
/// bytes that runs have consumed so far, and `log` holds the recoveries made
/// so far, oldest first.
pub struct Cursor {
    pub pos: int,
    pub used: nat,
    pub log: Seq<DiagnosticView>,
}

/// The cursor at the start of a text, with nothing consumed or recorded.
pub open spec fn start() -> Cursor {
    Cursor { pos: 0, used: 0, log: Seq::empty() }
}

/// The character at `pos`, or NUL past the end of the text.
pub open spec fn char_at(s: Seq<char>, pos: int) -> char {
    if 0 <= pos < s.len() {
        s[pos]
    } else {
        '\0'
    }
}

pub open spec fn at_end(s: Seq<char>, c: Cursor) -> bool {
    c.pos >= s.len()
}

/// Number of characters between the cursor and the end of the text.
pub open spec fn remaining(s: Seq<char>, c: Cursor) -> nat {
    if c.pos < s.len() {
        (s.len() - c.pos) as nat
    } else {
        0
    }
}

/// The cursor after consuming `n` single characters.
pub open spec fn step(c: Cursor, n: int) -> Cursor {
    Cursor { pos: c.pos + n, ..c }
}

/// The byte offset of the character position `pos` in the text.
pub open spec fn byte_offset(s: Seq<char>, pos: int) -> nat {
    byte_len(s.take(pos))
}

/// The cursor with one more recovery recorded: `error` at `level`, at the
/// byte offset where the cursor stands.
#[verifier::opaque]
pub open spec fn logged(s: Seq<char>, c: Cursor, level: Level, error: ParseError) -> Cursor {
    Cursor {
        log: c.log.push(DiagnosticView { level, error, position: byte_offset(s, c.pos) }),
        ..c
    }
}

/// The text of the run of `class` that starts at the cursor.
pub open spec fn run_text(s: Seq<char>, c: Cursor, class: CharClass) -> Seq<char> {
    s.subrange(c.pos, c.pos + run_len(s, c.pos, class))
}

/// The cursor after the run of `class` that starts at it; the run's bytes are
/// added to the byte counter.
pub open spec fn run(s: Seq<char>, c: Cursor, class: CharClass) -> Cursor {
    Cursor {
        pos: c.pos + run_len(s, c.pos, class),
        used: c.used + byte_len(run_text(s, c, class)),
        log: c.log,
    }
}

/// The cursor after a comment's closing `*/`, from a cursor inside the
/// comment; the end of the text if the comment is never closed.
pub open spec fn comment_end(s: Seq<char>, c: Cursor) -> Cursor
    decreases remaining(s, c),
{
    let c1 = run(s, c, CharClass::Except('*'));
    if at_end(s, c1) {
        c1
    } else if char_at(s, c1.pos + 1) == '/' {
        step(c1, 2)
    } else {
        comment_end(s, step(c1, 1))
    }
}

/// The cursor after the comment whose `/*` starts at the cursor.
pub open spec fn skip_comment(s: Seq<char>, c: Cursor) -> Cursor {
    comment_end(s, step(c, 2))
}

/// The cursor after all whitespace and comments that start at it.
pub open spec fn skip_trivia(s: Seq<char>, c: Cursor) -> Cursor
    decreases remaining(s, c),
{
    let c1 = run(s, c, CharClass::Whitespace);
    if char_at(s, c1.pos) == '/' && char_at(s, c1.pos + 1) == '*' {
        let c2 = skip_comment(s, c1);
        if c2.pos <= c1.pos {
            c2
        } else {
            skip_trivia(s, c2)
        }
    } else {
        c1
    }
}

/// The unit that a lower-cased unit token stands for. Tokens outside the
/// table, the empty token among them, fall back to pixels.
pub open spec fn unit_of(lower: Seq<char>) -> Unit {
    if lower == "px"@ {
        Unit::Px
    } else if lower == "em"@ {
        Unit::Em
    } else if lower == "rem"@ {
        Unit::Rem
    } else if lower == "%"@ {
        Unit::Percent
    } else if lower == "deg"@ {
        Unit::Deg
    } else if lower == "rad"@ {
        Unit::Rad
    } else if lower == "turn"@ {
        Unit::Turn
    } else if lower == "s"@ {
        Unit::S
    } else if lower == "ms"@ {
        Unit::Ms
    } else if lower == "hz"@ {
        Unit::Hz
    } else if lower == "dpi"@ {
        Unit::Dpi
    } else {
        Unit::Px
    }
}

/// The unit named by the identifier at the cursor, compared without regard
/// to case.
pub open spec fn parse_unit(s: Seq<char>, c: Cursor) -> (Unit, Cursor) {
    (unit_of(lowercase_of(run_text(s, c, CharClass::Identifier))), run(s, c, CharClass::Identifier))
}

/// The byte written by two hexadecimal digits.
pub open spec fn hex_pair(hi: char, lo: char) -> u8 {
    (hex_value(hi) * 16 + hex_value(lo)) as u8
}

/// The value of the hexadecimal digits after a `#`: three or four digits are
/// doubled one by one, six or eight are read in pairs, a missing alpha is
/// opaque, and any other count gives the keyword `transparent`.
pub open spec fn hex_color(hex: Seq<char>) -> ValueView {
    if hex.len() == 3 {
        ValueView::Color(
            Color {
                r: hex_pair(hex[0], hex[0]),
                g: hex_pair(hex[1], hex[1]),
                b: hex_pair(hex[2], hex[2]),
                a: 255,
            },
        )
    } else if hex.len() == 4 {
        ValueView::Color(
            Color {
                r: hex_pair(hex[0], hex[0]),
                g: hex_pair(hex[1], hex[1]),
                b: hex_pair(hex[2], hex[2]),
                a: hex_pair(hex[3], hex[3]),
            },
        )
    } else if hex.len() == 6 {
        ValueView::Color(
            Color {
                r: hex_pair(hex[0], hex[1]),
                g: hex_pair(hex[2], hex[3]),
                b: hex_pair(hex[4], hex[5]),
                a: 255,
            },
        )
    } else if hex.len() == 8 {
        ValueView::Color(
            Color {
                r: hex_pair(hex[0], hex[1]),
                g: hex_pair(hex[2], hex[3]),
                b: hex_pair(hex[4], hex[5]),
                a: hex_pair(hex[6], hex[7]),
            },
        )
    } else {
        ValueView::Keyword("transparent"@)
    }
}

/// The colour written at the cursor, which stands on a `#`.
pub open spec fn parse_color(s: Seq<char>, c: Cursor) -> (ValueView, Cursor) {
    let c1 = step(c, 1);
    (hex_color(run_text(s, c1, CharClass::HexDigit)), run(s, c1, CharClass::HexDigit))
}

/// The quoted string whose opening quote is at the cursor. It ends at the
/// next occurrence of the same quote, which is consumed, or at the end of the
/// text.
pub open spec fn parse_quoted(s: Seq<char>, c: Cursor) -> (Seq<char>, Cursor) {
    let quote = char_at(s, c.pos);
    let c1 = step(c, 1);
    let c2 = run(s, c1, CharClass::Except(quote));
    (
        run_text(s, c1, CharClass::Except(quote)),
        if at_end(s, c2) {
            c2
        } else {
            step(c2, 1)
        },
    )
}

/// One value at the cursor, by its first character: a number with a unit or
/// a percent sign, a hex colour, a quoted string, a function call, or a
/// keyword. `None` where no value starts: at `;`, `!`, `}`, and at any
/// character that cannot begin an identifier.
pub open spec fn value_item(s: Seq<char>, c: Cursor) -> (Option<ValueView>, Cursor)
    decreases remaining(s, c), 0nat,
{
    let ch = char_at(s, c.pos);
    if ch == ';' || ch == '!' || ch == '}' {
        (None, c)
    } else if is_numeric_char(ch) {
        let number = run_text(s, c, CharClass::Numeric);
        let c1 = run(s, c, CharClass::Numeric);
        if char_at(s, c1.pos) == '%' {
            (Some(ValueView::Percentage(number)), step(c1, 1))
        } else {
            (Some(ValueView::Length(number, parse_unit(s, c1).0)), parse_unit(s, c1).1)
        }
    } else if ch == '#' {
        (Some(parse_color(s, c).0), parse_color(s, c).1)
    } else if ch == '"' || ch == '\'' {
        (Some(ValueView::String(parse_quoted(s, c).0)), parse_quoted(s, c).1)
    } else {
        let name = run_text(s, c, CharClass::Identifier);
        let c1 = run(s, c, CharClass::Identifier);
        if name.len() == 0 {
            (None, c1)
        } else if char_at(s, c1.pos) == '(' {
            let (args, c2) = value_list(s, step(c1, 1), ')', Seq::empty());
            (Some(ValueView::Function(name, args)), c2)
        } else {
            (Some(ValueView::Keyword(name)), c1)
        }
    }
}

/// The values read from the cursor on, each after optional whitespace, added
/// to `acc`; reading stops at the end of the text and where no value starts.
pub open spec fn value_seq(s: Seq<char>, c: Cursor, acc: Seq<ValueView>) -> (
    Seq<ValueView>,
    Cursor,
)
    decreases remaining(s, c), 1nat,
{
    if at_end(s, c) {
        (acc, c)
    } else {
        let c1 = run(s, c, CharClass::Whitespace);
        let (item, c2) = value_item(s, c1);
        match item {
            None => (acc, c2),
            Some(v) => if c2.pos <= c.pos {
                (acc.push(v), c2)
            } else {
                value_seq(s, c2, acc.push(v))
            },
        }
    }
}

/// A single value stands for itself; none or several make a list.
pub open spec fn fold_values(items: Seq<ValueView>) -> ValueView {
    if items.len() == 1 {
        items[0]
    } else {
        ValueView::List(items)
    }
}

/// The value of a declaration or of one function argument.
pub open spec fn parse_value(s: Seq<char>, c: Cursor) -> (ValueView, Cursor)
    decreases remaining(s, c), 2nat,
{
    (fold_values(value_seq(s, c, Seq::empty()).0), value_seq(s, c, Seq::empty()).1)
}

/// The arguments of a function call, from just after its `(`, added to `acc`:
/// values separated by commas or whitespace, up to `end`, which is consumed.
/// The list also ends at the end of the text and before an argument that
/// consumes nothing.
pub open spec fn value_list(s: Seq<char>, c: Cursor, end: char, acc: Seq<ValueView>) -> (
    Seq<ValueView>,
    Cursor,
)
    decreases remaining(s, c), 3nat,
{
    if at_end(s, c) {
        (acc, c)
    } else {
        let c1 = run(s, c, CharClass::Whitespace);
        if !at_end(s, c1) && char_at(s, c1.pos) == end {
            (acc, step(c1, 1))
        } else if char_at(s, c1.pos) == ',' {
            value_list(s, run(s, step(c1, 1), CharClass::Whitespace), end, acc)
        } else {
            let (v, c2) = parse_value(s, c1);
            if c2.pos <= c1.pos {
                (acc, c2)
            } else {
                value_list(s, c2, end, acc.push(v))
            }
        }
    }
}

/// The cursor just after the next `end`, or the end of the text if there is
/// none.
pub open spec fn skip_to_char(s: Seq<char>, c: Cursor, end: char) -> Cursor {
    let c1 = run(s, c, CharClass::Except(end));
    if at_end(s, c1) {
        c1
    } else {
        step(c1, 1)
    }
}

/// The cursor just after the next `,`, or on the next `{`, whichever comes
/// first; the end of the text if neither comes.
pub open spec fn skip_to_next_selector(s: Seq<char>, c: Cursor) -> Cursor {
    let c1 = run(s, c, CharClass::ExceptTwo(',', '{'));
    if char_at(s, c1.pos) == ',' {
        step(c1, 1)
    } else {
        c1
    }
}

/// The cursor just after the next `;`, or on the next `}`, whichever comes
/// first; the end of the text if neither comes.
pub open spec fn skip_to_next_declaration(s: Seq<char>, c: Cursor) -> Cursor {
    let c1 = run(s, c, CharClass::ExceptTwo(';', '}'));
    if char_at(s, c1.pos) == ';' {
        step(c1, 1)
    } else {
        c1
    }
}

/// The operator that the characters before `=` spell, if they spell one.
pub open spec fn operator_of(ops: Seq<char>) -> Option<AttributeOperator> {
    if ops.len() != 1 {
        None
    } else if ops[0] == '~' {
        Some(AttributeOperator::Includes)
    } else if ops[0] == '|' {
        Some(AttributeOperator::DashMatch)
    } else if ops[0] == '^' {
        Some(AttributeOperator::Prefix)
    } else if ops[0] == '$' {
        Some(AttributeOperator::Suffix)
    } else if ops[0] == '*' {
        Some(AttributeOperator::Substring)
    } else {
        None
    }
}

/// The operator of an attribute selector: `=` alone, or a run of operator
/// characters followed by `=`. The `=` after such a run is consumed even
/// where the run spells no operator.
pub open spec fn attribute_operator(s: Seq<char>, c: Cursor) -> (
    Option<AttributeOperator>,
    Cursor,
) {
    if char_at(s, c.pos) == '=' {
        (Some(AttributeOperator::Equal), step(c, 1))
    } else {
        let ops = run_text(s, c, CharClass::Operator);
        let c1 = run(s, c, CharClass::Operator);
        if ops.len() > 0 && char_at(s, c1.pos) == '=' {
            (operator_of(ops), step(c1, 1))
        } else {
            (None, c1)
        }
    }
}

/// The value of an attribute selector: a quoted string or a bare identifier,
/// after optional whitespace.
pub open spec fn attribute_value(s: Seq<char>, c: Cursor) -> (Seq<char>, Cursor) {
    let c1 = run(s, c, CharClass::Whitespace);
    let quote = char_at(s, c1.pos);
    if quote == '\'' || quote == '"' {
        parse_quoted(s, c1)
    } else {
        (run_text(s, c1, CharClass::Identifier), run(s, c1, CharClass::Identifier))
    }
}

/// The attribute selector whose name starts at the cursor, just after `[`.
/// A value is read only after an operator. Without the closing `]` the
/// selector is an error and the cursor moves past the next `]`.
pub open spec fn parse_attribute_selector(s: Seq<char>, c: Cursor) -> (
    Result<AttributeSelectorView, ParseError>,
    Cursor,
) {
    let name = run_text(s, c, CharClass::Identifier);
    let c1 = run(s, run(s, c, CharClass::Identifier), CharClass::Whitespace);
    if char_at(s, c1.pos) == ']' {
        (Ok(AttributeSelectorView { name, op: None, value: None }), step(c1, 1))
    } else {
        let (op, c2) = attribute_operator(s, c1);
        let (value, c3) = if op is Some {
            (Some(attribute_value(s, c2).0), attribute_value(s, c2).1)
        } else {
            (None, c2)
        };
        let c4 = run(s, c3, CharClass::Whitespace);
        if char_at(s, c4.pos) == ']' {
            (Ok(AttributeSelectorView { name, op, value }), step(c4, 1))
        } else {
            (Err(ParseError::InvalidAttributeSelector), skip_to_char(s, c4, ']'))
        }
    }
}

/// The selector that names nothing.
pub open spec fn empty_selector() -> SimpleSelectorView {
    SimpleSelectorView {
        tag_name: None,
        id: None,
        classes: Seq::empty(),
        attributes: Seq::empty(),
        universal: false,
    }
}

/// A selector read to its end: an error if it names nothing.
pub open spec fn finish_selector(sel: SimpleSelectorView) -> Result<SelectorView, ParseError> {
    if sel.names_something() {
        Ok(SelectorView::Simple(sel))
    } else {
        Err(ParseError::EmptySelector)
    }
}

/// The parts of a simple selector from the cursor on, added to `sel`: `#id`,
/// `.class`, `*`, `[attribute]` and a tag name, in any order. A later id
/// replaces an earlier one; a second tag name ends the selector, as does any
/// other character. A bad attribute selector fails the whole selector.
pub open spec fn selector_parts(s: Seq<char>, c: Cursor, sel: SimpleSelectorView) -> (
    Result<SelectorView, ParseError>,
    Cursor,
)
    decreases remaining(s, c),
{
    let ch = char_at(s, c.pos);
    if at_end(s, c) {
        (finish_selector(sel), c)
    } else if ch == '#' {
        let c1 = step(c, 1);
        selector_parts(
            s,
            run(s, c1, CharClass::Identifier),
            SimpleSelectorView { id: Some(run_text(s, c1, CharClass::Identifier)), ..sel },
        )
    } else if ch == '.' {
        let c1 = step(c, 1);
        selector_parts(
            s,
            run(s, c1, CharClass::Identifier),
            SimpleSelectorView {
                classes: sel.classes.push(run_text(s, c1, CharClass::Identifier)),
                ..sel
            },
        )
    } else if ch == '*' {
        selector_parts(s, step(c, 1), SimpleSelectorView { universal: true, ..sel })
    } else if ch == '[' {
        let (r, c1) = parse_attribute_selector(s, step(c, 1));
        match r {
            Err(e) => (Err(e), c1),
            Ok(attribute) => if remaining(s, c1) < remaining(s, c) {
                selector_parts(
                    s,
                    c1,
                    SimpleSelectorView { attributes: sel.attributes.push(attribute), ..sel },
                )
            } else {
                (Err(ParseError::InvalidAttributeSelector), c1)
            },
        }
    } else if is_identifier_char(ch) && sel.tag_name is None {
        selector_parts(
            s,
            run(s, c, CharClass::Identifier),
            SimpleSelectorView { tag_name: Some(run_text(s, c, CharClass::Identifier)), ..sel },
        )
    } else {
        (finish_selector(sel), c)
    }
}

/// The simple selector at the cursor.
pub open spec fn parse_selector(s: Seq<char>, c: Cursor) -> (
    Result<SelectorView, ParseError>,
    Cursor,
) {
    selector_parts(s, c, empty_selector())
}

/// The selectors of a rule from the cursor on, added to `acc`, up to the `{`
/// that opens its block or the end of the text. After a selector a `,` is
/// consumed if it follows; a selector that fails is recorded and skipped up
/// to the next `,` or `{`.
pub open spec fn selector_list(s: Seq<char>, c: Cursor, acc: Seq<SelectorView>) -> (
    Seq<SelectorView>,
    Cursor,
)
    decreases remaining(s, c),
{
    if at_end(s, c) {
        (acc, c)
    } else {
        let (r, c1) = parse_selector(s, c);
        match r {
            Ok(selector) => {
                let c2 = run(s, c1, CharClass::Whitespace);
                let c3 = if char_at(s, c2.pos) == ',' {
                    run(s, step(c2, 1), CharClass::Whitespace)
                } else {
                    c2
                };
                if char_at(s, c2.pos) != '{' && remaining(s, c3) < remaining(s, c) {
                    selector_list(s, c3, acc.push(selector))
                } else {
                    (acc.push(selector), c3)
                }
            },
            Err(e) => {
                let c2 = skip_to_next_selector(s, logged(s, c1, Level::Selector, e));
                if char_at(s, c2.pos) != '{' && remaining(s, c2) < remaining(s, c) {
                    selector_list(s, c2, acc)
                } else {
                    (acc, c2)
                }
            },
        }
    }
}

/// The selectors of a rule; an error if none of them could be read.
pub open spec fn parse_selectors(s: Seq<char>, c: Cursor) -> (
    Result<Seq<SelectorView>, ParseError>,
    Cursor,
) {
    let (selectors, c1) = selector_list(s, c, Seq::empty());
    if selectors.len() == 0 {
        (Err(ParseError::NoValidSelectors), c1)
    } else {
        (Ok(selectors), c1)
    }
}

/// Whether a declaration is marked `!important`: a `!` followed by that
/// word, compared without regard to case. The `!` and the identifier after
/// it are consumed whatever the word.
pub open spec fn importance(s: Seq<char>, c: Cursor) -> (bool, Cursor) {
    if char_at(s, c.pos) == '!' {
        let c1 = step(c, 1);
        (
            lowercase_of(run_text(s, c1, CharClass::Identifier)) == "important"@,
            run(s, c1, CharClass::Identifier),
        )
    } else {
        (false, c)
    }
}

/// The declaration at the cursor: a property name, `:`, a value, an optional
/// `!important`, and an optional `;`. The declaration's name is the property
/// name in lower case. A missing name is an error that consumes nothing;
/// where the `:` is missing, the character found in its place is consumed.
pub open spec fn parse_declaration(s: Seq<char>, c: Cursor) -> (
    Result<DeclarationView, ParseError>,
    Cursor,
) {
    let name = run_text(s, c, CharClass::Identifier);
    let c1 = run(s, c, CharClass::Identifier);
    let c2 = run(s, c1, CharClass::Whitespace);
    if name.len() == 0 {
        (Err(ParseError::EmptyPropertyName), c1)
    } else if at_end(s, c2) {
        (Err(ParseError::ExpectedColon), c2)
    } else if char_at(s, c2.pos) != ':' {
        (Err(ParseError::ExpectedColon), step(c2, 1))
    } else {
        let c3 = run(s, step(c2, 1), CharClass::Whitespace);
        let (value, c4) = parse_value(s, c3);
        let (important, c5) = importance(s, run(s, c4, CharClass::Whitespace));
        (
            Ok(DeclarationView { name: lowercase_of(name), value, important }),
            if char_at(s, c5.pos) == ';' {
                step(c5, 1)
            } else {
                c5
            },
        )
    }
}

/// The declarations of a block from the cursor on, added to `acc`, up to and
/// including the closing `}`, or up to the end of the text. A declaration
/// that fails is recorded and skipped up to the next `;` or `}`.
pub open spec fn declaration_seq(s: Seq<char>, c: Cursor, acc: Seq<DeclarationView>) -> (
    Seq<DeclarationView>,
    Cursor,
)
    decreases remaining(s, c),
{
    let c1 = skip_trivia(s, c);
    if at_end(s, c1) {
        (acc, c1)
    } else if char_at(s, c1.pos) == '}' {
        (acc, step(c1, 1))
    } else {
        let (r, c2) = parse_declaration(s, c1);
        let (next, c3) = match r {
            Ok(declaration) => (acc.push(declaration), c2),
            Err(e) => (
                acc,
                skip_to_next_declaration(s, logged(s, c2, Level::Declaration, e)),
            ),
        };
        if remaining(s, c3) < remaining(s, c) {
            declaration_seq(s, c3, next)
        } else {
            (next, c3)
        }
    }
}

/// The declaration block at the cursor. It must open with `{`; any other
/// character is consumed and the block is an error.
pub open spec fn parse_declarations(s: Seq<char>, c: Cursor) -> (
    Result<Seq<DeclarationView>, ParseError>,
    Cursor,
) {
    if at_end(s, c) {
        (Err(ParseError::ExpectedOpenBrace), c)
    } else if char_at(s, c.pos) != '{' {
        (Err(ParseError::ExpectedOpenBrace), step(c, 1))
    } else {
        (
            Ok(declaration_seq(s, step(c, 1), Seq::empty()).0),
            declaration_seq(s, step(c, 1), Seq::empty()).1,
        )
    }
}

/// The style rule at the cursor: its selectors, then its declaration block.
pub open spec fn parse_rule(s: Seq<char>, c: Cursor) -> (Result<RuleView, ParseError>, Cursor) {
    match parse_selectors(s, c) {
        (Err(e), c1) => (Err(e), c1),
        (Ok(selectors), c1) => match parse_declarations(s, c1) {
            (Err(e), c2) => (Err(e), c2),
            (Ok(declarations), c2) => (
                Ok(RuleView::Style(StyleRuleView { selectors, declarations })),
                c2,
            ),
        },
    }
}

/// The cursor where parsing can resume after a rule failed, `depth` blocks
/// deep: on an `@` outside every block, or just after the `}` that closes
/// the outermost open block (or a stray `}`); the end of the text otherwise.
pub open spec fn resync(s: Seq<char>, c: Cursor, depth: nat) -> Cursor
    decreases remaining(s, c),
{
    let ch = char_at(s, c.pos);
    if at_end(s, c) {
        c
    } else if ch == '@' && depth == 0 {
        c
    } else if ch == '{' {
        resync(s, step(c, 1), depth + 1)
    } else if ch == '}' {
        if depth <= 1 {
            step(c, 1)
        } else {
            resync(s, step(c, 1), (depth - 1) as nat)
        }
    } else {
        resync(s, step(c, 1), depth)
    }
}

/// The cursor where parsing can resume after a rule failed at the cursor.
pub open spec fn skip_to_next_rule(s: Seq<char>, c: Cursor) -> Cursor {
    resync(s, c, 0)
}

/// The end of a block from a cursor `depth` blocks deep in it. Quoted
/// strings and comments are passed over whole, so braces inside them do not
/// count. An error if the text ends before the block does.
pub open spec fn block_end(s: Seq<char>, c: Cursor, depth: nat) -> (
    Result<(), ParseError>,
    Cursor,
)
    decreases remaining(s, c),
{
    let ch = char_at(s, c.pos);
    if depth == 0 {
        (Ok(()), c)
    } else if at_end(s, c) {
        (Err(ParseError::UnclosedBlock), c)
    } else if ch == '{' {
        block_end(s, step(c, 1), depth + 1)
    } else if ch == '}' {
        block_end(s, step(c, 1), (depth - 1) as nat)
    } else if ch == '"' || ch == '\'' {
        block_end(s, parse_quoted(s, c).1, depth)
    } else if ch == '/' && char_at(s, c.pos + 1) == '*' {
        let c1 = skip_comment(s, c);
        if remaining(s, c1) < remaining(s, c) {
            block_end(s, c1, depth)
        } else {
            (Err(ParseError::UnclosedBlock), c1)
        }
    } else {
        block_end(s, step(c, 1), depth)
    }
}

/// The cursor after the block whose `{` is at the cursor.
pub open spec fn skip_block(s: Seq<char>, c: Cursor) -> (Result<(), ParseError>, Cursor) {
    block_end(s, step(c, 1), 1)
}

/// Consumes `expected` if it stands at the cursor; an error otherwise.
pub open spec fn expect_char(s: Seq<char>, c: Cursor, expected: char) -> (
    Result<(), ParseError>,
    Cursor,
) {
    if !at_end(s, c) && char_at(s, c.pos) == expected {
        (Ok(()), step(c, 1))
    } else {
        (Err(ParseError::ExpectedCharacter), c)
    }
}

/// The style rules of a nested block from the cursor on, added to `acc`, up
/// to the `}` that closes the block or the end of the text. A rule that
/// fails is recorded and skipped as at the top level.
pub open spec fn rule_seq(s: Seq<char>, c: Cursor, acc: Seq<RuleView>) -> (Seq<RuleView>, Cursor)
    decreases remaining(s, c),
{
    if at_end(s, c) || char_at(s, c.pos) == '}' {
        (acc, c)
    } else {
        let (next, c1) = match parse_rule(s, c) {
            (Ok(rule), c1) => (acc.push(rule), c1),
            (Err(e), c1) => (acc, skip_to_next_rule(s, logged(s, c1, Level::Rule, e))),
        };
        let c2 = skip_trivia(s, c1);
        if remaining(s, c2) < remaining(s, c) {
            rule_seq(s, c2, next)
        } else {
            (next, c2)
        }
    }
}

/// The body of a nested block, from just after its `{` up to and including
/// its `}`; an error if the text ends first.
pub open spec fn parse_rules_block(s: Seq<char>, c: Cursor) -> (
    Result<Seq<RuleView>, ParseError>,
    Cursor,
) {
    let (rules, c1) = rule_seq(s, skip_trivia(s, c), Seq::empty());
    match expect_char(s, c1, '}') {
        (Ok(_), c2) => (Ok(rules), c2),
        (Err(e), c2) => (Err(e), c2),
    }
}

/// The selectors of one keyframe from the cursor on, added to `acc`: raw
/// text separated by commas, each trimmed, up to the `{` of the keyframe's
/// block. An error if the text ends first.
pub open spec fn keyframe_selectors(s: Seq<char>, c: Cursor, acc: Seq<Seq<char>>) -> (
    Result<Seq<Seq<char>>, ParseError>,
    Cursor,
)
    decreases remaining(s, c),
{
    let c1 = run(s, c, CharClass::Whitespace);
    let next = acc.push(trimmed(run_text(s, c1, CharClass::ExceptTwo(',', '{'))));
    let c2 = run(s, c1, CharClass::ExceptTwo(',', '{'));
    if char_at(s, c2.pos) == ',' {
        keyframe_selectors(s, step(c2, 1), next)
    } else if char_at(s, c2.pos) == '{' {
        (Ok(next), c2)
    } else {
        (Err(ParseError::InvalidKeyframeSelector), c2)
    }
}

/// The selectors of the keyframe at the cursor.
pub open spec fn parse_keyframe_selectors(s: Seq<char>, c: Cursor) -> (
    Result<Seq<Seq<char>>, ParseError>,
    Cursor,
) {
    keyframe_selectors(s, c, Seq::empty())
}

/// The keyframes of a block from the cursor on, added to `acc`, up to the
/// `}` that closes the block or the end of the text. The first keyframe
/// that fails fails them all.
pub open spec fn keyframe_seq(s: Seq<char>, c: Cursor, acc: Seq<KeyframeView>) -> (
    Result<Seq<KeyframeView>, ParseError>,
    Cursor,
)
    decreases remaining(s, c),
{
    if at_end(s, c) || char_at(s, c.pos) == '}' {
        (Ok(acc), c)
    } else {
        match parse_keyframe_selectors(s, c) {
            (Err(e), c1) => (Err(e), c1),
            (Ok(selectors), c1) => match parse_declarations(s, c1) {
                (Err(e), c2) => (Err(e), c2),
                (Ok(declarations), c2) => {
                    let c3 = skip_trivia(s, c2);
                    let next = acc.push(KeyframeView { selectors, declarations });
                    if remaining(s, c3) < remaining(s, c) {
                        keyframe_seq(s, c3, next)
                    } else {
                        (Ok(next), c3)
                    }
                },
            },
        }
    }
}

/// The body of a keyframes block, from just after its `{` up to and
/// including its `}`. Whitespace and comments may stand before each
/// keyframe and before the `}`.
pub open spec fn parse_keyframe_rules(s: Seq<char>, c: Cursor) -> (
    Result<Seq<KeyframeView>, ParseError>,
    Cursor,
) {
    match keyframe_seq(s, skip_trivia(s, c), Seq::empty()) {
        (Err(e), c1) => (Err(e), c1),
        (Ok(frames), c1) => match expect_char(s, c1, '}') {
            (Ok(_), c2) => (Ok(frames), c2),
            (Err(e), c2) => (Err(e), c2),
        },
    }
}

/// A media rule from just after `@media` and the whitespace behind it: the
/// query is the text up to `{`, trimmed, and must not be empty.
pub open spec fn media_rule(s: Seq<char>, c: Cursor) -> (Result<RuleView, ParseError>, Cursor) {
    let query = trimmed(run_text(s, c, CharClass::Except('{')));
    let c1 = run(s, c, CharClass::Except('{'));
    if query.len() == 0 {
        (Err(ParseError::EmptyMediaQuery), c1)
    } else {
        match expect_char(s, c1, '{') {
            (Err(e), c2) => (Err(e), c2),
            (Ok(_), c2) => match parse_rules_block(s, c2) {
                (Err(e), c3) => (Err(e), c3),
                (Ok(rules), c3) => (Ok(RuleView::Media { query, rules }), c3),
            },
        }
    }
}

/// A keyframes rule from just after `@keyframes` and the whitespace behind
/// it: a name, optional whitespace, then the block.
pub open spec fn keyframes_rule(s: Seq<char>, c: Cursor) -> (
    Result<RuleView, ParseError>,
    Cursor,
) {
    let name = run_text(s, c, CharClass::Identifier);
    match expect_char(
        s,
        run(s, run(s, c, CharClass::Identifier), CharClass::Whitespace),
        '{',
    ) {
        (Err(e), c1) => (Err(e), c1),
        (Ok(_), c1) => match parse_keyframe_rules(s, c1) {
            (Err(e), c2) => (Err(e), c2),
            (Ok(frames), c2) => (Ok(RuleView::Keyframes { name, frames }), c2),
        },
    }
}

/// An at-rule of a kind that is not parsed, from just after its name: it is
/// consumed up to and including its `;` or its block, and reported as an
/// error of its own.
pub open spec fn unsupported_at_rule(s: Seq<char>, c: Cursor) -> (
    Result<RuleView, ParseError>,
    Cursor,
) {
    let c1 = run(s, c, CharClass::ExceptTwo(';', '{'));
    if char_at(s, c1.pos) == '{' {
        match skip_block(s, c1) {
            (Err(e), c2) => (Err(e), c2),
            (Ok(_), c2) => (Err(ParseError::UnsupportedAtRule), c2),
        }
    } else if char_at(s, c1.pos) == ';' {
        (Err(ParseError::UnsupportedAtRule), step(c1, 1))
    } else {
        (Err(ParseError::UnsupportedAtRule), c1)
    }
}

/// The cursor after the at-rule whose `@` is at the cursor, read for its
/// extent alone: `media`, `keyframes` and `supports` rules end with their
/// block, any other with its `;`.
pub open spec fn skip_at_rule(s: Seq<char>, c: Cursor) -> (Result<(), ParseError>, Cursor) {
    let c1 = step(c, 1);
    let name = run_text(s, c1, CharClass::Identifier);
    let c2 = run(s, run(s, c1, CharClass::Identifier), CharClass::Whitespace);
    if name == "media"@ || name == "keyframes"@ || name == "supports"@ {
        let c3 = run(s, c2, CharClass::Except('{'));
        if at_end(s, c3) {
            (Ok(()), c3)
        } else {
            skip_block(s, c3)
        }
    } else {
        (Ok(()), skip_to_char(s, c2, ';'))
    }
}

/// The at-rule whose `@` is at the cursor.
pub open spec fn parse_at_rule(s: Seq<char>, c: Cursor) -> (Result<RuleView, ParseError>, Cursor) {
    let c1 = step(c, 1);
    let name = run_text(s, c1, CharClass::Identifier);
    let c2 = run(s, run(s, c1, CharClass::Identifier), CharClass::Whitespace);
    if name == "media"@ {
        media_rule(s, c2)
    } else if name == "keyframes"@ {
        keyframes_rule(s, c2)
    } else {
        unsupported_at_rule(s, c2)
    }
}

/// One rule at the top level: an at-rule where the cursor stands on `@`, a
/// style rule elsewhere. A rule that fails is recorded; after a style rule
/// that fails the cursor moves to where parsing can resume.
pub open spec fn top_level_rule(s: Seq<char>, c: Cursor) -> (
    Result<RuleView, ParseError>,
    Cursor,
) {
    if char_at(s, c.pos) == '@' {
        match parse_at_rule(s, c) {
            (Ok(rule), c1) => (Ok(rule), c1),
            (Err(e), c1) => (Err(e), logged(s, c1, Level::AtRule, e)),
        }
    } else {
        match parse_rule(s, c) {
            (Ok(rule), c1) => (Ok(rule), c1),
            (Err(e), c1) => (Err(e), skip_to_next_rule(s, logged(s, c1, Level::Rule, e))),
        }
    }
}

/// The rules of a stylesheet from the cursor on, added to `acc`, after
/// `errors` failures in a row. Reading stops at the end of the text, once
/// the failures in a row reach the budget, and once the bytes consumed
/// exceed the ceiling. A rule that fails adds nothing; a round that leaves
/// the cursor where it was consumes one character and counts as a failure.
pub open spec fn sheet_seq(s: Seq<char>, c: Cursor, acc: Seq<RuleView>, errors: nat) -> (
    Seq<RuleView>,
    Cursor,
)
    decreases remaining(s, c),
{
    if at_end(s, c) || errors >= MAX_CONSECUTIVE_ERRORS || memory_check(c) is Err {
        (acc, c)
    } else {
        let c1 = skip_trivia(s, c);
        if at_end(s, c1) {
            (acc, c1)
        } else {
            let (r, c2) = top_level_rule(s, c1);
            let (next, failures) = match r {
                Ok(rule) => (acc.push(rule), 0nat),
                Err(_) => (acc, errors + 1),
            };
            if c2.pos == c.pos {
                sheet_seq(s, step(c2, 1), next, failures + 1)
            } else if remaining(s, c2) < remaining(s, c) {
                sheet_seq(s, c2, next, failures)
            } else {
                (next, c2)
            }
        }
    }
}

/// The rules that a parse of the whole text `s` yields.
pub open spec fn parse_stylesheet(s: Seq<char>) -> Seq<RuleView> {
    sheet_seq(s, start(), Seq::empty(), 0).0
}

/// The recoveries that a parse of the whole text `s` makes, in order: every
/// selector, declaration, style rule and at-rule that it gave up, each with
/// its error and the byte offset at which it was given up.
pub open spec fn parse_failures(s: Seq<char>) -> Seq<DiagnosticView> {
    sheet_seq(s, start(), Seq::empty(), 0).1.log
}

/// Whether the byte counter is within the ceiling.
pub open spec fn memory_check(c: Cursor) -> Result<(), ParseError> {
    if c.used > MAX_MEMORY_BYTES {
        Err(ParseError::MemoryLimitExceeded)
    } else {
        Ok(())
    }
}

} // verus!
