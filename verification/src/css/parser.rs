//! The stylesheet parser: a cursor over the text and the grammar's methods.

use vstd::prelude::*;
use crate::css::grammar;
use crate::css::grammar::{Cursor, Diagnostic, Level, ParseError, diagnostic_views};
use crate::css::rules::{
    AttributeOperator,
    AttributeSelector,
    Declaration,
    Keyframe,
    Rule,
    RuleView,
    Selector,
    SimpleSelector,
    StyleRule,
    Stylesheet,
    all_valid,
    declaration_views,
    keyframe_views,
    selector_views,
    texts,
};
use crate::css::values::{Color, Number, Unit, Value};
use crate::text::{
    CharClass,
    byte_len,
    hex_digit_value,
    lemma_byte_len_monotonic,
    lemma_byte_len_prefix,
    lemma_byte_len_push,
    lemma_run_len,
    run_len,
    str_equal,
    string_of,
    to_chars,
    trim_range,
    utf8_len,
    valid_identifier_char,
};

verus! {

/// A parser over one stylesheet text. It owns a forward-only cursor, which
/// it reports as a byte offset, and a counter of the bytes that runs have
/// consumed.
pub struct CssParser<'a> {
    input: &'a str,
    chars: Vec<char>,
    /// Number of characters behind the cursor.
    index: usize,
    /// Number of bytes behind the cursor.
    position: usize,
    bytes_consumed: usize,
    /// The recoveries made so far, oldest first.
    diagnostics: Vec<Diagnostic>,
}

impl<'a> CssParser<'a> {
    /// The text being parsed.
    pub closed spec fn text(&self) -> Seq<char> {
        self.input@
    }

    /// Where the parser stands in its text.
    pub closed spec fn cursor(&self) -> Cursor {
        Cursor {
            pos: self.index as int,
            used: self.bytes_consumed as nat,
            log: diagnostic_views(self.diagnostics@),
        }
    }

    /// The cursor lies inside the text, the parser's copy of the text is
    /// faithful, and its byte counts agree with the cursor.
    pub closed spec fn wf(&self) -> bool {
        &&& self.chars@ == self.input@
        &&& self.index <= self.chars.len()
        &&& self.position == grammar::byte_offset(self.chars@, self.index as int)
        &&& self.bytes_consumed <= self.position
        &&& byte_len(self.chars@) <= usize::MAX
    }

    /// `self` is a valid state over the same text as `before`, no further
    /// back in it.
    pub open spec fn continues(&self, before: &Self) -> bool {
        &&& self.wf()
        &&& self.text() == before.text()
        &&& self.cursor().pos >= before.cursor().pos
    }

    /// The cursor of a valid parser lies within its text, and its byte
    /// counter is no more than the bytes behind the cursor.
    pub proof fn lemma_cursor_in_text(&self)
        requires
            self.wf(),
        ensures
            0 <= self.cursor().pos <= self.text().len(),
            self.cursor().used <= grammar::byte_offset(self.text(), self.cursor().pos),
            grammar::byte_offset(self.text(), self.cursor().pos) <= usize::MAX,
    {
    }

    pub fn new(input: &'a str) -> (p: Self)
        ensures
            p.wf(),
            p.text() == input@,
            p.cursor() == grammar::start(),
    {
        let chars = to_chars(input);
        assert(chars@.take(0) =~= Seq::<char>::empty());
        let diagnostics: Vec<Diagnostic> = Vec::new();
        assert(diagnostic_views(diagnostics@) =~= Seq::empty());
        CssParser { input, chars, index: 0, position: 0, bytes_consumed: 0, diagnostics }
    }

    /// The text being parsed.
    pub fn input(&self) -> (s: &'a str)
        ensures
            s@ == self.text(),
    {
        self.input
    }

    /// The recoveries made so far, oldest first: every selector,
    /// declaration, style rule and at-rule that was given up, with its error
    /// and the byte offset at which it was given up.
    pub fn diagnostics(&self) -> (d: &Vec<Diagnostic>)
        ensures
            diagnostic_views(d@) == self.cursor().log,
    {
        &self.diagnostics
    }

    /// Records that a piece at `level` was given up for `error` where the
    /// cursor stands.
    fn report(&mut self, level: Level, error: ParseError)
        requires
            old(self).wf(),
        ensures
            final(self).continues(old(self)),
            final(self).cursor() == grammar::logged(
                old(self).text(),
                old(self).cursor(),
                level,
                error,
            ),
    {
        let d = Diagnostic { level, error, position: self.position };
        self.diagnostics.push(d);
        reveal(grammar::logged);
        assert(diagnostic_views(self.diagnostics@) =~= diagnostic_views(old(self).diagnostics@).push(
            d@,
        ));
    }

    /// The byte offset of the cursor in the text.
    pub fn position(&self) -> (n: usize)
        requires
            self.wf(),
        ensures
            n == grammar::byte_offset(self.text(), self.cursor().pos),
    {
        self.position
    }

    /// Number of bytes that runs have consumed so far.
    pub fn bytes_consumed(&self) -> (n: usize)
        ensures
            n == self.cursor().used,
    {
        self.bytes_consumed
    }

    pub fn eof(&self) -> (b: bool)
        requires
            self.wf(),
        ensures
            b == grammar::at_end(self.text(), self.cursor()),
    {
        self.index >= self.chars.len()
    }

    /// The character `offset` places after the cursor, or NUL past the end.
    pub fn peek_char(&self, offset: usize) -> (c: char)
        requires
            self.wf(),
        ensures
            c == grammar::char_at(self.text(), self.cursor().pos + offset),
    {
        if offset < self.chars.len() - self.index {
            self.chars[self.index + offset]
        } else {
            '\0'
        }
    }

    /// The character at the cursor, or NUL at the end.
    pub fn next_char(&self) -> (c: char)
        requires
            self.wf(),
        ensures
            c == grammar::char_at(self.text(), self.cursor().pos),
    {
        self.peek_char(0)
    }

    /// Consumes the character at the cursor.
    pub fn consume_char(&mut self) -> (c: char)
        requires
            old(self).wf(),
            !grammar::at_end(old(self).text(), old(self).cursor()),
        ensures
            final(self).continues(old(self)),
            c == old(self).text()[old(self).cursor().pos],
            final(self).cursor() == grammar::step(old(self).cursor(), 1),
    {
        let c = self.chars[self.index];
        proof {
            let s = self.chars@;
            let i = self.index as int;
            assert(s.take(i + 1) =~= s.take(i).push(s[i]));
            lemma_byte_len_push(s.take(i), s[i]);
            lemma_byte_len_prefix(s, i + 1);
        }
        self.position += utf8_len(c);
        self.index += 1;
        c
    }

    /// Moves the cursor over the run of `class` that starts at it and returns
    /// where the run began.
    fn scan_while(&mut self, class: CharClass) -> (start: usize)
        requires
            old(self).wf(),
        ensures
            final(self).continues(old(self)),
            start == old(self).cursor().pos,
            final(self).cursor() == grammar::run(old(self).text(), old(self).cursor(), class),
            grammar::at_end(final(self).text(), final(self).cursor()) || !class.contains(
                grammar::char_at(final(self).text(), final(self).cursor().pos),
            ),
    {
        let start = self.index;
        let ghost s = self.chars@;
        proof {
            lemma_run_len(s, start as int, class);
            assert(s.subrange(start as int, start as int) =~= Seq::empty());
            reveal_with_fuel(byte_len, 1);
        }
        while self.index < self.chars.len() && class.matches(self.chars[self.index])
            invariant
                self.wf(),
                self.chars@ == s,
                self.input@ == s,
                self.diagnostics == old(self).diagnostics,
                start <= self.index <= s.len(),
                run_len(s, start as int, class) == (self.index - start) + run_len(
                    s,
                    self.index as int,
                    class,
                ),
                self.bytes_consumed as nat == old(self).bytes_consumed as nat + byte_len(
                    s.subrange(start as int, self.index as int),
                ),
            decreases s.len() - self.index,
        {
            let w = utf8_len(self.chars[self.index]);
            proof {
                let i = self.index as int;
                assert(s.subrange(start as int, i + 1).drop_last() =~= s.subrange(start as int, i));
                assert(s.subrange(start as int, i + 1).last() == s[i]);
                assert(s.take(i + 1) =~= s.take(i).push(s[i]));
                lemma_byte_len_push(s.take(i), s[i]);
                lemma_byte_len_prefix(s, i + 1);
            }
            self.bytes_consumed += w;
            self.position += w;
            self.index += 1;
        }
        start
    }

    /// Consumes the run of `class` that starts at the cursor and returns its
    /// text.
    pub fn consume_while(&mut self, class: CharClass) -> (run: String)
        requires
            old(self).wf(),
        ensures
            final(self).continues(old(self)),
            run@ == grammar::run_text(old(self).text(), old(self).cursor(), class),
            final(self).cursor() == grammar::run(old(self).text(), old(self).cursor(), class),
            grammar::at_end(final(self).text(), final(self).cursor()) || !class.contains(
                grammar::char_at(final(self).text(), final(self).cursor().pos),
            ),
    {
        let start = self.scan_while(class);
        string_of(&self.chars, start, self.index)
    }

    pub fn consume_whitespace(&mut self)
        requires
            old(self).wf(),
        ensures
            final(self).continues(old(self)),
            final(self).cursor() == grammar::run(
                old(self).text(),
                old(self).cursor(),
                CharClass::Whitespace,
            ),
    {
        self.scan_while(CharClass::Whitespace);
    }

    pub fn parse_identifier(&mut self) -> (name: String)
        requires
            old(self).wf(),
        ensures
            final(self).continues(old(self)),
            name@ == grammar::run_text(old(self).text(), old(self).cursor(), CharClass::Identifier),
            final(self).cursor() == grammar::run(
                old(self).text(),
                old(self).cursor(),
                CharClass::Identifier,
            ),
    {
        self.consume_while(CharClass::Identifier)
    }

    /// Skips the comment that starts at the cursor, up to and including its
    /// closing `*/`, or to the end of the text if it is never closed.
    pub fn skip_comment(&mut self)
        requires
            old(self).wf(),
            grammar::char_at(old(self).text(), old(self).cursor().pos) == '/',
            grammar::char_at(old(self).text(), old(self).cursor().pos + 1) == '*',
        ensures
            final(self).continues(old(self)),
            final(self).cursor() == grammar::skip_comment(old(self).text(), old(self).cursor()),
            final(self).cursor().pos >= old(self).cursor().pos + 2,
    {
        self.consume_char();
        self.consume_char();
        let ghost s = self.text();
        loop
            invariant
                self.continues(old(self)),
                s == self.text(),
                self.cursor().pos >= old(self).cursor().pos + 2,
                grammar::skip_comment(s, old(self).cursor()) == grammar::comment_end(
                    s,
                    self.cursor(),
                ),
            decreases s.len() - self.cursor().pos,
        {
            self.scan_while(CharClass::Except('*'));
            if self.eof() {
                return ;
            }
            if self.peek_char(1) == '/' {
                self.consume_char();
                self.consume_char();
                return ;
            }
            self.consume_char();
        }
    }

    pub fn consume_whitespace_and_comments(&mut self)
        requires
            old(self).wf(),
        ensures
            final(self).continues(old(self)),
            final(self).cursor() == grammar::skip_trivia(old(self).text(), old(self).cursor()),
    {
        let ghost s = self.text();
        loop
            invariant
                self.continues(old(self)),
                s == self.text(),
                grammar::skip_trivia(s, old(self).cursor()) == grammar::skip_trivia(
                    s,
                    self.cursor(),
                ),
            decreases s.len() - self.cursor().pos,
        {
            self.consume_whitespace();
            if self.next_char() == '/' && self.peek_char(1) == '*' {
                self.skip_comment();
            } else {
                return ;
            }
        }
    }

    /// Reads the identifier at the cursor as a unit, without regard to case.
    pub fn parse_unit(&mut self) -> (unit: Unit)
        requires
            old(self).wf(),
        ensures
            final(self).continues(old(self)),
            (unit, final(self).cursor()) == grammar::parse_unit(
                old(self).text(),
                old(self).cursor(),
            ),
    {
        let name = self.parse_identifier();
        let lower = name.as_str().to_lowercase();
        unit_for(lower.as_str())
    }

    /// Reads the numeric literal at the cursor: the run of digits, `.`, `+`
    /// and `-`.
    pub fn parse_number(&mut self) -> (number: Number)
        requires
            old(self).wf(),
        ensures
            final(self).continues(old(self)),
            number@ == grammar::run_text(old(self).text(), old(self).cursor(), CharClass::Numeric),
            final(self).cursor() == grammar::run(
                old(self).text(),
                old(self).cursor(),
                CharClass::Numeric,
            ),
    {
        Number { text: self.consume_while(CharClass::Numeric) }
    }

    /// Reads the hex colour at the cursor, which must stand on `#`.
    pub fn parse_color(&mut self) -> (value: Value)
        requires
            old(self).wf(),
            grammar::char_at(old(self).text(), old(self).cursor().pos) == '#',
        ensures
            final(self).continues(old(self)),
            (value@, final(self).cursor()) == grammar::parse_color(
                old(self).text(),
                old(self).cursor(),
            ),
            final(self).cursor().pos > old(self).cursor().pos,
    {
        self.consume_char();
        let start = self.scan_while(CharClass::HexDigit);
        let len = self.index - start;
        if len == 3 {
            let r = hex_digit_value(self.chars[start]);
            let g = hex_digit_value(self.chars[start + 1]);
            let b = hex_digit_value(self.chars[start + 2]);
            Value::Color(Color { r: r * 16 + r, g: g * 16 + g, b: b * 16 + b, a: 255 })
        } else if len == 4 {
            let r = hex_digit_value(self.chars[start]);
            let g = hex_digit_value(self.chars[start + 1]);
            let b = hex_digit_value(self.chars[start + 2]);
            let a = hex_digit_value(self.chars[start + 3]);
            Value::Color(Color { r: r * 16 + r, g: g * 16 + g, b: b * 16 + b, a: a * 16 + a })
        } else if len == 6 {
            let r = hex_digit_value(self.chars[start]) * 16 + hex_digit_value(
                self.chars[start + 1],
            );
            let g = hex_digit_value(self.chars[start + 2]) * 16 + hex_digit_value(
                self.chars[start + 3],
            );
            let b = hex_digit_value(self.chars[start + 4]) * 16 + hex_digit_value(
                self.chars[start + 5],
            );
            Value::Color(Color { r, g, b, a: 255 })
        } else if len == 8 {
            let r = hex_digit_value(self.chars[start]) * 16 + hex_digit_value(
                self.chars[start + 1],
            );
            let g = hex_digit_value(self.chars[start + 2]) * 16 + hex_digit_value(
                self.chars[start + 3],
            );
            let b = hex_digit_value(self.chars[start + 4]) * 16 + hex_digit_value(
                self.chars[start + 5],
            );
            let a = hex_digit_value(self.chars[start + 6]) * 16 + hex_digit_value(
                self.chars[start + 7],
            );
            Value::Color(Color { r, g, b, a })
        } else {
            Value::Keyword("transparent".to_string())
        }
    }

    /// Reads the quoted string whose opening quote is at the cursor.
    pub fn parse_quoted(&mut self) -> (text: String)
        requires
            old(self).wf(),
            !grammar::at_end(old(self).text(), old(self).cursor()),
        ensures
            final(self).continues(old(self)),
            (text@, final(self).cursor()) == grammar::parse_quoted(
                old(self).text(),
                old(self).cursor(),
            ),
            final(self).cursor().pos > old(self).cursor().pos,
    {
        let quote = self.consume_char();
        let text = self.consume_while(CharClass::Except(quote));
        if !self.eof() {
            self.consume_char();
        }
        text
    }

    /// Reads one value at the cursor, if one starts there.
    pub fn parse_value_item(&mut self) -> (item: Option<Value>)
        requires
            old(self).wf(),
        ensures
            final(self).continues(old(self)),
            (
                match item {
                    Some(v) => Some(v@),
                    None => None,
                },
                final(self).cursor(),
            ) == grammar::value_item(old(self).text(), old(self).cursor()),
            item is Some ==> final(self).cursor().pos > old(self).cursor().pos,
            item is Some ==> !(item->0@ is List),
        decreases grammar::remaining(old(self).text(), old(self).cursor()), 0nat,
    {
        let ch = self.next_char();
        if ch == ';' || ch == '!' || ch == '}' {
            None
        } else if CharClass::Numeric.matches(ch) {
            let number = self.parse_number();
            if self.next_char() == '%' {
                self.consume_char();
                Some(Value::Percentage(number))
            } else {
                let unit = self.parse_unit();
                Some(Value::Length(number, unit))
            }
        } else if ch == '#' {
            Some(self.parse_color())
        } else if ch == '"' || ch == '\'' {
            Some(Value::String(self.parse_quoted()))
        } else {
            let name = self.parse_identifier();
            if name.as_str().is_empty() {
                None
            } else if self.next_char() == '(' {
                self.consume_char();
                let args = self.parse_value_list(')');
                Some(Value::Function(name, args))
            } else {
                Some(Value::Keyword(name))
            }
        }
    }

    /// Reads the value of a declaration, or one argument of a function call:
    /// the values that follow one another up to `;`, `!`, `}` or the end of
    /// the text. A single value is returned as it is, none or several as a
    /// list.
    pub fn parse_value(&mut self) -> (value: Value)
        requires
            old(self).wf(),
        ensures
            final(self).continues(old(self)),
            (value@, final(self).cursor()) == grammar::parse_value(
                old(self).text(),
                old(self).cursor(),
            ),
            value@ is List ==> value@->List_0.len() != 1,
        decreases grammar::remaining(old(self).text(), old(self).cursor()), 2nat,
    {
        let mut values: Vec<Value> = Vec::new();
        let ghost s = self.text();
        assert(Value::models(values@) =~= Seq::empty());
        while !self.eof()
            invariant_except_break
                grammar::value_seq(s, old(self).cursor(), Seq::empty()) == grammar::value_seq(
                    s,
                    self.cursor(),
                    Value::models(values@),
                ),
            invariant
                self.continues(old(self)),
                s == self.text(),
                forall|i: int| 0 <= i < values@.len() ==> !((#[trigger] values@[i])@ is List),
            ensures
                self.continues(old(self)),
                forall|i: int| 0 <= i < values@.len() ==> !((#[trigger] values@[i])@ is List),
                grammar::value_seq(s, old(self).cursor(), Seq::empty()) == (
                    Value::models(values@),
                    self.cursor(),
                ),
            decreases grammar::remaining(s, self.cursor()),
        {
            let ghost acc = Value::models(values@);
            self.consume_whitespace();
            match self.parse_value_item() {
                None => {
                    break ;
                },
                Some(v) => {
                    values.push(v);
                    assert(Value::models(values@) =~= acc.push(v@));
                },
            }
        }
        if values.len() == 1 {
            let v = values.pop().unwrap();
            v
        } else {
            Value::List(values)
        }
    }

    /// Reads the arguments of a function call up to `end_char`, which is
    /// consumed. Arguments are separated by commas or by whitespace.
    pub fn parse_value_list(&mut self, end_char: char) -> (values: Vec<Value>)
        requires
            old(self).wf(),
        ensures
            final(self).continues(old(self)),
            (Value::models(values@), final(self).cursor()) == grammar::value_list(
                old(self).text(),
                old(self).cursor(),
                end_char,
                Seq::empty(),
            ),
        decreases grammar::remaining(old(self).text(), old(self).cursor()), 3nat,
    {
        let mut values: Vec<Value> = Vec::new();
        let ghost s = self.text();
        assert(Value::models(values@) =~= Seq::empty());
        while !self.eof()
            invariant_except_break
                grammar::value_list(s, old(self).cursor(), end_char, Seq::empty())
                    == grammar::value_list(s, self.cursor(), end_char, Value::models(values@)),
            invariant
                self.continues(old(self)),
                s == self.text(),
            ensures
                self.continues(old(self)),
                grammar::value_list(s, old(self).cursor(), end_char, Seq::empty()) == (
                    Value::models(values@),
                    self.cursor(),
                ),
            decreases grammar::remaining(s, self.cursor()),
        {
            let ghost acc = Value::models(values@);
            self.consume_whitespace();
            if !self.eof() && self.next_char() == end_char {
                self.consume_char();
                break ;
            }
            if self.next_char() == ',' {
                self.consume_char();
                self.consume_whitespace();
                continue ;
            }
            let start = self.index;
            let v = self.parse_value();
            if self.index <= start {
                break ;
            }
            values.push(v);
            assert(Value::models(values@) =~= acc.push(v@));
        }
        values
    }

    /// Moves the cursor past the next `end_char`, or to the end of the text.
    pub fn skip_to_char(&mut self, end_char: char)
        requires
            old(self).wf(),
        ensures
            final(self).continues(old(self)),
            final(self).cursor() == grammar::skip_to_char(
                old(self).text(),
                old(self).cursor(),
                end_char,
            ),
    {
        self.scan_while(CharClass::Except(end_char));
        if !self.eof() {
            self.consume_char();
        }
    }

    /// Moves the cursor past the next `,` or onto the next `{`.
    pub fn skip_to_next_selector(&mut self)
        requires
            old(self).wf(),
        ensures
            final(self).continues(old(self)),
            final(self).cursor() == grammar::skip_to_next_selector(
                old(self).text(),
                old(self).cursor(),
            ),
            final(self).cursor().pos > old(self).cursor().pos || grammar::at_end(
                old(self).text(),
                old(self).cursor(),
            ) || grammar::char_at(old(self).text(), old(self).cursor().pos) == '{',
    {
        self.scan_while(CharClass::ExceptTwo(',', '{'));
        if self.next_char() == ',' {
            self.consume_char();
        }
    }

    /// Moves the cursor past the next `;` or onto the next `}`.
    pub fn skip_to_next_declaration(&mut self)
        requires
            old(self).wf(),
        ensures
            final(self).continues(old(self)),
            final(self).cursor() == grammar::skip_to_next_declaration(
                old(self).text(),
                old(self).cursor(),
            ),
            final(self).cursor().pos > old(self).cursor().pos || grammar::at_end(
                old(self).text(),
                old(self).cursor(),
            ) || grammar::char_at(old(self).text(), old(self).cursor().pos) == '}',
    {
        self.scan_while(CharClass::ExceptTwo(';', '}'));
        if self.next_char() == ';' {
            self.consume_char();
        }
    }

    /// Consumes `expected` if it stands at the cursor.
    pub fn expect_char(&mut self, expected: char) -> (r: Result<(), ParseError>)
        requires
            old(self).wf(),
        ensures
            final(self).continues(old(self)),
            (r, final(self).cursor()) == grammar::expect_char(
                old(self).text(),
                old(self).cursor(),
                expected,
            ),
    {
        if !self.eof() && self.next_char() == expected {
            self.consume_char();
            Ok(())
        } else {
            Err(ParseError::ExpectedCharacter)
        }
    }

    /// Reads the operator of an attribute selector, if one stands at the
    /// cursor.
    fn parse_attribute_operator(&mut self) -> (op: Option<AttributeOperator>)
        requires
            old(self).wf(),
        ensures
            final(self).continues(old(self)),
            (op, final(self).cursor()) == grammar::attribute_operator(
                old(self).text(),
                old(self).cursor(),
            ),
    {
        if self.next_char() == '=' {
            self.consume_char();
            Some(AttributeOperator::Equal)
        } else {
            let start = self.scan_while(CharClass::Operator);
            let len = self.index - start;
            if len > 0 && self.next_char() == '=' {
                let first = self.chars[start];
                self.consume_char();
                if len != 1 {
                    None
                } else if first == '~' {
                    Some(AttributeOperator::Includes)
                } else if first == '|' {
                    Some(AttributeOperator::DashMatch)
                } else if first == '^' {
                    Some(AttributeOperator::Prefix)
                } else if first == '$' {
                    Some(AttributeOperator::Suffix)
                } else if first == '*' {
                    Some(AttributeOperator::Substring)
                } else {
                    None
                }
            } else {
                None
            }
        }
    }

    /// Reads the value of an attribute selector: a quoted string or a bare
    /// identifier.
    fn parse_attribute_value(&mut self) -> (value: String)
        requires
            old(self).wf(),
        ensures
            final(self).continues(old(self)),
            (value@, final(self).cursor()) == grammar::attribute_value(
                old(self).text(),
                old(self).cursor(),
            ),
    {
        self.consume_whitespace();
        let quote = self.next_char();
        if quote == '\'' || quote == '"' {
            self.parse_quoted()
        } else {
            self.parse_identifier()
        }
    }

    /// Reads an attribute selector from just after its `[`.
    pub fn parse_attribute_selector(&mut self) -> (r: Result<AttributeSelector, ParseError>)
        requires
            old(self).wf(),
        ensures
            final(self).continues(old(self)),
            (view_result(r), final(self).cursor()) == grammar::parse_attribute_selector(
                old(self).text(),
                old(self).cursor(),
            ),
            r is Ok ==> r->Ok_0@.is_valid(),
    {
        let name = self.parse_identifier();
        self.consume_whitespace();
        if self.next_char() == ']' {
            self.consume_char();
            return Ok(AttributeSelector { name, op: None, value: None });
        }
        let op = self.parse_attribute_operator();
        let value = if op.is_some() {
            Some(self.parse_attribute_value())
        } else {
            None
        };
        self.consume_whitespace();
        if self.next_char() == ']' {
            self.consume_char();
            Ok(AttributeSelector { name, op, value })
        } else {
            self.skip_to_char(']');
            Err(ParseError::InvalidAttributeSelector)
        }
    }

    /// Reads the simple selector at the cursor. The selector returned names
    /// at least one thing.
    pub fn parse_selector(&mut self) -> (r: Result<Selector, ParseError>)
        requires
            old(self).wf(),
        ensures
            final(self).continues(old(self)),
            (view_result(r), final(self).cursor()) == grammar::parse_selector(
                old(self).text(),
                old(self).cursor(),
            ),
            r is Ok ==> final(self).cursor().pos > old(self).cursor().pos,
            r is Ok ==> r->Ok_0@.is_valid(),
    {
        let mut selector = SimpleSelector::new();
        let mut has_parts = false;
        let ghost s = self.text();
        while !self.eof()
            invariant
                self.continues(old(self)),
                s == self.text(),
                has_parts == selector@.names_something(),
                has_parts ==> selector@.is_valid(),
                has_parts ==> self.cursor().pos > old(self).cursor().pos,
                grammar::parse_selector(s, old(self).cursor()) == grammar::selector_parts(
                    s,
                    self.cursor(),
                    selector@,
                ),
            ensures
                self.continues(old(self)),
                has_parts == selector@.names_something(),
                has_parts ==> selector@.is_valid(),
                has_parts ==> self.cursor().pos > old(self).cursor().pos,
                grammar::parse_selector(s, old(self).cursor()) == (
                    grammar::finish_selector(selector@),
                    self.cursor(),
                ),
            decreases grammar::remaining(s, self.cursor()),
        {
            let ghost before = selector@;
            let ch = self.next_char();
            if ch == '#' {
                self.consume_char();
                selector.id = Some(self.parse_identifier());
                has_parts = true;
            } else if ch == '.' {
                self.consume_char();
                let class = self.parse_identifier();
                selector.classes.push(class);
                has_parts = true;
                assert(selector@.classes =~= before.classes.push(class@));
            } else if ch == '*' {
                self.consume_char();
                selector.universal = true;
                has_parts = true;
            } else if ch == '[' {
                self.consume_char();
                match self.parse_attribute_selector() {
                    Ok(attribute) => {
                        selector.attributes.push(attribute);
                        has_parts = true;
                        assert(selector@.attributes =~= before.attributes.push(attribute@));
                    },
                    Err(e) => {
                        return Err(e);
                    },
                }
            } else if valid_identifier_char(ch) && selector.tag_name.is_none() {
                selector.tag_name = Some(self.parse_identifier());
                has_parts = true;
            } else {
                break ;
            }
        }
        if has_parts {
            Ok(Selector::Simple(selector))
        } else {
            Err(ParseError::EmptySelector)
        }
    }

    /// Reads the selectors of a rule, up to the `{` of its block. Selectors
    /// that cannot be read are skipped; it is an error if none is left.
    pub fn parse_selectors(&mut self) -> (r: Result<Vec<Selector>, ParseError>)
        requires
            old(self).wf(),
        ensures
            final(self).continues(old(self)),
            (
                match r {
                    Ok(v) => Ok(selector_views(v@)),
                    Err(e) => Err(e),
                },
                final(self).cursor(),
            ) == grammar::parse_selectors(old(self).text(), old(self).cursor()),
            r is Ok ==> final(self).cursor().pos > old(self).cursor().pos,
            r is Ok ==> r->Ok_0@.len() > 0,
            r is Ok ==> forall|i: int|
                0 <= i < r->Ok_0@.len() ==> (#[trigger] r->Ok_0@[i])@.is_valid(),
            final(self).cursor().pos > old(self).cursor().pos || grammar::at_end(
                old(self).text(),
                old(self).cursor(),
            ) || grammar::char_at(old(self).text(), old(self).cursor().pos) == '{',
    {
        let mut selectors: Vec<Selector> = Vec::new();
        let ghost s = self.text();
        assert(selector_views(selectors@) =~= Seq::empty());
        while !self.eof()
            invariant_except_break
                grammar::selector_list(s, old(self).cursor(), Seq::empty())
                    == grammar::selector_list(s, self.cursor(), selector_views(selectors@)),
            invariant
                self.continues(old(self)),
                s == self.text(),
                selectors@.len() > 0 ==> self.cursor().pos > old(self).cursor().pos,
                forall|i: int| 0 <= i < selectors@.len() ==> (#[trigger] selectors@[i])@.is_valid(),
            ensures
                self.continues(old(self)),
                selectors@.len() > 0 ==> self.cursor().pos > old(self).cursor().pos,
                forall|i: int| 0 <= i < selectors@.len() ==> (#[trigger] selectors@[i])@.is_valid(),
                self.cursor().pos > old(self).cursor().pos || grammar::at_end(s, old(self).cursor())
                    || grammar::char_at(s, old(self).cursor().pos) == '{',
                grammar::selector_list(s, old(self).cursor(), Seq::empty()) == (
                    selector_views(selectors@),
                    self.cursor(),
                ),
            decreases grammar::remaining(s, self.cursor()),
        {
            let ghost acc = selector_views(selectors@);
            match self.parse_selector() {
                Ok(selector) => {
                    selectors.push(selector);
                    assert(selector_views(selectors@) =~= acc.push(selector@));
                    self.consume_whitespace();
                    if self.next_char() == ',' {
                        self.consume_char();
                        self.consume_whitespace();
                    } else if self.next_char() == '{' {
                        break ;
                    }
                },
                Err(e) => {
                    self.report(Level::Selector, e);
                    self.skip_to_next_selector();
                    if self.next_char() == '{' {
                        break ;
                    }
                },
            }
        }
        if selectors.len() == 0 {
            Err(ParseError::NoValidSelectors)
        } else {
            Ok(selectors)
        }
    }

    /// Reads whether `!important` stands at the cursor.
    fn parse_importance(&mut self) -> (important: bool)
        requires
            old(self).wf(),
        ensures
            final(self).continues(old(self)),
            (important, final(self).cursor()) == grammar::importance(
                old(self).text(),
                old(self).cursor(),
            ),
    {
        if self.next_char() == '!' {
            self.consume_char();
            let word = self.parse_identifier();
            let lower = word.as_str().to_lowercase();
            str_equal(lower.as_str(), "important")
        } else {
            false
        }
    }

    /// Reads one declaration: `name: value`, with an optional `!important`
    /// and an optional closing `;`. The name is returned in lower case.
    pub fn parse_declaration(&mut self) -> (r: Result<Declaration, ParseError>)
        requires
            old(self).wf(),
        ensures
            final(self).continues(old(self)),
            (view_result(r), final(self).cursor()) == grammar::parse_declaration(
                old(self).text(),
                old(self).cursor(),
            ),
            r is Ok ==> final(self).cursor().pos > old(self).cursor().pos,
    {
        let name = self.parse_identifier();
        if name.as_str().is_empty() {
            return Err(ParseError::EmptyPropertyName);
        }
        self.consume_whitespace();
        if self.eof() {
            return Err(ParseError::ExpectedColon);
        }
        if self.consume_char() != ':' {
            return Err(ParseError::ExpectedColon);
        }
        self.consume_whitespace();
        let value = self.parse_value();
        self.consume_whitespace();
        let important = self.parse_importance();
        if self.next_char() == ';' {
            self.consume_char();
        }
        Ok(Declaration { name: name.as_str().to_lowercase(), value, important })
    }

    /// Reads a declaration block, from its `{` up to and including its `}`
    /// or up to the end of the text. Declarations that cannot be read are
    /// skipped.
    pub fn parse_declarations(&mut self) -> (r: Result<Vec<Declaration>, ParseError>)
        requires
            old(self).wf(),
        ensures
            final(self).continues(old(self)),
            (
                match r {
                    Ok(v) => Ok(declaration_views(v@)),
                    Err(e) => Err(e),
                },
                final(self).cursor(),
            ) == grammar::parse_declarations(old(self).text(), old(self).cursor()),
            r is Ok ==> final(self).cursor().pos > old(self).cursor().pos,
    {
        if self.eof() {
            return Err(ParseError::ExpectedOpenBrace);
        }
        if self.consume_char() != '{' {
            return Err(ParseError::ExpectedOpenBrace);
        }
        let mut declarations: Vec<Declaration> = Vec::new();
        let ghost s = self.text();
        let ghost start = self.cursor();
        assert(declaration_views(declarations@) =~= Seq::empty());
        loop
            invariant_except_break
                grammar::declaration_seq(s, start, Seq::empty()) == grammar::declaration_seq(
                    s,
                    self.cursor(),
                    declaration_views(declarations@),
                ),
            invariant
                self.continues(old(self)),
                s == self.text(),
                self.cursor().pos >= start.pos,
            ensures
                self.continues(old(self)),
                self.cursor().pos >= start.pos,
                grammar::declaration_seq(s, start, Seq::empty()) == (
                    declaration_views(declarations@),
                    self.cursor(),
                ),
            decreases grammar::remaining(s, self.cursor()),
        {
            let ghost acc = declaration_views(declarations@);
            self.consume_whitespace_and_comments();
            if self.eof() {
                break ;
            }
            if self.next_char() == '}' {
                self.consume_char();
                break ;
            }
            match self.parse_declaration() {
                Ok(declaration) => {
                    declarations.push(declaration);
                    assert(declaration_views(declarations@) =~= acc.push(declaration@));
                },
                Err(e) => {
                    self.report(Level::Declaration, e);
                    self.skip_to_next_declaration();
                },
            }
        }
        Ok(declarations)
    }

    /// Reads one style rule: its selectors and its declaration block.
    pub fn parse_rule(&mut self) -> (r: Result<Rule, ParseError>)
        requires
            old(self).wf(),
        ensures
            final(self).continues(old(self)),
            (view_result(r), final(self).cursor()) == grammar::parse_rule(
                old(self).text(),
                old(self).cursor(),
            ),
            r is Ok ==> r->Ok_0@.is_valid(),
            r is Ok ==> final(self).cursor().pos > old(self).cursor().pos,
            final(self).cursor().pos > old(self).cursor().pos || grammar::at_end(
                old(self).text(),
                old(self).cursor(),
            ) || grammar::char_at(old(self).text(), old(self).cursor().pos) == '{',
    {
        let selectors = match self.parse_selectors() {
            Ok(selectors) => selectors,
            Err(e) => {
                return Err(e);
            },
        };
        match self.parse_declarations() {
            Ok(declarations) => Ok(Rule::Style(StyleRule { selectors, declarations })),
            Err(e) => Err(e),
        }
    }

    /// Moves the cursor to where parsing can resume after a rule failed and
    /// returns the number of bytes passed over.
    pub fn skip_to_next_rule(&mut self) -> (skipped: usize)
        requires
            old(self).wf(),
        ensures
            final(self).continues(old(self)),
            final(self).cursor() == grammar::skip_to_next_rule(
                old(self).text(),
                old(self).cursor(),
            ),
            skipped == grammar::byte_offset(final(self).text(), final(self).cursor().pos)
                - grammar::byte_offset(old(self).text(), old(self).cursor().pos),
            final(self).cursor().pos > old(self).cursor().pos || grammar::at_end(
                old(self).text(),
                old(self).cursor(),
            ) || grammar::char_at(old(self).text(), old(self).cursor().pos) == '@',
    {
        let start = self.index;
        let from = self.position;
        let mut depth: usize = 0;
        let ghost s = self.text();
        while !self.eof()
            invariant_except_break
                grammar::resync(s, old(self).cursor(), 0) == grammar::resync(
                    s,
                    self.cursor(),
                    depth as nat,
                ),
            invariant
                self.continues(old(self)),
                s == self.text(),
                start == old(self).cursor().pos,
                from == grammar::byte_offset(s, start as int),
                depth <= self.cursor().pos - start,
                self.cursor().pos > start || depth == 0,
            ensures
                self.continues(old(self)),
                grammar::resync(s, old(self).cursor(), 0) == self.cursor(),
                self.cursor().pos > start || grammar::at_end(s, old(self).cursor())
                    || grammar::char_at(s, start as int) == '@',
            decreases grammar::remaining(s, self.cursor()),
        {
            let ch = self.next_char();
            if ch == '@' && depth == 0 {
                break ;
            } else if ch == '{' {
                depth += 1;
                self.consume_char();
            } else if ch == '}' {
                if depth > 0 {
                    depth -= 1;
                }
                self.consume_char();
                if depth == 0 {
                    break ;
                }
            } else {
                self.consume_char();
            }
        }
        proof {
            lemma_byte_len_monotonic(s, start as int, self.index as int);
        }
        self.position - from
    }

    /// Moves the cursor past the block whose `{` is at the cursor. Braces
    /// inside quoted strings and comments do not count.
    pub fn skip_block(&mut self) -> (r: Result<(), ParseError>)
        requires
            old(self).wf(),
            !grammar::at_end(old(self).text(), old(self).cursor()),
        ensures
            final(self).continues(old(self)),
            (r, final(self).cursor()) == grammar::skip_block(old(self).text(), old(self).cursor()),
            final(self).cursor().pos > old(self).cursor().pos,
    {
        let mut depth: usize = 1;
        let start = self.index;
        self.consume_char();
        let ghost s = self.text();
        while depth > 0 && !self.eof()
            invariant
                self.continues(old(self)),
                s == self.text(),
                start == old(self).cursor().pos,
                self.cursor().pos > start,
                depth <= self.cursor().pos - start,
                grammar::skip_block(s, old(self).cursor()) == grammar::block_end(
                    s,
                    self.cursor(),
                    depth as nat,
                ),
            decreases grammar::remaining(s, self.cursor()),
        {
            let ch = self.next_char();
            if ch == '{' {
                depth += 1;
                self.consume_char();
            } else if ch == '}' {
                depth -= 1;
                self.consume_char();
            } else if ch == '"' || ch == '\'' {
                self.parse_quoted_span();
            } else if ch == '/' && self.peek_char(1) == '*' {
                self.skip_comment();
            } else {
                self.consume_char();
            }
        }
        if depth == 0 {
            Ok(())
        } else {
            Err(ParseError::UnclosedBlock)
        }
    }

    /// Moves the cursor past the quoted string whose opening quote is at the
    /// cursor.
    fn parse_quoted_span(&mut self)
        requires
            old(self).wf(),
            !grammar::at_end(old(self).text(), old(self).cursor()),
        ensures
            final(self).continues(old(self)),
            final(self).cursor() == grammar::parse_quoted(old(self).text(), old(self).cursor()).1,
            final(self).cursor().pos > old(self).cursor().pos,
    {
        let quote = self.consume_char();
        self.scan_while(CharClass::Except(quote));
        if !self.eof() {
            self.consume_char();
        }
    }

    /// Reads the style rules of a nested block, from just after its `{` up
    /// to and including its `}`. Rules that cannot be read are skipped.
    pub fn parse_rules_block(&mut self) -> (r: Result<Vec<Rule>, ParseError>)
        requires
            old(self).wf(),
        ensures
            final(self).continues(old(self)),
            (
                match r {
                    Ok(v) => Ok(Rule::models(v@)),
                    Err(e) => Err(e),
                },
                final(self).cursor(),
            ) == grammar::parse_rules_block(old(self).text(), old(self).cursor()),
            r is Ok ==> all_valid(Rule::models(r->Ok_0@)),
    {
        let mut rules: Vec<Rule> = Vec::new();
        self.consume_whitespace_and_comments();
        let ghost s = self.text();
        let ghost start = self.cursor();
        assert(Rule::models(rules@) =~= Seq::empty());
        while !self.eof() && self.next_char() != '}'
            invariant
                self.continues(old(self)),
                s == self.text(),
                grammar::rule_seq(s, start, Seq::empty()) == grammar::rule_seq(
                    s,
                    self.cursor(),
                    Rule::models(rules@),
                ),
                all_valid(Rule::models(rules@)),
            decreases grammar::remaining(s, self.cursor()),
        {
            let ghost acc = Rule::models(rules@);
            match self.parse_rule() {
                Ok(rule) => {
                    rules.push(rule);
                    assert(Rule::models(rules@) =~= acc.push(rule@));
                },
                Err(e) => {
                    self.report(Level::Rule, e);
                    self.skip_to_next_rule();
                },
            }
            self.consume_whitespace_and_comments();
        }
        match self.expect_char('}') {
            Ok(_) => Ok(rules),
            Err(e) => Err(e),
        }
    }

    /// Reads the selectors of one keyframe, up to the `{` of its block.
    pub fn parse_keyframe_selectors(&mut self) -> (r: Result<Vec<String>, ParseError>)
        requires
            old(self).wf(),
        ensures
            final(self).continues(old(self)),
            (
                match r {
                    Ok(v) => Ok(texts(v@)),
                    Err(e) => Err(e),
                },
                final(self).cursor(),
            ) == grammar::parse_keyframe_selectors(old(self).text(), old(self).cursor()),
            r is Ok ==> grammar::char_at(final(self).text(), final(self).cursor().pos) == '{',
    {
        let mut selectors: Vec<String> = Vec::new();
        let ghost s = self.text();
        assert(texts(selectors@) =~= Seq::empty());
        loop
            invariant
                self.continues(old(self)),
                s == self.text(),
                grammar::parse_keyframe_selectors(s, old(self).cursor())
                    == grammar::keyframe_selectors(s, self.cursor(), texts(selectors@)),
            decreases grammar::remaining(s, self.cursor()),
        {
            let ghost acc = texts(selectors@);
            self.consume_whitespace();
            let start = self.scan_while(CharClass::ExceptTwo(',', '{'));
            let (lo, hi) = trim_range(&self.chars, start, self.index);
            let text = string_of(&self.chars, lo, hi);
            selectors.push(text);
            assert(texts(selectors@) =~= acc.push(text@));
            let ch = self.next_char();
            if ch == ',' {
                self.consume_char();
            } else if ch == '{' {
                return Ok(selectors);
            } else {
                return Err(ParseError::InvalidKeyframeSelector);
            }
        }
    }

    /// Reads the keyframes of a block, from just after its `{` up to and
    /// including its `}`.
    pub fn parse_keyframe_rules(&mut self) -> (r: Result<Vec<Keyframe>, ParseError>)
        requires
            old(self).wf(),
        ensures
            final(self).continues(old(self)),
            (
                match r {
                    Ok(v) => Ok(keyframe_views(v@)),
                    Err(e) => Err(e),
                },
                final(self).cursor(),
            ) == grammar::parse_keyframe_rules(old(self).text(), old(self).cursor()),
    {
        let mut frames: Vec<Keyframe> = Vec::new();
        self.consume_whitespace_and_comments();
        let ghost s = self.text();
        let ghost start = self.cursor();
        assert(keyframe_views(frames@) =~= Seq::empty());
        while !self.eof() && self.next_char() != '}'
            invariant
                self.continues(old(self)),
                s == self.text(),
                start == grammar::skip_trivia(s, old(self).cursor()),
                grammar::keyframe_seq(s, start, Seq::empty()) == grammar::keyframe_seq(
                    s,
                    self.cursor(),
                    keyframe_views(frames@),
                ),
            decreases grammar::remaining(s, self.cursor()),
        {
            let ghost acc = keyframe_views(frames@);
            let selectors = match self.parse_keyframe_selectors() {
                Ok(selectors) => selectors,
                Err(e) => {
                    return Err(e);
                },
            };
            let declarations = match self.parse_declarations() {
                Ok(declarations) => declarations,
                Err(e) => {
                    return Err(e);
                },
            };
            let frame = Keyframe { selectors, declarations };
            frames.push(frame);
            assert(keyframe_views(frames@) =~= acc.push(frame@));
            self.consume_whitespace_and_comments();
        }
        match self.expect_char('}') {
            Ok(_) => Ok(frames),
            Err(e) => Err(e),
        }
    }

    /// Reads a media rule from just after `@media`.
    fn parse_media_rule(&mut self) -> (r: Result<Rule, ParseError>)
        requires
            old(self).wf(),
        ensures
            final(self).continues(old(self)),
            (view_result(r), final(self).cursor()) == grammar::media_rule(
                old(self).text(),
                old(self).cursor(),
            ),
            r is Ok ==> r->Ok_0@.is_valid(),
    {
        let start = self.scan_while(CharClass::Except('{'));
        let (lo, hi) = trim_range(&self.chars, start, self.index);
        if lo == hi {
            return Err(ParseError::EmptyMediaQuery);
        }
        let query = string_of(&self.chars, lo, hi);
        match self.expect_char('{') {
            Ok(_) => {},
            Err(e) => {
                return Err(e);
            },
        }
        match self.parse_rules_block() {
            Ok(rules) => Ok(Rule::Media { query, rules }),
            Err(e) => Err(e),
        }
    }

    /// Reads a keyframes rule from just after `@keyframes`.
    fn parse_keyframes_rule(&mut self) -> (r: Result<Rule, ParseError>)
        requires
            old(self).wf(),
        ensures
            final(self).continues(old(self)),
            (view_result(r), final(self).cursor()) == grammar::keyframes_rule(
                old(self).text(),
                old(self).cursor(),
            ),
    {
        let name = self.parse_identifier();
        self.consume_whitespace();
        match self.expect_char('{') {
            Ok(_) => {},
            Err(e) => {
                return Err(e);
            },
        }
        match self.parse_keyframe_rules() {
            Ok(frames) => Ok(Rule::Keyframes { name, frames }),
            Err(e) => Err(e),
        }
    }

    /// Passes over an at-rule of a kind that is not parsed, from just after
    /// its name, and reports it.
    fn skip_unsupported_at_rule(&mut self) -> (e: ParseError)
        requires
            old(self).wf(),
        ensures
            final(self).continues(old(self)),
            (Err::<RuleView, ParseError>(e), final(self).cursor()) == grammar::unsupported_at_rule(
                old(self).text(),
                old(self).cursor(),
            ),
    {
        self.scan_while(CharClass::ExceptTwo(';', '{'));
        if self.next_char() == '{' {
            match self.skip_block() {
                Ok(_) => ParseError::UnsupportedAtRule,
                Err(e) => e,
            }
        } else {
            if self.next_char() == ';' {
                self.consume_char();
            }
            ParseError::UnsupportedAtRule
        }
    }

    /// Moves the cursor past the at-rule whose `@` is at the cursor without
    /// reading what it holds.
    pub fn skip_at_rule(&mut self) -> (r: Result<(), ParseError>)
        requires
            old(self).wf(),
            !grammar::at_end(old(self).text(), old(self).cursor()),
        ensures
            final(self).continues(old(self)),
            (r, final(self).cursor()) == grammar::skip_at_rule(old(self).text(), old(self).cursor()),
    {
        self.consume_char();
        let name = self.parse_identifier();
        self.consume_whitespace();
        if str_equal(name.as_str(), "media") || str_equal(name.as_str(), "keyframes") || str_equal(
            name.as_str(),
            "supports",
        ) {
            self.scan_while(CharClass::Except('{'));
            if self.eof() {
                Ok(())
            } else {
                self.skip_block()
            }
        } else {
            self.skip_to_char(';');
            Ok(())
        }
    }

    /// Reads the at-rule whose `@` is at the cursor: a media rule, a
    /// keyframes rule, or a rule of another kind, which is passed over and
    /// reported as unsupported.
    pub fn parse_at_rule(&mut self) -> (r: Result<Rule, ParseError>)
        requires
            old(self).wf(),
            !grammar::at_end(old(self).text(), old(self).cursor()),
        ensures
            final(self).continues(old(self)),
            (view_result(r), final(self).cursor()) == grammar::parse_at_rule(
                old(self).text(),
                old(self).cursor(),
            ),
            r is Ok ==> r->Ok_0@.is_valid(),
            final(self).cursor().pos > old(self).cursor().pos,
    {
        self.consume_char();
        let name = self.parse_identifier();
        self.consume_whitespace();
        if str_equal(name.as_str(), "media") {
            self.parse_media_rule()
        } else if str_equal(name.as_str(), "keyframes") {
            self.parse_keyframes_rule()
        } else {
            Err(self.skip_unsupported_at_rule())
        }
    }

    /// Reads one rule at the top level, records it if it fails and, after a
    /// style rule that failed, moves the cursor to where parsing can resume.
    fn parse_top_level_rule(&mut self) -> (r: Result<Rule, ParseError>)
        requires
            old(self).wf(),
            !grammar::at_end(old(self).text(), old(self).cursor()),
        ensures
            final(self).continues(old(self)),
            (view_result(r), final(self).cursor()) == grammar::top_level_rule(
                old(self).text(),
                old(self).cursor(),
            ),
            r is Ok ==> r->Ok_0@.is_valid(),
    {
        if self.next_char() == '@' {
            match self.parse_at_rule() {
                Ok(rule) => Ok(rule),
                Err(e) => {
                    self.report(Level::AtRule, e);
                    Err(e)
                },
            }
        } else {
            match self.parse_rule() {
                Ok(rule) => Ok(rule),
                Err(e) => {
                    self.report(Level::Rule, e);
                    self.skip_to_next_rule();
                    Err(e)
                },
            }
        }
    }

    /// Parses the text from the cursor to its end and returns the rules that
    /// could be read, in order. Malformed rules are skipped. The parse ends
    /// early, with the rules read so far, after ten failures in a row or once
    /// the bytes consumed exceed the ceiling; it never fails.
    pub fn parse_stylesheet(&mut self) -> (r: Result<Stylesheet, &'static str>)
        requires
            old(self).wf(),
        ensures
            final(self).continues(old(self)),
            r is Ok,
            (r->Ok_0@, final(self).cursor()) == grammar::sheet_seq(
                old(self).text(),
                old(self).cursor(),
                Seq::empty(),
                0,
            ),
            all_valid(r->Ok_0@),
    {
        let mut rules: Vec<Rule> = Vec::new();
        let mut consecutive_errors: usize = 0;
        let ghost s = self.text();
        assert(Rule::models(rules@) =~= Seq::empty());
        while !self.eof() && consecutive_errors < grammar::MAX_CONSECUTIVE_ERRORS
            && self.check_memory_limit().is_ok()
            invariant_except_break
                grammar::sheet_seq(s, old(self).cursor(), Seq::empty(), 0) == grammar::sheet_seq(
                    s,
                    self.cursor(),
                    Rule::models(rules@),
                    consecutive_errors as nat,
                ),
            invariant
                self.continues(old(self)),
                s == self.text(),
                consecutive_errors <= grammar::MAX_CONSECUTIVE_ERRORS + 1,
                all_valid(Rule::models(rules@)),
            ensures
                self.continues(old(self)),
                all_valid(Rule::models(rules@)),
                grammar::sheet_seq(s, old(self).cursor(), Seq::empty(), 0) == (
                    Rule::models(rules@),
                    self.cursor(),
                ),
            decreases grammar::remaining(s, self.cursor()),
        {
            let ghost acc = Rule::models(rules@);
            let start = self.index;
            self.consume_whitespace_and_comments();
            if self.eof() {
                break ;
            }
            match self.parse_top_level_rule() {
                Ok(rule) => {
                    rules.push(rule);
                    consecutive_errors = 0;
                    assert(Rule::models(rules@) =~= acc.push(rule@));
                },
                Err(_) => {
                    consecutive_errors += 1;
                },
            }
            if self.index == start {
                self.consume_char();
                consecutive_errors += 1;
            }
        }
        Ok(Stylesheet { rules })
    }

    /// Parses as [`CssParser::parse_stylesheet`] does and returns, beside
    /// the rules, every recovery the parser has recorded: each selector,
    /// declaration, style rule and at-rule that was given up, with its error
    /// and byte offset, oldest first. On a parser that has read nothing yet
    /// these are the rules and the recoveries of the whole text.
    pub fn parse_stylesheet_with_diagnostics(&mut self) -> (r: (Stylesheet, Vec<Diagnostic>))
        requires
            old(self).wf(),
        ensures
            final(self).continues(old(self)),
            (r.0@, final(self).cursor()) == grammar::sheet_seq(
                old(self).text(),
                old(self).cursor(),
                Seq::empty(),
                0,
            ),
            all_valid(r.0@),
            diagnostic_views(r.1@) == final(self).cursor().log,
            old(self).cursor() == grammar::start() ==> r.0@ == grammar::parse_stylesheet(
                old(self).text(),
            ) && diagnostic_views(r.1@) == grammar::parse_failures(old(self).text()),
    {
        let sheet = match self.parse_stylesheet() {
            Ok(sheet) => sheet,
            Err(_) => Stylesheet { rules: Vec::new() },
        };
        let mut log: Vec<Diagnostic> = Vec::new();
        let mut i: usize = 0;
        while i < self.diagnostics.len()
            invariant
                i <= self.diagnostics.len(),
                log@ == self.diagnostics@.take(i as int),
            decreases self.diagnostics.len() - i,
        {
            log.push(self.diagnostics[i]);
            i += 1;
            assert(self.diagnostics@.take(i as int) =~= self.diagnostics@.take(i - 1).push(
                self.diagnostics@[i - 1],
            ));
        }
        assert(self.diagnostics@.take(i as int) =~= self.diagnostics@);
        (sheet, log)
    }

    /// Whether the bytes consumed so far are within the ceiling.
    pub fn check_memory_limit(&self) -> (r: Result<(), ParseError>)
        ensures
            r == grammar::memory_check(self.cursor()),
    {
        if self.bytes_consumed > grammar::MAX_MEMORY_BYTES {
            Err(ParseError::MemoryLimitExceeded)
        } else {
            Ok(())
        }
    }
}

/// The model of a parse result: the view of what was read, or the error.
pub open spec fn view_result<T: View>(r: Result<T, ParseError>) -> Result<T::V, ParseError> {
    match r {
        Ok(v) => Ok(v@),
        Err(e) => Err(e),
    }
}

/// The unit that a lower-cased unit token stands for; pixels for a token
/// outside the table.
pub fn unit_for(lower: &str) -> (unit: Unit)
    ensures
        unit == grammar::unit_of(lower@),
{
    if str_equal(lower, "px") {
        Unit::Px
    } else if str_equal(lower, "em") {
        Unit::Em
    } else if str_equal(lower, "rem") {
        Unit::Rem
    } else if str_equal(lower, "%") {
        Unit::Percent
    } else if str_equal(lower, "deg") {
        Unit::Deg
    } else if str_equal(lower, "rad") {
        Unit::Rad
    } else if str_equal(lower, "turn") {
        Unit::Turn
    } else if str_equal(lower, "s") {
        Unit::S
    } else if str_equal(lower, "ms") {
        Unit::Ms
    } else if str_equal(lower, "hz") {
        Unit::Hz
    } else if str_equal(lower, "dpi") {
        Unit::Dpi
    } else {
        Unit::Px
    }
}

} // verus!
