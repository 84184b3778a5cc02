//! The markup tokenizer: tags, comments, doctypes and text.

use vstd::prelude::*;
use crate::text::{
    CharClass,
    ascii_lowercase,
    lower_string_of,
    run_len,
    string_of,
    to_chars,
    trim_range,
    trimmed,
};

verus! {

#[derive(Debug, PartialEq)]
pub enum Token {
    Doctype,
    StartTag(String, Vec<(String, String)>),
    EndTag(String),
    Comment(String),
    Text(String),
    EOF,
    SelfClosingTag(String, Vec<(String, String)>),
}

pub enum TokenView {
    Doctype,
    StartTag(Seq<char>, Seq<(Seq<char>, Seq<char>)>),
    EndTag(Seq<char>),
    Comment(Seq<char>),
    Text(Seq<char>),
    EOF,
    SelfClosingTag(Seq<char>, Seq<(Seq<char>, Seq<char>)>),
}

impl View for Token {
    type V = TokenView;

    open spec fn view(&self) -> TokenView {
        match self {
            Token::Doctype => TokenView::Doctype,
            Token::StartTag(name, attrs) => TokenView::StartTag(
                name@,
                crate::html::dom::attribute_views(attrs@),
            ),
            Token::EndTag(name) => TokenView::EndTag(name@),
            Token::Comment(text) => TokenView::Comment(text@),
            Token::Text(text) => TokenView::Text(text@),
            Token::EOF => TokenView::EOF,
            Token::SelfClosingTag(name, attrs) => TokenView::SelfClosingTag(
                name@,
                crate::html::dom::attribute_views(attrs@),
            ),
        }
    }
}

/// The end of the run of `class` that starts at `pos`.
pub open spec fn run_end(s: Seq<char>, pos: int, class: CharClass) -> int {
    pos + run_len(s, pos, class)
}

/// The position just after the next `c` at or after `pos`, or the end of the
/// text if there is none.
pub open spec fn skip_until(s: Seq<char>, pos: int, c: char) -> int {
    let e = run_end(s, pos, CharClass::Except(c));
    if e < s.len() {
        e + 1
    } else {
        e
    }
}

/// The tag name at `pos`: a run of letters and digits, in ASCII lower case.
pub open spec fn tag_name(s: Seq<char>, pos: int) -> (Seq<char>, int) {
    let e = run_end(s, pos, CharClass::Alphanumeric);
    (ascii_lowercase(s.subrange(pos, e)), e)
}

/// The value of an attribute, from the first character after its `=` and
/// the whitespace behind it: quoted up to the matching quote, which is
/// consumed, or bare up to whitespace or `>`. Empty at the end of the text.
pub open spec fn attribute_value(s: Seq<char>, pos: int) -> (Seq<char>, int) {
    if pos >= s.len() || pos < 0 {
        (Seq::empty(), pos)
    } else if s[pos] == '"' || s[pos] == '\'' {
        let e = run_end(s, pos + 1, CharClass::Except(s[pos]));
        (
            s.subrange(pos + 1, e),
            if e < s.len() {
                e + 1
            } else {
                e
            },
        )
    } else {
        let e = run_end(s, pos, CharClass::UnquotedValue);
        (s.subrange(pos, e), e)
    }
}

/// One attribute at `pos`, which stands on neither whitespace nor `>`: a
/// name in ASCII lower case, then a value if `=` follows, else the empty
/// value.
pub open spec fn attribute(s: Seq<char>, pos: int) -> ((Seq<char>, Seq<char>), int) {
    let e = run_end(s, pos, CharClass::AttributeName);
    let name = ascii_lowercase(s.subrange(pos, e));
    let p = run_end(s, e, CharClass::Whitespace);
    if 0 <= p < s.len() && s[p] == '=' {
        let v = attribute_value(s, run_end(s, p + 1, CharClass::Whitespace));
        ((name, v.0), v.1)
    } else {
        ((name, Seq::empty()), p)
    }
}

/// The attributes of a tag from `pos` on, added to `acc`, up to the `>` that
/// closes the tag or the end of the text.
pub open spec fn attributes(s: Seq<char>, pos: int, acc: Seq<(Seq<char>, Seq<char>)>) -> (
    Seq<(Seq<char>, Seq<char>)>,
    int,
)
    decreases s.len() - pos,
{
    if pos >= s.len() || pos < 0 {
        (acc, pos)
    } else {
        let p = run_end(s, pos, CharClass::Whitespace);
        if p >= s.len() || s[p] == '>' {
            (acc, p)
        } else {
            let (a, next) = attribute(s, p);
            if pos < next <= s.len() {
                attributes(s, next, acc.push(a))
            } else {
                (acc.push(a), next)
            }
        }
    }
}

/// The tag whose name starts at `pos`, just after `<`.
pub open spec fn start_tag(s: Seq<char>, pos: int) -> (TokenView, int) {
    let (name, after_name) = tag_name(s, pos);
    let (attrs, after) = attributes(s, after_name, Seq::empty());
    if 0 <= after < s.len() && s[after] == '/' {
        (TokenView::SelfClosingTag(name, attrs), skip_until(s, after + 1, '>'))
    } else {
        (TokenView::StartTag(name, attrs), skip_until(s, after, '>'))
    }
}

/// The end tag whose `/` is at `pos`.
pub open spec fn end_tag(s: Seq<char>, pos: int) -> (TokenView, int) {
    let (name, after_name) = tag_name(s, pos + 1);
    (TokenView::EndTag(name), skip_until(s, after_name, '>'))
}

/// Where the text of a comment ends: before the first `--` that has a
/// character after it, or two characters before the end of the text.
pub open spec fn comment_text_end(s: Seq<char>, pos: int) -> int
    decreases s.len() - pos,
{
    if 0 <= pos && pos + 2 < s.len() && !(s[pos] == '-' && s[pos + 1] == '-') {
        comment_text_end(s, pos + 1)
    } else {
        pos
    }
}

/// `pos` moved on by `n`, but not past `len`.
pub open spec fn clamp(pos: int, n: int, len: int) -> int {
    if pos + n <= len {
        pos + n
    } else if pos <= len {
        len
    } else {
        pos
    }
}

/// The comment whose text starts at `pos`, just after `<!--`. The three
/// characters after the text are taken for its `-->`.
pub open spec fn comment(s: Seq<char>, pos: int) -> (TokenView, int) {
    let e = comment_text_end(s, pos);
    (TokenView::Comment(s.subrange(pos, e)), clamp(e, 3, s.len() as int))
}

/// The doctype from `pos` up to and including the next `>`.
pub open spec fn doctype(s: Seq<char>, pos: int) -> (TokenView, int) {
    (TokenView::Doctype, skip_until(s, pos, '>'))
}

/// What follows `<!`, whose `!` is at `pos`: a comment after `--`, a doctype
/// otherwise; the text `<!` if fewer than three characters are left.
pub open spec fn doctype_or_comment(s: Seq<char>, pos: int) -> (TokenView, int) {
    let p = pos + 1;
    if p + 2 >= s.len() {
        (TokenView::Text("<!"@), p)
    } else if s[p] == '-' && s[p + 1] == '-' {
        comment(s, p + 2)
    } else {
        doctype(s, p)
    }
}

/// The text from `pos` to the next `<`, trimmed.
pub open spec fn text(s: Seq<char>, pos: int) -> (TokenView, int) {
    let e = run_end(s, pos, CharClass::Except('<'));
    (TokenView::Text(trimmed(s.subrange(pos, e))), e)
}

/// The next token at or after `pos`, and the position after it.
pub open spec fn next_token(s: Seq<char>, pos: int) -> (TokenView, int) {
    let p = run_end(s, pos, CharClass::Whitespace);
    if p >= s.len() || p < 0 {
        (TokenView::EOF, p)
    } else if s[p] == '<' {
        if p + 1 >= s.len() {
            (TokenView::Text("<"@), p + 1)
        } else if s[p + 1] == '!' {
            doctype_or_comment(s, p + 1)
        } else if s[p + 1] == '/' {
            end_tag(s, p + 1)
        } else {
            start_tag(s, p + 1)
        }
    } else {
        text(s, p)
    }
}

/// A tokenizer over one markup text.
pub struct Tokenizer {
    input: String,
    chars: Vec<char>,
    position: usize,
}

impl Tokenizer {
    /// The text being tokenized.
    pub closed spec fn text(&self) -> Seq<char> {
        self.input@
    }

    /// Number of characters consumed so far.
    pub closed spec fn pos(&self) -> int {
        self.position as int
    }

    pub closed spec fn wf(&self) -> bool {
        &&& self.chars@ == self.input@
        &&& self.position <= self.chars.len()
    }

    /// `self` is a valid state over the same text as `before`, no further
    /// back in it.
    pub open spec fn continues(&self, before: &Self) -> bool {
        &&& self.wf()
        &&& self.text() == before.text()
        &&& before.pos() <= self.pos() <= self.text().len()
    }

    /// The position of a valid tokenizer lies within its text.
    pub proof fn lemma_pos_in_text(&self)
        requires
            self.wf(),
        ensures
            0 <= self.pos() <= self.text().len(),
    {
    }

    pub fn new(input: String) -> (t: Self)
        ensures
            t.wf(),
            t.text() == input@,
            t.pos() == 0,
    {
        let chars = to_chars(input.as_str());
        Tokenizer { input, chars, position: 0 }
    }

    /// The text being tokenized.
    pub fn input(&self) -> (s: &str)
        ensures
            s@ == self.text(),
    {
        self.input.as_str()
    }

    /// Whether the whole text has been consumed.
    pub fn at_end(&self) -> (b: bool)
        requires
            self.wf(),
        ensures
            b == (self.pos() >= self.text().len()),
    {
        self.position >= self.chars.len()
    }

    /// Moves over the run of `class` at the position and returns where it
    /// began.
    fn scan_while(&mut self, class: CharClass) -> (start: usize)
        requires
            old(self).wf(),
        ensures
            final(self).continues(old(self)),
            start == old(self).pos(),
            final(self).pos() == run_end(old(self).text(), old(self).pos(), class),
            final(self).pos() == final(self).text().len() || !class.contains(
                final(self).text()[final(self).pos()],
            ),
            final(self).pos() > old(self).pos() || old(self).pos() == old(self).text().len()
                || !class.contains(old(self).text()[old(self).pos()]),
    {
        let start = self.position;
        let ghost s = self.chars@;
        while self.position < self.chars.len() && class.matches(self.chars[self.position])
            invariant
                self.wf(),
                self.chars@ == s,
                self.input@ == s,
                start <= self.position <= s.len(),
                run_len(s, start as int, class) == (self.position - start) + run_len(
                    s,
                    self.position as int,
                    class,
                ),
            decreases s.len() - self.position,
        {
            self.position += 1;
        }
        start
    }

    fn skip_whitespace(&mut self)
        requires
            old(self).wf(),
        ensures
            final(self).continues(old(self)),
            final(self).pos() == run_end(old(self).text(), old(self).pos(), CharClass::Whitespace),
            final(self).pos() == final(self).text().len() || !CharClass::Whitespace.contains(
                final(self).text()[final(self).pos()],
            ),
    {
        self.scan_while(CharClass::Whitespace);
    }

    fn skip_until(&mut self, c: char)
        requires
            old(self).wf(),
        ensures
            final(self).continues(old(self)),
            final(self).pos() == skip_until(old(self).text(), old(self).pos(), c),
    {
        self.scan_while(CharClass::Except(c));
        if self.position < self.chars.len() {
            self.position += 1;
        }
    }

    fn parse_tag_name(&mut self) -> (name: String)
        requires
            old(self).wf(),
        ensures
            final(self).continues(old(self)),
            (name@, final(self).pos()) == tag_name(old(self).text(), old(self).pos()),
    {
        let start = self.scan_while(CharClass::Alphanumeric);
        lower_string_of(&self.chars, start, self.position)
    }

    fn parse_attribute_value(&mut self) -> (value: String)
        requires
            old(self).wf(),
        ensures
            final(self).continues(old(self)),
            (value@, final(self).pos()) == attribute_value(old(self).text(), old(self).pos()),
    {
        if self.position >= self.chars.len() {
            return String::new();
        }
        let quote = self.chars[self.position];
        if quote == '"' || quote == '\'' {
            self.position += 1;
            let start = self.scan_while(CharClass::Except(quote));
            let value = string_of(&self.chars, start, self.position);
            if self.position < self.chars.len() {
                self.position += 1;
            }
            value
        } else {
            let start = self.scan_while(CharClass::UnquotedValue);
            string_of(&self.chars, start, self.position)
        }
    }

    fn parse_attribute(&mut self) -> (a: (String, String))
        requires
            old(self).wf(),
        ensures
            final(self).continues(old(self)),
            ((a.0@, a.1@), final(self).pos()) == attribute(old(self).text(), old(self).pos()),
            final(self).pos() > old(self).pos() || old(self).pos() == old(self).text().len()
                || !CharClass::AttributeName.contains(old(self).text()[old(self).pos()])
                && old(self).text()[old(self).pos()] != '=',
    {
        let start = self.scan_while(CharClass::AttributeName);
        let name = lower_string_of(&self.chars, start, self.position);
        self.skip_whitespace();
        if self.position < self.chars.len() && self.chars[self.position] == '=' {
            self.position += 1;
            self.skip_whitespace();
            let value = self.parse_attribute_value();
            (name, value)
        } else {
            (name, String::new())
        }
    }

    fn parse_attributes(&mut self) -> (attrs: Vec<(String, String)>)
        requires
            old(self).wf(),
        ensures
            final(self).continues(old(self)),
            (crate::html::dom::attribute_views(attrs@), final(self).pos()) == attributes(
                old(self).text(),
                old(self).pos(),
                Seq::empty(),
            ),
    {
        let mut attrs: Vec<(String, String)> = Vec::new();
        let ghost s = self.text();
        assert(crate::html::dom::attribute_views(attrs@) =~= Seq::empty());
        while self.position < self.chars.len()
            invariant_except_break
                attributes(s, old(self).pos(), Seq::empty()) == attributes(
                    s,
                    self.pos(),
                    crate::html::dom::attribute_views(attrs@),
                ),
            invariant
                self.continues(old(self)),
                s == self.text(),
            ensures
                self.continues(old(self)),
                attributes(s, old(self).pos(), Seq::empty()) == (
                    crate::html::dom::attribute_views(attrs@),
                    self.pos(),
                ),
            decreases s.len() - self.pos(),
        {
            let ghost acc = crate::html::dom::attribute_views(attrs@);
            self.skip_whitespace();
            if self.position >= self.chars.len() || self.chars[self.position] == '>' {
                break ;
            }
            let a = self.parse_attribute();
            attrs.push(a);
            assert(crate::html::dom::attribute_views(attrs@) =~= acc.push((a.0@, a.1@)));
        }
        attrs
    }

    fn parse_start_tag(&mut self) -> (token: Token)
        requires
            old(self).wf(),
        ensures
            final(self).continues(old(self)),
            (token@, final(self).pos()) == start_tag(old(self).text(), old(self).pos()),
    {
        let name = self.parse_tag_name();
        let attrs = self.parse_attributes();
        if self.position < self.chars.len() && self.chars[self.position] == '/' {
            self.position += 1;
            self.skip_until('>');
            Token::SelfClosingTag(name, attrs)
        } else {
            self.skip_until('>');
            Token::StartTag(name, attrs)
        }
    }

    fn parse_end_tag(&mut self) -> (token: Token)
        requires
            old(self).wf(),
            old(self).pos() < old(self).text().len(),
        ensures
            final(self).continues(old(self)),
            (token@, final(self).pos()) == end_tag(old(self).text(), old(self).pos()),
            final(self).pos() > old(self).pos(),
    {
        self.position += 1;
        let name = self.parse_tag_name();
        self.skip_until('>');
        Token::EndTag(name)
    }

    fn parse_comment(&mut self) -> (token: Token)
        requires
            old(self).wf(),
        ensures
            final(self).continues(old(self)),
            (token@, final(self).pos()) == comment(old(self).text(), old(self).pos()),
    {
        let start = self.position;
        let ghost s = self.text();
        while self.chars.len() - self.position > 2 && !(self.chars[self.position] == '-'
            && self.chars[self.position + 1] == '-')
            invariant
                self.continues(old(self)),
                s == self.text(),
                start == old(self).pos(),
                comment_text_end(s, start as int) == comment_text_end(s, self.pos()),
            decreases s.len() - self.pos(),
        {
            self.position += 1;
        }
        let text = string_of(&self.chars, start, self.position);
        if self.chars.len() - self.position >= 3 {
            self.position += 3;
        } else {
            self.position = self.chars.len();
        }
        Token::Comment(text)
    }

    fn parse_doctype(&mut self) -> (token: Token)
        requires
            old(self).wf(),
        ensures
            final(self).continues(old(self)),
            (token@, final(self).pos()) == doctype(old(self).text(), old(self).pos()),
    {
        self.skip_until('>');
        Token::Doctype
    }

    fn parse_doctype_or_comment(&mut self) -> (token: Token)
        requires
            old(self).wf(),
            old(self).pos() < old(self).text().len(),
        ensures
            final(self).continues(old(self)),
            (token@, final(self).pos()) == doctype_or_comment(old(self).text(), old(self).pos()),
            final(self).pos() > old(self).pos(),
    {
        self.position += 1;
        if self.chars.len() - self.position <= 2 {
            return Token::Text("<!".to_string());
        }
        if self.chars[self.position] == '-' && self.chars[self.position + 1] == '-' {
            self.position += 2;
            self.parse_comment()
        } else {
            self.parse_doctype()
        }
    }

    fn parse_text(&mut self) -> (token: Token)
        requires
            old(self).wf(),
        ensures
            final(self).continues(old(self)),
            (token@, final(self).pos()) == text(old(self).text(), old(self).pos()),
            final(self).pos() > old(self).pos() || old(self).pos() == old(self).text().len()
                || old(self).text()[old(self).pos()] == '<',
    {
        let start = self.scan_while(CharClass::Except('<'));
        let (lo, hi) = trim_range(&self.chars, start, self.position);
        Token::Text(string_of(&self.chars, lo, hi))
    }

    /// Reads the next token. Every token but `EOF` consumes at least one
    /// character; `EOF` is returned at the end of the text, and from then on.
    pub fn next_token(&mut self) -> (token: Token)
        requires
            old(self).wf(),
        ensures
            final(self).continues(old(self)),
            (token@, final(self).pos()) == next_token(old(self).text(), old(self).pos()),
            token@ is EOF ==> final(self).pos() == final(self).text().len(),
            !(token@ is EOF) ==> final(self).pos() > old(self).pos(),
    {
        self.skip_whitespace();
        if self.position >= self.chars.len() {
            return Token::EOF;
        }
        if self.chars[self.position] == '<' {
            self.position += 1;
            if self.position >= self.chars.len() {
                return Token::Text("<".to_string());
            }
            let next = self.chars[self.position];
            if next == '!' {
                self.parse_doctype_or_comment()
            } else if next == '/' {
                self.parse_end_tag()
            } else {
                self.parse_start_tag()
            }
        } else {
            self.parse_text()
        }
    }
}

} // verus!
