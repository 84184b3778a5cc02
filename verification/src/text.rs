//! Character classes and small string utilities shared by the parsers.

use vstd::prelude::*;

verus! {

/// The lower-cased form of a text, as the standard library computes it with
/// full Unicode case mapping.
pub uninterp spec fn lowercase_of(s: Seq<char>) -> Seq<char>;

/// `str::to_lowercase` maps a string to its lower-cased form. The mapping
/// depends on the characters alone; its tables are not restated here, so the
/// result is known only by name.
pub assume_specification[ str::to_lowercase ](s: &str) -> (r: std::string::String)
    ensures
        r@ == lowercase_of(s@),
;

/// Whether a character is alphabetic or numeric in the sense of the Unicode
/// character database, as the standard library decides it.
pub uninterp spec fn is_alphanumeric_char(c: char) -> bool;

/// `char::is_alphanumeric` tells whether a character is alphabetic or
/// numeric. The answer depends on the character alone; the Unicode tables
/// behind it are not restated here, so it is known only by name.
pub assume_specification[ char::is_alphanumeric ](c: char) -> (b: bool)
    ensures
        b == is_alphanumeric_char(c),
;

/// `String::push` appends one character to the end of the string.
pub assume_specification[ std::string::String::push ](s: &mut std::string::String, c: char)
    ensures
        final(s)@ == old(s)@.push(c),
;

/// Characters with the Unicode `White_Space` property.
pub open spec fn is_whitespace_char(c: char) -> bool {
    let n = c as u32;
    (0x09 <= n && n <= 0x0d) || n == 0x20 || n == 0x85 || n == 0xa0 || n == 0x1680 || (0x2000 <= n
        && n <= 0x200a) || n == 0x2028 || n == 0x2029 || n == 0x202f || n == 0x205f || n == 0x3000
}

/// ASCII letters and digits, hyphen, underscore, and every character beyond
/// the ASCII range.
pub open spec fn is_identifier_char(c: char) -> bool {
    ('a' <= c && c <= 'z') || ('A' <= c && c <= 'Z') || ('0' <= c && c <= '9') || c == '-' || c
        == '_' || c > '\u{7f}'
}

pub open spec fn is_hex_digit(c: char) -> bool {
    ('0' <= c && c <= '9') || ('a' <= c && c <= 'f') || ('A' <= c && c <= 'F')
}

/// The characters a numeric literal is scanned from: digits, `.`, `+`, `-`.
pub open spec fn is_numeric_char(c: char) -> bool {
    ('0' <= c && c <= '9') || c == '.' || c == '+' || c == '-'
}

/// The characters that may precede `=` in an attribute operator.
pub open spec fn is_operator_char(c: char) -> bool {
    c == '~' || c == '|' || c == '^' || c == '$' || c == '*'
}

/// The value of a hexadecimal digit; 0 for any other character.
pub open spec fn hex_value(c: char) -> int {
    if '0' <= c && c <= '9' {
        c as int - '0' as int
    } else if 'a' <= c && c <= 'f' {
        c as int - 'a' as int + 10
    } else if 'A' <= c && c <= 'F' {
        c as int - 'A' as int + 10
    } else {
        0
    }
}

/// Number of bytes in the UTF-8 encoding of `c`.
pub open spec fn utf8_width(c: char) -> nat {
    let n = c as u32;
    if n < 0x80 {
        1
    } else if n < 0x800 {
        2
    } else if n < 0x10000 {
        3
    } else {
        4
    }
}

/// Number of bytes in the UTF-8 encoding of `s`.
pub open spec fn byte_len(s: Seq<char>) -> nat
    decreases s.len(),
{
    if s.len() == 0 {
        0
    } else {
        byte_len(s.drop_last()) + utf8_width(s.last())
    }
}

/// Appending a character adds its width.
pub proof fn lemma_byte_len_push(s: Seq<char>, c: char)
    ensures
        byte_len(s.push(c)) == byte_len(s) + utf8_width(c),
{
    assert(s.push(c).drop_last() =~= s);
}

/// The encoding of a concatenation is as long as the two encodings
/// together.
pub proof fn lemma_byte_len_concat(a: Seq<char>, b: Seq<char>)
    ensures
        byte_len(a + b) == byte_len(a) + byte_len(b),
    decreases b.len(),
{
    if b.len() == 0 {
        assert(a + b =~= a);
    } else {
        lemma_byte_len_concat(a, b.drop_last());
        assert((a + b).drop_last() =~= a + b.drop_last());
    }
}

/// A prefix is encoded in no more bytes than the whole.
pub proof fn lemma_byte_len_prefix(s: Seq<char>, k: int)
    requires
        0 <= k <= s.len(),
    ensures
        byte_len(s.take(k)) <= byte_len(s),
{
    lemma_byte_len_concat(s.take(k), s.skip(k));
    assert(s.take(k) + s.skip(k) =~= s);
}

/// A shorter prefix is encoded in no more bytes than a longer one.
pub proof fn lemma_byte_len_monotonic(s: Seq<char>, i: int, j: int)
    requires
        0 <= i <= j <= s.len(),
    ensures
        byte_len(s.take(i)) <= byte_len(s.take(j)),
{
    lemma_byte_len_prefix(s.take(j), i);
    assert(s.take(j).take(i) =~= s.take(i));
}

/// `byte_len` is the length of the UTF-8 encoding.
pub proof fn lemma_byte_len_is_encoded_len(s: Seq<char>)
    ensures
        vstd::utf8::encode_utf8(s).len() == byte_len(s),
    decreases s.len(),
{
    if s.len() > 0 {
        lemma_byte_len_is_encoded_len(s.drop_first());
        lemma_byte_len_concat(seq![s[0]], s.drop_first());
        assert(seq![s[0]] + s.drop_first() =~= s);
        vstd::utf8::char_is_scalar(s[0]);
        lemma_byte_len_push(Seq::empty(), s[0]);
        assert(Seq::<char>::empty().push(s[0]) =~= seq![s[0]]);
        assert(byte_len(Seq::<char>::empty()) == 0);
        assert(byte_len(seq![s[0]]) == utf8_width(s[0]));
    }
}

/// A set of characters that a scanner can be asked to run through.
#[derive(Clone, Copy, Debug)]
pub enum CharClass {
    Whitespace,
    Identifier,
    HexDigit,
    Numeric,
    Operator,
    /// The character `#` alone.
    Hashes,
    /// Letters and digits of any script.
    Alphanumeric,
    /// What an attribute name is made of: anything but whitespace, `=`, `>`.
    AttributeName,
    /// What an unquoted attribute value is made of: anything but whitespace
    /// and `>`.
    UnquotedValue,
    /// Every character but the given one.
    Except(char),
    /// Every character but the given two.
    ExceptTwo(char, char),
}

impl CharClass {
    pub open spec fn contains(self, c: char) -> bool {
        match self {
            CharClass::Whitespace => is_whitespace_char(c),
            CharClass::Identifier => is_identifier_char(c),
            CharClass::HexDigit => is_hex_digit(c),
            CharClass::Numeric => is_numeric_char(c),
            CharClass::Operator => is_operator_char(c),
            CharClass::Hashes => c == '#',
            CharClass::Alphanumeric => is_alphanumeric_char(c),
            CharClass::AttributeName => !is_whitespace_char(c) && c != '=' && c != '>',
            CharClass::UnquotedValue => !is_whitespace_char(c) && c != '>',
            CharClass::Except(x) => c != x,
            CharClass::ExceptTwo(x, y) => c != x && c != y,
        }
    }

    pub fn matches(self, c: char) -> (b: bool)
        ensures
            b == self.contains(c),
    {
        match self {
            CharClass::Whitespace => is_whitespace(c),
            CharClass::Identifier => valid_identifier_char(c),
            CharClass::HexDigit => is_hex(c),
            CharClass::Numeric => ('0' <= c && c <= '9') || c == '.' || c == '+' || c == '-',
            CharClass::Operator => c == '~' || c == '|' || c == '^' || c == '$' || c == '*',
            CharClass::Hashes => c == '#',
            CharClass::Alphanumeric => c.is_alphanumeric(),
            CharClass::AttributeName => !is_whitespace(c) && c != '=' && c != '>',
            CharClass::UnquotedValue => !is_whitespace(c) && c != '>',
            CharClass::Except(x) => c != x,
            CharClass::ExceptTwo(x, y) => c != x && c != y,
        }
    }
}

pub fn is_whitespace(c: char) -> (b: bool)
    ensures
        b == is_whitespace_char(c),
{
    let n: u32 = c as u32;
    (0x09 <= n && n <= 0x0d) || n == 0x20 || n == 0x85 || n == 0xa0 || n == 0x1680 || (0x2000 <= n
        && n <= 0x200a) || n == 0x2028 || n == 0x2029 || n == 0x202f || n == 0x205f || n == 0x3000
}

pub fn valid_identifier_char(c: char) -> (b: bool)
    ensures
        b == is_identifier_char(c),
{
    ('a' <= c && c <= 'z') || ('A' <= c && c <= 'Z') || ('0' <= c && c <= '9') || c == '-' || c
        == '_' || c > '\u{7f}'
}

pub fn is_hex(c: char) -> (b: bool)
    ensures
        b == is_hex_digit(c),
{
    ('0' <= c && c <= '9') || ('a' <= c && c <= 'f') || ('A' <= c && c <= 'F')
}

pub fn hex_digit_value(c: char) -> (v: u8)
    ensures
        v as int == hex_value(c),
        v < 16,
{
    let n: u32 = c as u32;
    if '0' <= c && c <= '9' {
        (n - 0x30) as u8
    } else if 'a' <= c && c <= 'f' {
        (n - 0x61 + 10) as u8
    } else if 'A' <= c && c <= 'F' {
        (n - 0x41 + 10) as u8
    } else {
        0
    }
}

pub fn utf8_len(c: char) -> (n: usize)
    ensures
        n as nat == utf8_width(c),
        1 <= n <= 4,
{
    let v: u32 = c as u32;
    if v < 0x80 {
        1
    } else if v < 0x800 {
        2
    } else if v < 0x10000 {
        3
    } else {
        4
    }
}

/// Length of the longest run of characters of `class` that starts at `pos`.
pub open spec fn run_len(s: Seq<char>, pos: int, class: CharClass) -> nat
    decreases s.len() - pos,
{
    if 0 <= pos < s.len() && class.contains(s[pos]) {
        1 + run_len(s, pos + 1, class)
    } else {
        0
    }
}

/// A run stays inside the text, holds only characters of the class, and ends
/// at the end of the text or before a character outside the class.
pub proof fn lemma_run_len(s: Seq<char>, pos: int, class: CharClass)
    requires
        0 <= pos <= s.len(),
    ensures
        pos + run_len(s, pos, class) <= s.len(),
        forall|i: int| pos <= i < pos + run_len(s, pos, class) ==> class.contains(#[trigger] s[i]),
        pos + run_len(s, pos, class) < s.len() ==> !class.contains(
            s[pos + run_len(s, pos, class)],
        ),
    decreases s.len() - pos,
{
    if pos < s.len() && class.contains(s[pos]) {
        lemma_run_len(s, pos + 1, class);
    }
}

/// Where `s[lo..hi]` ends once its trailing whitespace is dropped.
pub open spec fn trim_end(s: Seq<char>, lo: int, hi: int) -> int
    decreases hi - lo,
{
    if lo < hi && 0 < hi <= s.len() && is_whitespace_char(s[hi - 1]) {
        trim_end(s, lo, hi - 1)
    } else {
        hi
    }
}

/// `s` without its leading and trailing whitespace.
pub open spec fn trimmed(s: Seq<char>) -> Seq<char> {
    let lo = run_len(s, 0, CharClass::Whitespace) as int;
    s.subrange(lo, trim_end(s, lo, s.len() as int))
}

/// The bounds of `v[from..to]` without its leading and trailing whitespace.
pub fn trim_range(v: &Vec<char>, from: usize, to: usize) -> (r: (usize, usize))
    requires
        from <= to <= v.len(),
    ensures
        from <= r.0 <= r.1 <= to,
        v@.subrange(r.0 as int, r.1 as int) == trimmed(v@.subrange(from as int, to as int)),
{
    let ghost raw = v@.subrange(from as int, to as int);
    let mut lo: usize = from;
    while lo < to && is_whitespace(v[lo])
        invariant
            from <= lo <= to <= v.len(),
            raw == v@.subrange(from as int, to as int),
            run_len(raw, 0, CharClass::Whitespace) == (lo - from) + run_len(
                raw,
                lo - from,
                CharClass::Whitespace,
            ),
        decreases to - lo,
    {
        lo += 1;
    }
    let mut hi: usize = to;
    while lo < hi && is_whitespace(v[hi - 1])
        invariant
            from <= lo <= hi <= to <= v.len(),
            raw == v@.subrange(from as int, to as int),
            trim_end(raw, lo - from, to - from) == trim_end(raw, lo - from, hi - from),
        decreases hi - lo,
    {
        hi -= 1;
    }
    assert(v@.subrange(lo as int, hi as int) =~= raw.subrange(lo - from, hi - from));
    (lo, hi)
}

/// Whether `s` starts with `p`.
pub open spec fn starts_with(s: Seq<char>, p: Seq<char>) -> bool {
    p.len() <= s.len() && s.subrange(0, p.len() as int) == p
}

/// `s` without any of the copies of `p` that it starts with.
pub open spec fn strip_prefixes(s: Seq<char>, p: Seq<char>) -> Seq<char>
    decreases s.len(),
{
    if p.len() > 0 && starts_with(s, p) {
        strip_prefixes(s.skip(p.len() as int), p)
    } else {
        s
    }
}

/// `s` without any of the copies of `c` that it ends with.
pub open spec fn strip_trailing(s: Seq<char>, c: char) -> Seq<char>
    decreases s.len(),
{
    if s.len() > 0 && s.last() == c {
        strip_trailing(s.drop_last(), c)
    } else {
        s
    }
}

/// Whether `s` ends with `p`.
pub open spec fn ends_with(s: Seq<char>, p: Seq<char>) -> bool {
    p.len() <= s.len() && s.subrange(s.len() - p.len(), s.len() as int) == p
}

/// `s` without any of the copies of `p` that it ends with.
pub open spec fn strip_suffixes(s: Seq<char>, p: Seq<char>) -> Seq<char>
    decreases s.len(),
{
    if p.len() > 0 && ends_with(s, p) {
        strip_suffixes(s.take(s.len() - p.len()), p)
    } else {
        s
    }
}

/// The pieces of `s` from `start` on between occurrences of `sep`, each
/// trimmed.
pub open spec fn split_trimmed_from(s: Seq<char>, start: int, sep: char) -> Seq<Seq<char>>
    decreases s.len() - start,
{
    let end = start + run_len(s, start, CharClass::Except(sep));
    let piece = trimmed(s.subrange(start, end));
    if 0 <= start <= end < s.len() {
        let rest = split_trimmed_from(s, end + 1, sep);
        seq![piece] + rest
    } else {
        seq![piece]
    }
}

/// The pieces of `s` between occurrences of `sep`, each trimmed. There is
/// always at least one piece.
pub open spec fn split_trimmed(s: Seq<char>, sep: char) -> Seq<Seq<char>> {
    split_trimmed_from(s, 0, sep)
}

/// Whether `v[lo..hi]` starts with `p`.
pub fn range_starts_with(v: &Vec<char>, lo: usize, hi: usize, p: &Vec<char>) -> (r: bool)
    requires
        lo <= hi <= v.len(),
    ensures
        r == starts_with(v@.subrange(lo as int, hi as int), p@),
{
    if p.len() > hi - lo {
        return false;
    }
    let ghost s = v@.subrange(lo as int, hi as int);
    let mut i: usize = 0;
    while i < p.len()
        invariant
            i <= p.len() <= hi - lo,
            lo <= hi <= v.len(),
            s == v@.subrange(lo as int, hi as int),
            forall|k: int| 0 <= k < i ==> s[k] == p@[k],
        decreases p.len() - i,
    {
        if v[lo + i] != p[i] {
            assert(s.subrange(0, p@.len() as int)[i as int] != p@[i as int]);
            return false;
        }
        i += 1;
    }
    assert(s.subrange(0, p@.len() as int) =~= p@);
    true
}

/// Where `v[lo..hi]` starts once the copies of `p` it starts with are
/// dropped.
pub fn strip_prefixes_range(v: &Vec<char>, lo: usize, hi: usize, p: &Vec<char>) -> (start: usize)
    requires
        lo <= hi <= v.len(),
    ensures
        lo <= start <= hi,
        v@.subrange(start as int, hi as int) == strip_prefixes(
            v@.subrange(lo as int, hi as int),
            p@,
        ),
{
    let mut start = lo;
    if p.len() == 0 {
        return start;
    }
    while range_starts_with(v, start, hi, p)
        invariant
            lo <= start <= hi <= v.len(),
            p.len() > 0,
            strip_prefixes(v@.subrange(lo as int, hi as int), p@) == strip_prefixes(
                v@.subrange(start as int, hi as int),
                p@,
            ),
        decreases hi - start,
    {
        assert(v@.subrange(start as int, hi as int).skip(p@.len() as int) =~= v@.subrange(
            start + p@.len(),
            hi as int,
        ));
        start += p.len();
    }
    start
}

/// Whether `v[lo..hi]` ends with `p`.
pub fn range_ends_with(v: &Vec<char>, lo: usize, hi: usize, p: &Vec<char>) -> (r: bool)
    requires
        lo <= hi <= v.len(),
    ensures
        r == ends_with(v@.subrange(lo as int, hi as int), p@),
{
    if p.len() > hi - lo {
        return false;
    }
    let ghost s = v@.subrange(lo as int, hi as int);
    let from = hi - p.len();
    let mut i: usize = 0;
    while i < p.len()
        invariant
            i <= p.len() <= hi - lo,
            lo <= from <= hi <= v.len(),
            from == hi - p.len(),
            s == v@.subrange(lo as int, hi as int),
            forall|k: int| 0 <= k < i ==> s[s.len() - p@.len() + k] == p@[k],
        decreases p.len() - i,
    {
        if v[from + i] != p[i] {
            assert(s.subrange(s.len() - p@.len(), s.len() as int)[i as int] != p@[i as int]);
            return false;
        }
        i += 1;
    }
    assert(s.subrange(s.len() - p@.len(), s.len() as int) =~= p@);
    true
}

/// Where `v[lo..hi]` ends once the copies of `p` it ends with are dropped.
pub fn strip_suffixes_range(v: &Vec<char>, lo: usize, hi: usize, p: &Vec<char>) -> (end: usize)
    requires
        lo <= hi <= v.len(),
    ensures
        lo <= end <= hi,
        v@.subrange(lo as int, end as int) == strip_suffixes(
            v@.subrange(lo as int, hi as int),
            p@,
        ),
{
    let mut end = hi;
    if p.len() == 0 {
        return end;
    }
    while range_ends_with(v, lo, end, p)
        invariant
            lo <= end <= hi <= v.len(),
            p.len() > 0,
            strip_suffixes(v@.subrange(lo as int, hi as int), p@) == strip_suffixes(
                v@.subrange(lo as int, end as int),
                p@,
            ),
        decreases end - lo,
    {
        assert(v@.subrange(lo as int, end as int).take(end - lo - p@.len()) =~= v@.subrange(
            lo as int,
            end - p@.len(),
        ));
        end -= p.len();
    }
    end
}

/// Where `v[lo..hi]` ends once the copies of `c` it ends with are dropped.
pub fn strip_trailing_range(v: &Vec<char>, lo: usize, hi: usize, c: char) -> (end: usize)
    requires
        lo <= hi <= v.len(),
    ensures
        lo <= end <= hi,
        v@.subrange(lo as int, end as int) == strip_trailing(v@.subrange(lo as int, hi as int), c),
{
    let mut end = hi;
    while end > lo && v[end - 1] == c
        invariant
            lo <= end <= hi <= v.len(),
            strip_trailing(v@.subrange(lo as int, hi as int), c) == strip_trailing(
                v@.subrange(lo as int, end as int),
                c,
            ),
        decreases end - lo,
    {
        assert(v@.subrange(lo as int, end as int).drop_last() =~= v@.subrange(
            lo as int,
            end - 1,
        ));
        end -= 1;
    }
    end
}

/// The pieces of `v[lo..hi]` between occurrences of `sep`, each trimmed.
pub fn split_trimmed_range(v: &Vec<char>, lo: usize, hi: usize, sep: char) -> (pieces: Vec<String>)
    requires
        lo <= hi <= v.len(),
    ensures
        pieces@.map_values(|s: String| s@) == split_trimmed(v@.subrange(lo as int, hi as int), sep),
        pieces@.len() > 0,
{
    let mut pieces: Vec<String> = Vec::new();
    let mut start: usize = lo;
    let ghost s = v@.subrange(lo as int, hi as int);
    let ghost whole = split_trimmed(s, sep);
    assert(pieces@.map_values(|s: String| s@) + whole =~= whole);
    loop
        invariant
            lo <= start <= hi <= v.len(),
            s == v@.subrange(lo as int, hi as int),
            whole == split_trimmed(s, sep),
            whole == pieces@.map_values(|s: String| s@) + split_trimmed_from(s, start - lo, sep),
        decreases hi - start,
    {
        let ghost done = pieces@.map_values(|s: String| s@);
        let mut end: usize = start;
        while end < hi && v[end] != sep
            invariant
                lo <= start <= end <= hi <= v.len(),
                s == v@.subrange(lo as int, hi as int),
                run_len(s, start - lo, CharClass::Except(sep)) == (end - start) + run_len(
                    s,
                    end - lo,
                    CharClass::Except(sep),
                ),
            decreases hi - end,
        {
            end += 1;
        }
        let (a, b) = trim_range(v, start, end);
        let piece = string_of(v, a, b);
        assert(s.subrange(start - lo, end - lo) =~= v@.subrange(start as int, end as int));
        pieces.push(piece);
        assert(pieces@.map_values(|s: String| s@) =~= done.push(piece@));
        assert(end < hi ==> run_len(s, end - lo, CharClass::Except(sep)) == 0) by {
            if end < hi {
                assert(s[end - lo] == v@[end as int]);
            }
        }
        if end >= hi {
            assert(run_len(s, end - lo, CharClass::Except(sep)) == 0);
            assert(split_trimmed_from(s, start - lo, sep) =~= seq![piece@]);
            assert(done.push(piece@) =~= done + seq![piece@]);
            return pieces;
        }
        assert(done + (seq![piece@] + split_trimmed_from(s, end + 1 - lo, sep)) =~= done.push(
            piece@,
        ) + split_trimmed_from(s, end + 1 - lo, sep));
        start = end + 1;
    }
}

/// The characters of `s` as a vector. A string's encoding fits in memory,
/// so its length in bytes fits in `usize`.
pub fn to_chars(s: &str) -> (v: Vec<char>)
    ensures
        v@ == s@,
        byte_len(s@) <= usize::MAX,
{
    let mut v: Vec<char> = Vec::with_capacity(s.as_bytes().len());
    proof {
        lemma_byte_len_is_encoded_len(s@);
    }
    for c in it: s.chars()
        invariant
            v@ == it.seq().take(it.index() as int),
            it.seq() == s@,
    {
        v.push(c);
    }
    v
}

/// The ASCII lower-case form of a character: `A` to `Z` become `a` to `z`,
/// every other character stays.
pub open spec fn ascii_lower(c: char) -> char {
    if 'A' <= c && c <= 'Z' {
        ((c as u8) + 32) as char
    } else {
        c
    }
}

/// A text with each character in ASCII lower case.
pub open spec fn ascii_lowercase(s: Seq<char>) -> Seq<char> {
    s.map_values(|c: char| ascii_lower(c))
}

pub fn to_ascii_lower(c: char) -> (r: char)
    ensures
        r == ascii_lower(c),
{
    if 'A' <= c && c <= 'Z' {
        ((c as u8) + 32) as char
    } else {
        c
    }
}

/// The string made of `v[from..to]` in ASCII lower case.
pub fn lower_string_of(v: &Vec<char>, from: usize, to: usize) -> (s: String)
    requires
        from <= to <= v.len(),
    ensures
        s@ == ascii_lowercase(v@.subrange(from as int, to as int)),
{
    let mut s = String::new();
    let mut i: usize = from;
    while i < to
        invariant
            from <= i <= to <= v.len(),
            s@ == ascii_lowercase(v@.subrange(from as int, i as int)),
        decreases to - i,
    {
        s.push(to_ascii_lower(v[i]));
        i += 1;
        assert(v@.subrange(from as int, i as int) =~= v@.subrange(from as int, i - 1).push(
            v@[i - 1],
        ));
        assert(ascii_lowercase(v@.subrange(from as int, i - 1).push(v@[i - 1]))
            =~= ascii_lowercase(v@.subrange(from as int, i - 1)).push(ascii_lower(v@[i - 1])));
    }
    s
}

/// The string made of `v[from..to]`.
pub fn string_of(v: &Vec<char>, from: usize, to: usize) -> (s: String)
    requires
        from <= to <= v.len(),
    ensures
        s@ == v@.subrange(from as int, to as int),
{
    let mut s = String::new();
    let mut i: usize = from;
    while i < to
        invariant
            from <= i <= to <= v.len(),
            s@ == v@.subrange(from as int, i as int),
        decreases to - i,
    {
        s.push(v[i]);
        i += 1;
        assert(v@.subrange(from as int, i as int) =~= v@.subrange(from as int, i - 1).push(
            v@[i - 1],
        ));
    }
    s
}

/// Whether two strings hold the same characters.
pub fn str_equal(a: &str, b: &str) -> (r: bool)
    ensures
        r == (a@ == b@),
{
    let x = a.as_bytes();
    let y = b.as_bytes();
    proof {
        vstd::utf8::encode_utf8_decode_utf8(a@);
        vstd::utf8::encode_utf8_decode_utf8(b@);
    }
    if x.len() != y.len() {
        return false;
    }
    let mut i: usize = 0;
    while i < x.len()
        invariant
            i <= x.len(),
            x.len() == y.len(),
            x@ == vstd::utf8::encode_utf8(a@),
            y@ == vstd::utf8::encode_utf8(b@),
            forall|j: int| 0 <= j < i ==> x@[j] == y@[j],
        decreases x.len() - i,
    {
        if x[i] != y[i] {
            return false;
        }
        i += 1;
    }
    assert(x@ =~= y@);
    true
}

} // verus!
