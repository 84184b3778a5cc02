//! The value model: the kinds of value a declaration can hold.

use vstd::prelude::*;
use crate::text::{
    hex_digit_value,
    hex_value,
    is_hex,
    is_hex_digit,
    lowercase_of,
    ends_with,
    range_starts_with,
    split_trimmed,
    split_trimmed_range,
    starts_with,
    str_equal,
    strip_prefixes,
    strip_prefixes_range,
    strip_suffixes,
    strip_suffixes_range,
    string_of,
    strip_trailing,
    strip_trailing_range,
    to_chars,
    trim_range,
    trimmed,
};

verus! {

/// A numeric literal, kept as the text it was scanned from (characters among
/// digits, `.`, `+` and `-`). Reading it as a number is left to the caller.
#[derive(Debug, PartialEq, Eq)]
pub struct Number {
    pub text: String,
}

impl Clone for Number {
    fn clone(&self) -> (r: Self)
        ensures
            r@ == self@,
    {
        Number { text: self.text.clone() }
    }
}

impl View for Number {
    type V = Seq<char>;

    open spec fn view(&self) -> Seq<char> {
        self.text@
    }
}

#[derive(Debug, Clone, Copy, PartialEq, Eq, Structural)]
pub enum Unit {
    Px,
    Em,
    Rem,
    Ex,
    Ch,
    Vw,
    Vh,
    Vmin,
    Vmax,
    Pt,
    Pc,
    In,
    Cm,
    Mm,
    Q,
    Deg,
    Rad,
    Grad,
    Turn,
    S,
    Ms,
    Hz,
    Khz,
    Dpi,
    Dpcm,
    Dppx,
    Fr,
    Percent,
}

/// An RGBA colour. Each channel is a byte; `a` is the opacity in 255ths, so
/// 255 is fully opaque and 0 fully transparent.
#[derive(Debug, Clone, Copy, PartialEq, Eq, Structural)]
pub struct Color {
    pub r: u8,
    pub g: u8,
    pub b: u8,
    pub a: u8,
}

#[derive(Debug, PartialEq)]
pub enum Value {
    Keyword(String),
    Length(Number, Unit),
    Percentage(Number),
    Color(Color),
    Url(String),
    String(String),
    Function(String, Vec<Value>),
    Rect(Rect),
    Initial,
    Inherit,
    Unset,
    CurrentColor,
    Auto,
    NoneValue,
    LinearGradient(Box<LinearGradient>),
    List(Vec<Value>),
}

#[derive(Debug, PartialEq)]
pub struct Rect {
    pub top: Box<Value>,
    pub right: Box<Value>,
    pub bottom: Box<Value>,
    pub left: Box<Value>,
}

#[derive(Debug, PartialEq)]
pub struct LinearGradient {
    pub direction: Box<Value>,
    pub stops: Vec<GradientStop>,
}

#[derive(Debug, PartialEq)]
pub struct GradientStop {
    pub color: Color,
    pub position: Option<Value>,
}

/// The mathematical counterpart of [`Value`].
pub enum ValueView {
    Keyword(Seq<char>),
    Length(Seq<char>, Unit),
    Percentage(Seq<char>),
    Color(Color),
    Url(Seq<char>),
    String(Seq<char>),
    Function(Seq<char>, Seq<ValueView>),
    Rect(RectView),
    Initial,
    Inherit,
    Unset,
    CurrentColor,
    Auto,
    NoneValue,
    LinearGradient(LinearGradientView),
    List(Seq<ValueView>),
}

pub struct RectView {
    pub top: Box<ValueView>,
    pub right: Box<ValueView>,
    pub bottom: Box<ValueView>,
    pub left: Box<ValueView>,
}

pub struct LinearGradientView {
    pub direction: Box<ValueView>,
    pub stops: Seq<GradientStopView>,
}

pub struct GradientStopView {
    pub color: Color,
    pub position: Option<ValueView>,
}

impl Value {
    pub open spec fn model(&self) -> ValueView
        decreases self,
    {
        match self {
            Value::Keyword(s) => ValueView::Keyword(s@),
            Value::Length(n, u) => ValueView::Length(n@, *u),
            Value::Percentage(n) => ValueView::Percentage(n@),
            Value::Color(c) => ValueView::Color(*c),
            Value::Url(s) => ValueView::Url(s@),
            Value::String(s) => ValueView::String(s@),
            Value::Function(name, args) => ValueView::Function(name@, Value::models(args@)),
            Value::Rect(r) => ValueView::Rect(r.model()),
            Value::Initial => ValueView::Initial,
            Value::Inherit => ValueView::Inherit,
            Value::Unset => ValueView::Unset,
            Value::CurrentColor => ValueView::CurrentColor,
            Value::Auto => ValueView::Auto,
            Value::NoneValue => ValueView::NoneValue,
            Value::LinearGradient(g) => ValueView::LinearGradient((**g).model()),
            Value::List(items) => ValueView::List(Value::models(items@)),
        }
    }

    /// The models of a sequence of values, in order.
    pub open spec fn models(values: Seq<Value>) -> Seq<ValueView>
        decreases values,
    {
        Seq::new(
            values.len(),
            |i: int|
                if 0 <= i < values.len() {
                    values[i].model()
                } else {
                    ValueView::NoneValue
                },
        )
    }
}

impl Rect {
    pub open spec fn model(&self) -> RectView
        decreases self,
    {
        RectView {
            top: Box::new((*self.top).model()),
            right: Box::new((*self.right).model()),
            bottom: Box::new((*self.bottom).model()),
            left: Box::new((*self.left).model()),
        }
    }
}

impl LinearGradient {
    pub open spec fn model(&self) -> LinearGradientView
        decreases self,
    {
        LinearGradientView {
            direction: Box::new((*self.direction).model()),
            stops: Seq::new(
                self.stops@.len(),
                |i: int|
                    if 0 <= i < self.stops@.len() {
                        self.stops@[i].model()
                    } else {
                        GradientStopView { color: Color { r: 0, g: 0, b: 0, a: 0 }, position: None }
                    },
            ),
        }
    }
}

impl GradientStop {
    pub open spec fn model(&self) -> GradientStopView
        decreases self,
    {
        GradientStopView {
            color: self.color,
            position: match self.position {
                Some(v) => Some(v.model()),
                None => None,
            },
        }
    }
}

impl View for Value {
    type V = ValueView;

    open spec fn view(&self) -> ValueView {
        self.model()
    }
}

impl View for Rect {
    type V = RectView;

    open spec fn view(&self) -> RectView {
        self.model()
    }
}

impl View for LinearGradient {
    type V = LinearGradientView;

    open spec fn view(&self) -> LinearGradientView {
        self.model()
    }
}

impl View for GradientStop {
    type V = GradientStopView;

    open spec fn view(&self) -> GradientStopView {
        self.model()
    }
}

/// A copy of each of some values, in order.
fn clone_values(values: &Vec<Value>) -> (r: Vec<Value>)
    ensures
        Value::models(r@) == Value::models(values@),
    decreases values, 1nat,
{
    let mut r: Vec<Value> = Vec::new();
    let mut i: usize = 0;
    while i < values.len()
        invariant
            i <= values.len(),
            r@.len() == i,
            forall|k: int| 0 <= k < i ==> (#[trigger] r@[k]).model() == values@[k].model(),
        decreases values.len() - i,
    {
        r.push(values[i].clone());
        i += 1;
    }
    assert(Value::models(r@) =~= Value::models(values@));
    r
}

impl Clone for Value {
    fn clone(&self) -> (r: Self)
        ensures
            r@ == self@,
        decreases self, 0nat,
    {
        match self {
            Value::Keyword(s) => Value::Keyword(s.clone()),
            Value::Length(n, u) => Value::Length(n.clone(), *u),
            Value::Percentage(n) => Value::Percentage(n.clone()),
            Value::Color(c) => Value::Color(*c),
            Value::Url(s) => Value::Url(s.clone()),
            Value::String(s) => Value::String(s.clone()),
            Value::Function(name, args) => Value::Function(name.clone(), clone_values(args)),
            Value::Rect(r) => Value::Rect(r.clone()),
            Value::Initial => Value::Initial,
            Value::Inherit => Value::Inherit,
            Value::Unset => Value::Unset,
            Value::CurrentColor => Value::CurrentColor,
            Value::Auto => Value::Auto,
            Value::NoneValue => Value::NoneValue,
            Value::LinearGradient(g) => Value::LinearGradient(Box::new((**g).clone())),
            Value::List(items) => Value::List(clone_values(items)),
        }
    }
}

impl Clone for Rect {
    fn clone(&self) -> (r: Self)
        ensures
            r@ == self@,
        decreases self, 0nat,
    {
        Rect {
            top: Box::new((*self.top).clone()),
            right: Box::new((*self.right).clone()),
            bottom: Box::new((*self.bottom).clone()),
            left: Box::new((*self.left).clone()),
        }
    }
}

impl Clone for GradientStop {
    fn clone(&self) -> (r: Self)
        ensures
            r@ == self@,
        decreases self, 0nat,
    {
        GradientStop {
            color: self.color,
            position: match &self.position {
                Some(v) => Some(v.clone()),
                None => None,
            },
        }
    }
}

impl Clone for LinearGradient {
    fn clone(&self) -> (r: Self)
        ensures
            r@ == self@,
        decreases self, 0nat,
    {
        let mut stops: Vec<GradientStop> = Vec::new();
        let mut i: usize = 0;
        while i < self.stops.len()
            invariant
                i <= self.stops.len(),
                stops@.len() == i,
                forall|k: int| 0 <= k < i ==> (#[trigger] stops@[k]).model() == self.stops@[k].model(),
            decreases self.stops.len() - i,
        {
            stops.push(self.stops[i].clone());
            i += 1;
        }
        let r = LinearGradient { direction: Box::new((*self.direction).clone()), stops };
        assert(r@.stops =~= self@.stops);
        r
    }
}

impl Value {
    /// The colour this value holds, if it is a colour.
    pub fn to_color(&self) -> (c: Option<Color>)
        ensures
            c == match self@ {
                ValueView::Color(col) => Some(col),
                _ => None,
            },
    {
        match self {
            Value::Color(c) => Some(*c),
            _ => None,
        }
    }
}

/// The unit that a lower-cased unit name stands for, if it names one.
pub open spec fn unit_named(lower: Seq<char>) -> Option<Unit> {
    if lower == "px"@ {
        Some(Unit::Px)
    } else if lower == "em"@ {
        Some(Unit::Em)
    } else if lower == "rem"@ {
        Some(Unit::Rem)
    } else if lower == "ex"@ {
        Some(Unit::Ex)
    } else if lower == "ch"@ {
        Some(Unit::Ch)
    } else if lower == "vw"@ {
        Some(Unit::Vw)
    } else if lower == "vh"@ {
        Some(Unit::Vh)
    } else if lower == "vmin"@ {
        Some(Unit::Vmin)
    } else if lower == "vmax"@ {
        Some(Unit::Vmax)
    } else if lower == "pt"@ {
        Some(Unit::Pt)
    } else if lower == "pc"@ {
        Some(Unit::Pc)
    } else if lower == "in"@ {
        Some(Unit::In)
    } else if lower == "cm"@ {
        Some(Unit::Cm)
    } else if lower == "mm"@ {
        Some(Unit::Mm)
    } else if lower == "q"@ {
        Some(Unit::Q)
    } else if lower == "deg"@ {
        Some(Unit::Deg)
    } else if lower == "rad"@ {
        Some(Unit::Rad)
    } else if lower == "grad"@ {
        Some(Unit::Grad)
    } else if lower == "turn"@ {
        Some(Unit::Turn)
    } else if lower == "s"@ {
        Some(Unit::S)
    } else if lower == "ms"@ {
        Some(Unit::Ms)
    } else if lower == "hz"@ {
        Some(Unit::Hz)
    } else if lower == "khz"@ {
        Some(Unit::Khz)
    } else if lower == "dpi"@ {
        Some(Unit::Dpi)
    } else if lower == "dpcm"@ {
        Some(Unit::Dpcm)
    } else if lower == "dppx"@ {
        Some(Unit::Dppx)
    } else if lower == "fr"@ {
        Some(Unit::Fr)
    } else {
        None
    }
}

impl Unit {
    /// The text a unit is written with.
    pub open spec fn text(self) -> Seq<char> {
        match self {
            Unit::Px => "px"@,
            Unit::Em => "em"@,
            Unit::Rem => "rem"@,
            Unit::Ex => "ex"@,
            Unit::Ch => "ch"@,
            Unit::Vw => "vw"@,
            Unit::Vh => "vh"@,
            Unit::Vmin => "vmin"@,
            Unit::Vmax => "vmax"@,
            Unit::Pt => "pt"@,
            Unit::Pc => "pc"@,
            Unit::In => "in"@,
            Unit::Cm => "cm"@,
            Unit::Mm => "mm"@,
            Unit::Q => "q"@,
            Unit::Percent => "%"@,
            Unit::Deg => "deg"@,
            Unit::Rad => "rad"@,
            Unit::Grad => "grad"@,
            Unit::Turn => "turn"@,
            Unit::S => "s"@,
            Unit::Ms => "ms"@,
            Unit::Hz => "Hz"@,
            Unit::Khz => "kHz"@,
            Unit::Dpi => "dpi"@,
            Unit::Dpcm => "dpcm"@,
            Unit::Dppx => "dppx"@,
            Unit::Fr => "fr"@,
        }
    }

    /// The text a unit is written with.
    pub fn as_str(&self) -> (r: &'static str)
        ensures
            r@ == self.text(),
    {
        match self {
            Unit::Px => "px",
            Unit::Em => "em",
            Unit::Rem => "rem",
            Unit::Ex => "ex",
            Unit::Ch => "ch",
            Unit::Vw => "vw",
            Unit::Vh => "vh",
            Unit::Vmin => "vmin",
            Unit::Vmax => "vmax",
            Unit::Pt => "pt",
            Unit::Pc => "pc",
            Unit::In => "in",
            Unit::Cm => "cm",
            Unit::Mm => "mm",
            Unit::Q => "q",
            Unit::Percent => "%",
            Unit::Deg => "deg",
            Unit::Rad => "rad",
            Unit::Grad => "grad",
            Unit::Turn => "turn",
            Unit::S => "s",
            Unit::Ms => "ms",
            Unit::Hz => "Hz",
            Unit::Khz => "kHz",
            Unit::Dpi => "dpi",
            Unit::Dpcm => "dpcm",
            Unit::Dppx => "dppx",
            Unit::Fr => "fr",
        }
    }

    /// The text a unit is written with, as an owned string.
    pub fn to_string(&self) -> (r: String)
        ensures
            r@ == self.text(),
    {
        self.as_str().to_owned()
    }

    /// The unit that a lower-cased name stands for; `None` for a name that
    /// is no unit's. The percent sign is no name.
    pub fn from_lowercase(lower: &str) -> (r: Option<Unit>)
        ensures
            r == unit_named(lower@),
    {
        if str_equal(lower, "px") {
            Some(Unit::Px)
        } else if str_equal(lower, "em") {
            Some(Unit::Em)
        } else if str_equal(lower, "rem") {
            Some(Unit::Rem)
        } else if str_equal(lower, "ex") {
            Some(Unit::Ex)
        } else if str_equal(lower, "ch") {
            Some(Unit::Ch)
        } else if str_equal(lower, "vw") {
            Some(Unit::Vw)
        } else if str_equal(lower, "vh") {
            Some(Unit::Vh)
        } else if str_equal(lower, "vmin") {
            Some(Unit::Vmin)
        } else if str_equal(lower, "vmax") {
            Some(Unit::Vmax)
        } else if str_equal(lower, "pt") {
            Some(Unit::Pt)
        } else if str_equal(lower, "pc") {
            Some(Unit::Pc)
        } else if str_equal(lower, "in") {
            Some(Unit::In)
        } else if str_equal(lower, "cm") {
            Some(Unit::Cm)
        } else if str_equal(lower, "mm") {
            Some(Unit::Mm)
        } else if str_equal(lower, "q") {
            Some(Unit::Q)
        } else if str_equal(lower, "deg") {
            Some(Unit::Deg)
        } else if str_equal(lower, "rad") {
            Some(Unit::Rad)
        } else if str_equal(lower, "grad") {
            Some(Unit::Grad)
        } else if str_equal(lower, "turn") {
            Some(Unit::Turn)
        } else if str_equal(lower, "s") {
            Some(Unit::S)
        } else if str_equal(lower, "ms") {
            Some(Unit::Ms)
        } else if str_equal(lower, "hz") {
            Some(Unit::Hz)
        } else if str_equal(lower, "khz") {
            Some(Unit::Khz)
        } else if str_equal(lower, "dpi") {
            Some(Unit::Dpi)
        } else if str_equal(lower, "dpcm") {
            Some(Unit::Dpcm)
        } else if str_equal(lower, "dppx") {
            Some(Unit::Dppx)
        } else if str_equal(lower, "fr") {
            Some(Unit::Fr)
        } else {
            None
        }
    }

    /// The unit that a name stands for, compared without regard to case.
    pub fn from_name(s: &str) -> (r: Result<Unit, ()>)
        ensures
            r == match unit_named(lowercase_of(s@)) {
                Some(u) => Ok::<Unit, ()>(u),
                None => Err::<Unit, ()>(()),
            },
    {
        let lower = s.to_lowercase();
        match Unit::from_lowercase(lower.as_str()) {
            Some(u) => Ok(u),
            None => Err(()),
        }
    }
}

impl std::str::FromStr for Unit {
    type Err = ();

    /// The unit that a name stands for, compared without regard to case;
    /// an error for a name that is no unit's.
    fn from_str(s: &str) -> (r: Result<Self, Self::Err>)
        ensures
            r == match unit_named(lowercase_of(s@)) {
                Some(u) => Ok::<Unit, ()>(u),
                None => Err::<Unit, ()>(()),
            },
    {
        Unit::from_name(s)
    }
}

/// The byte that two characters of a hex colour spell: two hex digits, or
/// a `+` and one hex digit. `None` for any other pair.
pub open spec fn hex_byte(hi: char, lo: char) -> Option<u8> {
    if is_hex_digit(hi) && is_hex_digit(lo) {
        Some((hex_value(hi) * 16 + hex_value(lo)) as u8)
    } else if hi == '+' && is_hex_digit(lo) {
        Some(hex_value(lo) as u8)
    } else {
        None
    }
}

/// The byte that one hex digit spells when doubled.
pub open spec fn hex_doubled(c: char) -> Option<u8> {
    if is_hex_digit(c) {
        Some((hex_value(c) * 17) as u8)
    } else {
        None
    }
}

/// The colour with the given channels, if all of them are there.
pub open spec fn color_of(r: Option<u8>, g: Option<u8>, b: Option<u8>, a: Option<u8>) -> Option<
    Color,
> {
    if r is Some && g is Some && b is Some && a is Some {
        Some(Color { r: r->0, g: g->0, b: b->0, a: a->0 })
    } else {
        None
    }
}

/// Number of `#` characters that `s` starts with.
pub open spec fn leading_hashes(s: Seq<char>) -> nat {
    crate::text::run_len(s, 0, crate::text::CharClass::Hashes)
}

/// The colour that hex digits spell: `rgb`, `rgba`, `rrggbb` or `rrggbbaa`.
/// Three and four digits are doubled one by one; a missing alpha is opaque.
pub open spec fn hex_digits_color(d: Seq<char>) -> Option<Color> {
    if d.len() == 3 {
        color_of(hex_doubled(d[0]), hex_doubled(d[1]), hex_doubled(d[2]), Some(255u8))
    } else if d.len() == 4 {
        color_of(hex_doubled(d[0]), hex_doubled(d[1]), hex_doubled(d[2]), hex_doubled(d[3]))
    } else if d.len() == 6 {
        color_of(hex_byte(d[0], d[1]), hex_byte(d[2], d[3]), hex_byte(d[4], d[5]), Some(255u8))
    } else if d.len() == 8 {
        color_of(
            hex_byte(d[0], d[1]),
            hex_byte(d[2], d[3]),
            hex_byte(d[4], d[5]),
            hex_byte(d[6], d[7]),
        )
    } else {
        None
    }
}

/// The colour that a hex notation spells, with or without leading `#`s.
pub open spec fn hex_notation_color(s: Seq<char>) -> Option<Color> {
    hex_digits_color(s.subrange(leading_hashes(s) as int, s.len() as int))
}

/// The colour that a lower-cased colour name stands for, if it names one.
pub open spec fn named_color(lower: Seq<char>) -> Option<Color> {
    if lower == "black"@ {
        Some(Color { r: 0, g: 0, b: 0, a: 255 })
    } else if lower == "silver"@ {
        Some(Color { r: 192, g: 192, b: 192, a: 255 })
    } else if lower == "gray"@ {
        Some(Color { r: 128, g: 128, b: 128, a: 255 })
    } else if lower == "white"@ {
        Some(Color { r: 255, g: 255, b: 255, a: 255 })
    } else if lower == "maroon"@ {
        Some(Color { r: 128, g: 0, b: 0, a: 255 })
    } else if lower == "red"@ {
        Some(Color { r: 255, g: 0, b: 0, a: 255 })
    } else if lower == "purple"@ {
        Some(Color { r: 128, g: 0, b: 128, a: 255 })
    } else if lower == "fuchsia"@ {
        Some(Color { r: 255, g: 0, b: 255, a: 255 })
    } else if lower == "green"@ {
        Some(Color { r: 0, g: 128, b: 0, a: 255 })
    } else if lower == "lime"@ {
        Some(Color { r: 0, g: 255, b: 0, a: 255 })
    } else if lower == "olive"@ {
        Some(Color { r: 128, g: 128, b: 0, a: 255 })
    } else if lower == "yellow"@ {
        Some(Color { r: 255, g: 255, b: 0, a: 255 })
    } else if lower == "navy"@ {
        Some(Color { r: 0, g: 0, b: 128, a: 255 })
    } else if lower == "blue"@ {
        Some(Color { r: 0, g: 0, b: 255, a: 255 })
    } else if lower == "teal"@ {
        Some(Color { r: 0, g: 128, b: 128, a: 255 })
    } else if lower == "aqua"@ {
        Some(Color { r: 0, g: 255, b: 255, a: 255 })
    } else if lower == "aliceblue"@ {
        Some(Color { r: 240, g: 248, b: 255, a: 255 })
    } else if lower == "antiquewhite"@ {
        Some(Color { r: 250, g: 235, b: 215, a: 255 })
    } else if lower == "transparent"@ {
        Some(Color { r: 0, g: 0, b: 0, a: 0 })
    } else {
        None
    }
}

/// The components of a colour written as a function call, `name` being the
/// function's name with its `(` and `alpha_name` that of its form with
/// opacity: the text between the name and the closing `)`, split at commas,
/// each piece trimmed. The plain form must have three components, the form
/// with opacity four; `None` for any other count and for a text that starts
/// with neither name.
pub open spec fn call_components(text: Seq<char>, name: Seq<char>, alpha_name: Seq<char>) -> Option<
    Seq<Seq<char>>,
> {
    let t = trimmed(text);
    let content = strip_trailing(strip_prefixes(strip_prefixes(t, name), alpha_name), ')');
    let parts = split_trimmed(content, ',');
    if !starts_with(t, name) && !starts_with(t, alpha_name) {
        None
    } else if starts_with(t, alpha_name) && parts.len() == 4 {
        Some(parts)
    } else if !starts_with(t, alpha_name) && parts.len() == 3 {
        Some(parts)
    } else {
        None
    }
}

fn components_of(text: &str, name: &str, alpha_name: &str) -> (r: Option<Vec<String>>)
    ensures
        (match r {
            Some(v) => Some(v@.map_values(|s: String| s@)),
            None => None,
        }) == call_components(text@, name@, alpha_name@),
{
    let v = to_chars(text);
    let plain = to_chars(name);
    let with_alpha = to_chars(alpha_name);
    assert(v@.subrange(0, v@.len() as int) =~= v@);
    let (lo, hi) = trim_range(&v, 0, v.len());
    let is_plain = range_starts_with(&v, lo, hi, &plain);
    let has_alpha = range_starts_with(&v, lo, hi, &with_alpha);
    if !is_plain && !has_alpha {
        return None;
    }
    let a = strip_prefixes_range(&v, lo, hi, &plain);
    let b = strip_prefixes_range(&v, a, hi, &with_alpha);
    let c = strip_trailing_range(&v, b, hi, ')');
    let parts = split_trimmed_range(&v, b, c, ',');
    if has_alpha && parts.len() == 4 {
        Some(parts)
    } else if !has_alpha && parts.len() == 3 {
        Some(parts)
    } else {
        None
    }
}

/// A hue as written, without the angle units it ends with: first every
/// trailing `deg` is dropped, then every `rad`, then `grad`, then `turn`.
pub open spec fn without_angle_unit(hue: Seq<char>) -> Seq<char> {
    strip_suffixes(
        strip_suffixes(strip_suffixes(strip_suffixes(hue, "deg"@), "rad"@), "grad"@),
        "turn"@,
    )
}

fn hex_byte_of(hi: char, lo: char) -> (r: Option<u8>)
    ensures
        r == hex_byte(hi, lo),
{
    if is_hex(hi) && is_hex(lo) {
        Some(hex_digit_value(hi) * 16 + hex_digit_value(lo))
    } else if hi == '+' && is_hex(lo) {
        Some(hex_digit_value(lo))
    } else {
        None
    }
}

fn hex_doubled_of(c: char) -> (r: Option<u8>)
    ensures
        r == hex_doubled(c),
{
    if is_hex(c) {
        Some(hex_digit_value(c) * 17)
    } else {
        None
    }
}

fn make_color(r: Option<u8>, g: Option<u8>, b: Option<u8>, a: Option<u8>) -> (c: Option<Color>)
    ensures
        c == color_of(r, g, b, a),
{
    match (r, g, b, a) {
        (Some(r), Some(g), Some(b), Some(a)) => Some(Color { r, g, b, a }),
        _ => None,
    }
}

impl Color {
    /// Reads a colour in hex notation: `#rgb`, `#rgba`, `#rrggbb` or
    /// `#rrggbbaa`, the `#` being optional. `None` for any other length and
    /// for digits that are not hexadecimal.
    pub fn parse_hex(hex: &str) -> (r: Option<Self>)
        ensures
            r == hex_notation_color(hex@),
    {
        let v = to_chars(hex);
        let mut start: usize = 0;
        while start < v.len() && v[start] == '#'
            invariant
                start <= v.len(),
                v@ == hex@,
                leading_hashes(v@) == start + crate::text::run_len(
                    v@,
                    start as int,
                    crate::text::CharClass::Hashes,
                ),
            decreases v.len() - start,
        {
            start += 1;
        }
        let n = v.len() - start;
        let ghost d = v@.subrange(start as int, v@.len() as int);
        assert(forall|i: int| 0 <= i < n ==> d[i] == v@[start + i]);
        if n == 3 {
            make_color(
                hex_doubled_of(v[start]),
                hex_doubled_of(v[start + 1]),
                hex_doubled_of(v[start + 2]),
                Some(255),
            )
        } else if n == 4 {
            make_color(
                hex_doubled_of(v[start]),
                hex_doubled_of(v[start + 1]),
                hex_doubled_of(v[start + 2]),
                hex_doubled_of(v[start + 3]),
            )
        } else if n == 6 {
            make_color(
                hex_byte_of(v[start], v[start + 1]),
                hex_byte_of(v[start + 2], v[start + 3]),
                hex_byte_of(v[start + 4], v[start + 5]),
                Some(255),
            )
        } else if n == 8 {
            make_color(
                hex_byte_of(v[start], v[start + 1]),
                hex_byte_of(v[start + 2], v[start + 3]),
                hex_byte_of(v[start + 4], v[start + 5]),
                hex_byte_of(v[start + 6], v[start + 7]),
            )
        } else {
            None
        }
    }

    /// The components of a colour in `rgb()` or `rgba()` notation, as
    /// written: three for the first, four for the second.
    pub fn rgb_components(rgb: &str) -> (r: Option<Vec<String>>)
        ensures
            (match r {
                Some(v) => Some(v@.map_values(|s: String| s@)),
                None => None,
            }) == call_components(rgb@, "rgb("@, "rgba("@),
    {
        components_of(rgb, "rgb(", "rgba(")
    }

    /// The components of a colour in `hsl()` or `hsla()` notation, as
    /// written: three for the first, four for the second.
    pub fn hsl_components(hsl: &str) -> (r: Option<Vec<String>>)
        ensures
            (match r {
                Some(v) => Some(v@.map_values(|s: String| s@)),
                None => None,
            }) == call_components(hsl@, "hsl("@, "hsla("@),
    {
        components_of(hsl, "hsl(", "hsla(")
    }

    /// The number of a component that may be a percentage: the component
    /// without the percent signs it ends with, and whether it ended with one.
    pub fn split_percent(component: &str) -> (r: (String, bool))
        ensures
            r.0@ == strip_trailing(component@, '%'),
            r.1 == ends_with(component@, seq!['%']),
    {
        let v = to_chars(component);
        assert(v@.subrange(0, v@.len() as int) =~= v@);
        let is_percentage = v.len() > 0 && v[v.len() - 1] == '%';
        assert(is_percentage == ends_with(v@, seq!['%'])) by {
            if v@.len() > 0 {
                assert(v@.subrange(v@.len() - 1, v@.len() as int) =~= seq![v@.last()]);
                assert(seq![v@.last()][0] == v@.last());
            }
        }
        let end = strip_trailing_range(&v, 0, v.len(), '%');
        (string_of(&v, 0, end), is_percentage)
    }

    /// The number of a hue: the component without the angle units it ends
    /// with.
    pub fn strip_angle_unit(hue: &str) -> (r: String)
        ensures
            r@ == without_angle_unit(hue@),
    {
        let v = to_chars(hue);
        assert(v@.subrange(0, v@.len() as int) =~= v@);
        let a = strip_suffixes_range(&v, 0, v.len(), &to_chars("deg"));
        let b = strip_suffixes_range(&v, 0, a, &to_chars("rad"));
        let c = strip_suffixes_range(&v, 0, b, &to_chars("grad"));
        let d = strip_suffixes_range(&v, 0, c, &to_chars("turn"));
        string_of(&v, 0, d)
    }

    /// The colour that a lower-cased colour name stands for.
    pub fn from_lowercase_name(lower: &str) -> (r: Option<Self>)
        ensures
            r == named_color(lower@),
    {
        if str_equal(lower, "black") {
            Some(Color { r: 0, g: 0, b: 0, a: 255 })
        } else if str_equal(lower, "silver") {
            Some(Color { r: 192, g: 192, b: 192, a: 255 })
        } else if str_equal(lower, "gray") {
            Some(Color { r: 128, g: 128, b: 128, a: 255 })
        } else if str_equal(lower, "white") {
            Some(Color { r: 255, g: 255, b: 255, a: 255 })
        } else if str_equal(lower, "maroon") {
            Some(Color { r: 128, g: 0, b: 0, a: 255 })
        } else if str_equal(lower, "red") {
            Some(Color { r: 255, g: 0, b: 0, a: 255 })
        } else if str_equal(lower, "purple") {
            Some(Color { r: 128, g: 0, b: 128, a: 255 })
        } else if str_equal(lower, "fuchsia") {
            Some(Color { r: 255, g: 0, b: 255, a: 255 })
        } else if str_equal(lower, "green") {
            Some(Color { r: 0, g: 128, b: 0, a: 255 })
        } else if str_equal(lower, "lime") {
            Some(Color { r: 0, g: 255, b: 0, a: 255 })
        } else if str_equal(lower, "olive") {
            Some(Color { r: 128, g: 128, b: 0, a: 255 })
        } else if str_equal(lower, "yellow") {
            Some(Color { r: 255, g: 255, b: 0, a: 255 })
        } else if str_equal(lower, "navy") {
            Some(Color { r: 0, g: 0, b: 128, a: 255 })
        } else if str_equal(lower, "blue") {
            Some(Color { r: 0, g: 0, b: 255, a: 255 })
        } else if str_equal(lower, "teal") {
            Some(Color { r: 0, g: 128, b: 128, a: 255 })
        } else if str_equal(lower, "aqua") {
            Some(Color { r: 0, g: 255, b: 255, a: 255 })
        } else if str_equal(lower, "aliceblue") {
            Some(Color { r: 240, g: 248, b: 255, a: 255 })
        } else if str_equal(lower, "antiquewhite") {
            Some(Color { r: 250, g: 235, b: 215, a: 255 })
        } else if str_equal(lower, "transparent") {
            Some(Color { r: 0, g: 0, b: 0, a: 0 })
        } else {
            None
        }
    }

    /// The colour that a name stands for, compared without regard to case.
    /// `transparent` is black with no opacity; `currentcolor` and unknown
    /// names give `None`.
    pub fn parse_named(name: &str) -> (r: Option<Self>)
        ensures
            r == named_color(lowercase_of(name@)),
    {
        let lower = name.to_lowercase();
        Color::from_lowercase_name(lower.as_str())
    }
}

} // verus!
