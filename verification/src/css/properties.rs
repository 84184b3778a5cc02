//! The table of known properties.

use vstd::prelude::*;
use crate::css::values::Value;
use crate::text::str_equal;

verus! {

/// A declaration of a known property, with its value.
#[derive(Debug, PartialEq)]
pub enum Property {
    Width(Value),
    Height(Value),
    MinWidth(Value),
    MinHeight(Value),
    MaxWidth(Value),
    MaxHeight(Value),
    Margin(Value),
    MarginTop(Value),
    MarginRight(Value),
    MarginBottom(Value),
    MarginLeft(Value),
    Padding(Value),
    PaddingTop(Value),
    PaddingRight(Value),
    PaddingBottom(Value),
    PaddingLeft(Value),
    Border(Value),
    BorderTop(Value),
    BorderRight(Value),
    BorderBottom(Value),
    BorderLeft(Value),
    BorderWidth(Value),
    BorderStyle(Value),
    BorderColor(Value),
    BorderRadius(Value),
    BoxSizing(Value),
    Display(Value),
    Position(Value),
    Top(Value),
    Right(Value),
    Bottom(Value),
    Left(Value),
    ZIndex(Value),
    Float(Value),
    Clear(Value),
    Color(Value),
    FontFamily(Value),
    FontSize(Value),
    FontStyle(Value),
    FontWeight(Value),
    LineHeight(Value),
    TextAlign(Value),
    TextDecoration(Value),
    TextTransform(Value),
    LetterSpacing(Value),
    WordSpacing(Value),
    WhiteSpace(Value),
    BackgroundColor(Value),
    BackgroundImage(Value),
    BackgroundPosition(Value),
    BackgroundRepeat(Value),
    BackgroundSize(Value),
    Opacity(Value),
    Visibility(Value),
    FlexDirection(Value),
    FlexWrap(Value),
    FlexGrow(Value),
    FlexShrink(Value),
    FlexBasis(Value),
    JustifyContent(Value),
    AlignItems(Value),
    AlignSelf(Value),
    AlignContent(Value),
    GridTemplateColumns(Value),
    GridTemplateRows(Value),
    GridColumnGap(Value),
    GridRowGap(Value),
    GridColumn(Value),
    GridRow(Value),
    Transition(Value),
    Animation(Value),
    AnimationName(Value),
    AnimationDuration(Value),
    AnimationTimingFunction(Value),
    AnimationDelay(Value),
    AnimationIterationCount(Value),
    AnimationDirection(Value),
    Cursor(Value),
    Overflow(Value),
    Content(Value),
    PointerEvents(Value),
    UserSelect(Value),
}

/// The property that `name` names, holding `value`; `None` for a name that
/// is no known property's. Names are compared as they are written.
pub open spec fn property_named(name: Seq<char>, value: Value) -> Option<Property> {
    if name == "width"@ {
        Some(Property::Width(value))
    }     else if name == "height"@ {
        Some(Property::Height(value))
    }     else if name == "min-width"@ {
        Some(Property::MinWidth(value))
    }     else if name == "min-height"@ {
        Some(Property::MinHeight(value))
    }     else if name == "max-width"@ {
        Some(Property::MaxWidth(value))
    }     else if name == "max-height"@ {
        Some(Property::MaxHeight(value))
    }     else if name == "margin"@ {
        Some(Property::Margin(value))
    }     else if name == "margin-top"@ {
        Some(Property::MarginTop(value))
    }     else if name == "margin-right"@ {
        Some(Property::MarginRight(value))
    }     else if name == "margin-bottom"@ {
        Some(Property::MarginBottom(value))
    }     else if name == "margin-left"@ {
        Some(Property::MarginLeft(value))
    }     else if name == "padding"@ {
        Some(Property::Padding(value))
    }     else if name == "padding-top"@ {
        Some(Property::PaddingTop(value))
    }     else if name == "padding-right"@ {
        Some(Property::PaddingRight(value))
    }     else if name == "padding-bottom"@ {
        Some(Property::PaddingBottom(value))
    }     else if name == "padding-left"@ {
        Some(Property::PaddingLeft(value))
    }     else if name == "border"@ {
        Some(Property::Border(value))
    }     else if name == "border-top"@ {
        Some(Property::BorderTop(value))
    }     else if name == "border-right"@ {
        Some(Property::BorderRight(value))
    }     else if name == "border-bottom"@ {
        Some(Property::BorderBottom(value))
    }     else if name == "border-left"@ {
        Some(Property::BorderLeft(value))
    }     else if name == "border-width"@ {
        Some(Property::BorderWidth(value))
    }     else if name == "border-style"@ {
        Some(Property::BorderStyle(value))
    }     else if name == "border-color"@ {
        Some(Property::BorderColor(value))
    }     else if name == "border-radius"@ {
        Some(Property::BorderRadius(value))
    }     else if name == "box-sizing"@ {
        Some(Property::BoxSizing(value))
    }     else if name == "display"@ {
        Some(Property::Display(value))
    }     else if name == "position"@ {
        Some(Property::Position(value))
    }     else if name == "top"@ {
        Some(Property::Top(value))
    }     else if name == "right"@ {
        Some(Property::Right(value))
    }     else if name == "bottom"@ {
        Some(Property::Bottom(value))
    }     else if name == "left"@ {
        Some(Property::Left(value))
    }     else if name == "z-index"@ {
        Some(Property::ZIndex(value))
    }     else if name == "float"@ {
        Some(Property::Float(value))
    }     else if name == "clear"@ {
        Some(Property::Clear(value))
    }     else if name == "color"@ {
        Some(Property::Color(value))
    }     else if name == "font-family"@ {
        Some(Property::FontFamily(value))
    }     else if name == "font-size"@ {
        Some(Property::FontSize(value))
    }     else if name == "font-style"@ {
        Some(Property::FontStyle(value))
    }     else if name == "font-weight"@ {
        Some(Property::FontWeight(value))
    }     else if name == "line-height"@ {
        Some(Property::LineHeight(value))
    }     else if name == "text-align"@ {
        Some(Property::TextAlign(value))
    }     else if name == "text-decoration"@ {
        Some(Property::TextDecoration(value))
    }     else if name == "text-transform"@ {
        Some(Property::TextTransform(value))
    }     else if name == "letter-spacing"@ {
        Some(Property::LetterSpacing(value))
    }     else if name == "word-spacing"@ {
        Some(Property::WordSpacing(value))
    }     else if name == "white-space"@ {
        Some(Property::WhiteSpace(value))
    }     else if name == "background-color"@ {
        Some(Property::BackgroundColor(value))
    }     else if name == "background-image"@ {
        Some(Property::BackgroundImage(value))
    }     else if name == "background-position"@ {
        Some(Property::BackgroundPosition(value))
    }     else if name == "background-repeat"@ {
        Some(Property::BackgroundRepeat(value))
    }     else if name == "background-size"@ {
        Some(Property::BackgroundSize(value))
    }     else if name == "opacity"@ {
        Some(Property::Opacity(value))
    }     else if name == "visibility"@ {
        Some(Property::Visibility(value))
    }     else if name == "flex-direction"@ {
        Some(Property::FlexDirection(value))
    }     else if name == "flex-wrap"@ {
        Some(Property::FlexWrap(value))
    }     else if name == "flex-grow"@ {
        Some(Property::FlexGrow(value))
    }     else if name == "flex-shrink"@ {
        Some(Property::FlexShrink(value))
    }     else if name == "flex-basis"@ {
        Some(Property::FlexBasis(value))
    }     else if name == "justify-content"@ {
        Some(Property::JustifyContent(value))
    }     else if name == "align-items"@ {
        Some(Property::AlignItems(value))
    }     else if name == "align-self"@ {
        Some(Property::AlignSelf(value))
    }     else if name == "align-content"@ {
        Some(Property::AlignContent(value))
    }     else if name == "grid-template-columns"@ {
        Some(Property::GridTemplateColumns(value))
    }     else if name == "grid-template-rows"@ {
        Some(Property::GridTemplateRows(value))
    }     else if name == "grid-column-gap"@ {
        Some(Property::GridColumnGap(value))
    }     else if name == "grid-row-gap"@ {
        Some(Property::GridRowGap(value))
    }     else if name == "grid-column"@ {
        Some(Property::GridColumn(value))
    }     else if name == "grid-row"@ {
        Some(Property::GridRow(value))
    }     else if name == "transition"@ {
        Some(Property::Transition(value))
    }     else if name == "animation"@ {
        Some(Property::Animation(value))
    }     else if name == "animation-name"@ {
        Some(Property::AnimationName(value))
    }     else if name == "animation-duration"@ {
        Some(Property::AnimationDuration(value))
    }     else if name == "animation-timing-function"@ {
        Some(Property::AnimationTimingFunction(value))
    }     else if name == "animation-delay"@ {
        Some(Property::AnimationDelay(value))
    }     else if name == "animation-iteration-count"@ {
        Some(Property::AnimationIterationCount(value))
    }     else if name == "animation-direction"@ {
        Some(Property::AnimationDirection(value))
    }     else if name == "cursor"@ {
        Some(Property::Cursor(value))
    }     else if name == "overflow"@ {
        Some(Property::Overflow(value))
    }     else if name == "content"@ {
        Some(Property::Content(value))
    }     else if name == "pointer-events"@ {
        Some(Property::PointerEvents(value))
    }     else if name == "user-select"@ {
        Some(Property::UserSelect(value))
    } else {
        None
    }
}

impl Property {
    /// The name of the property.
    pub open spec fn name_text(self) -> Seq<char> {
        match self {
            Property::Width(_) => "width"@,
            Property::Height(_) => "height"@,
            Property::MinWidth(_) => "min-width"@,
            Property::MinHeight(_) => "min-height"@,
            Property::MaxWidth(_) => "max-width"@,
            Property::MaxHeight(_) => "max-height"@,
            Property::Margin(_) => "margin"@,
            Property::MarginTop(_) => "margin-top"@,
            Property::MarginRight(_) => "margin-right"@,
            Property::MarginBottom(_) => "margin-bottom"@,
            Property::MarginLeft(_) => "margin-left"@,
            Property::Padding(_) => "padding"@,
            Property::PaddingTop(_) => "padding-top"@,
            Property::PaddingRight(_) => "padding-right"@,
            Property::PaddingBottom(_) => "padding-bottom"@,
            Property::PaddingLeft(_) => "padding-left"@,
            Property::Border(_) => "border"@,
            Property::BorderTop(_) => "border-top"@,
            Property::BorderRight(_) => "border-right"@,
            Property::BorderBottom(_) => "border-bottom"@,
            Property::BorderLeft(_) => "border-left"@,
            Property::BorderWidth(_) => "border-width"@,
            Property::BorderStyle(_) => "border-style"@,
            Property::BorderColor(_) => "border-color"@,
            Property::BorderRadius(_) => "border-radius"@,
            Property::BoxSizing(_) => "box-sizing"@,
            Property::Display(_) => "display"@,
            Property::Position(_) => "position"@,
            Property::Top(_) => "top"@,
            Property::Right(_) => "right"@,
            Property::Bottom(_) => "bottom"@,
            Property::Left(_) => "left"@,
            Property::ZIndex(_) => "z-index"@,
            Property::Float(_) => "float"@,
            Property::Clear(_) => "clear"@,
            Property::Color(_) => "color"@,
            Property::FontFamily(_) => "font-family"@,
            Property::FontSize(_) => "font-size"@,
            Property::FontStyle(_) => "font-style"@,
            Property::FontWeight(_) => "font-weight"@,
            Property::LineHeight(_) => "line-height"@,
            Property::TextAlign(_) => "text-align"@,
            Property::TextDecoration(_) => "text-decoration"@,
            Property::TextTransform(_) => "text-transform"@,
            Property::LetterSpacing(_) => "letter-spacing"@,
            Property::WordSpacing(_) => "word-spacing"@,
            Property::WhiteSpace(_) => "white-space"@,
            Property::BackgroundColor(_) => "background-color"@,
            Property::BackgroundImage(_) => "background-image"@,
            Property::BackgroundPosition(_) => "background-position"@,
            Property::BackgroundRepeat(_) => "background-repeat"@,
            Property::BackgroundSize(_) => "background-size"@,
            Property::Opacity(_) => "opacity"@,
            Property::Visibility(_) => "visibility"@,
            Property::FlexDirection(_) => "flex-direction"@,
            Property::FlexWrap(_) => "flex-wrap"@,
            Property::FlexGrow(_) => "flex-grow"@,
            Property::FlexShrink(_) => "flex-shrink"@,
            Property::FlexBasis(_) => "flex-basis"@,
            Property::JustifyContent(_) => "justify-content"@,
            Property::AlignItems(_) => "align-items"@,
            Property::AlignSelf(_) => "align-self"@,
            Property::AlignContent(_) => "align-content"@,
            Property::GridTemplateColumns(_) => "grid-template-columns"@,
            Property::GridTemplateRows(_) => "grid-template-rows"@,
            Property::GridColumnGap(_) => "grid-column-gap"@,
            Property::GridRowGap(_) => "grid-row-gap"@,
            Property::GridColumn(_) => "grid-column"@,
            Property::GridRow(_) => "grid-row"@,
            Property::Transition(_) => "transition"@,
            Property::Animation(_) => "animation"@,
            Property::AnimationName(_) => "animation-name"@,
            Property::AnimationDuration(_) => "animation-duration"@,
            Property::AnimationTimingFunction(_) => "animation-timing-function"@,
            Property::AnimationDelay(_) => "animation-delay"@,
            Property::AnimationIterationCount(_) => "animation-iteration-count"@,
            Property::AnimationDirection(_) => "animation-direction"@,
            Property::Cursor(_) => "cursor"@,
            Property::Overflow(_) => "overflow"@,
            Property::Content(_) => "content"@,
            Property::PointerEvents(_) => "pointer-events"@,
            Property::UserSelect(_) => "user-select"@,
        }
    }

    /// The value that the property holds.
    pub open spec fn value(self) -> Value {
        match self {
            Property::Width(v) => v,
            Property::Height(v) => v,
            Property::MinWidth(v) => v,
            Property::MinHeight(v) => v,
            Property::MaxWidth(v) => v,
            Property::MaxHeight(v) => v,
            Property::Margin(v) => v,
            Property::MarginTop(v) => v,
            Property::MarginRight(v) => v,
            Property::MarginBottom(v) => v,
            Property::MarginLeft(v) => v,
            Property::Padding(v) => v,
            Property::PaddingTop(v) => v,
            Property::PaddingRight(v) => v,
            Property::PaddingBottom(v) => v,
            Property::PaddingLeft(v) => v,
            Property::Border(v) => v,
            Property::BorderTop(v) => v,
            Property::BorderRight(v) => v,
            Property::BorderBottom(v) => v,
            Property::BorderLeft(v) => v,
            Property::BorderWidth(v) => v,
            Property::BorderStyle(v) => v,
            Property::BorderColor(v) => v,
            Property::BorderRadius(v) => v,
            Property::BoxSizing(v) => v,
            Property::Display(v) => v,
            Property::Position(v) => v,
            Property::Top(v) => v,
            Property::Right(v) => v,
            Property::Bottom(v) => v,
            Property::Left(v) => v,
            Property::ZIndex(v) => v,
            Property::Float(v) => v,
            Property::Clear(v) => v,
            Property::Color(v) => v,
            Property::FontFamily(v) => v,
            Property::FontSize(v) => v,
            Property::FontStyle(v) => v,
            Property::FontWeight(v) => v,
            Property::LineHeight(v) => v,
            Property::TextAlign(v) => v,
            Property::TextDecoration(v) => v,
            Property::TextTransform(v) => v,
            Property::LetterSpacing(v) => v,
            Property::WordSpacing(v) => v,
            Property::WhiteSpace(v) => v,
            Property::BackgroundColor(v) => v,
            Property::BackgroundImage(v) => v,
            Property::BackgroundPosition(v) => v,
            Property::BackgroundRepeat(v) => v,
            Property::BackgroundSize(v) => v,
            Property::Opacity(v) => v,
            Property::Visibility(v) => v,
            Property::FlexDirection(v) => v,
            Property::FlexWrap(v) => v,
            Property::FlexGrow(v) => v,
            Property::FlexShrink(v) => v,
            Property::FlexBasis(v) => v,
            Property::JustifyContent(v) => v,
            Property::AlignItems(v) => v,
            Property::AlignSelf(v) => v,
            Property::AlignContent(v) => v,
            Property::GridTemplateColumns(v) => v,
            Property::GridTemplateRows(v) => v,
            Property::GridColumnGap(v) => v,
            Property::GridRowGap(v) => v,
            Property::GridColumn(v) => v,
            Property::GridRow(v) => v,
            Property::Transition(v) => v,
            Property::Animation(v) => v,
            Property::AnimationName(v) => v,
            Property::AnimationDuration(v) => v,
            Property::AnimationTimingFunction(v) => v,
            Property::AnimationDelay(v) => v,
            Property::AnimationIterationCount(v) => v,
            Property::AnimationDirection(v) => v,
            Property::Cursor(v) => v,
            Property::Overflow(v) => v,
            Property::Content(v) => v,
            Property::PointerEvents(v) => v,
            Property::UserSelect(v) => v,
        }
    }

    /// The name of the property.
    pub fn name(&self) -> (r: &'static str)
        ensures
            r@ == self.name_text(),
    {
        match self {
            Property::Width(_) => "width",
            Property::Height(_) => "height",
            Property::MinWidth(_) => "min-width",
            Property::MinHeight(_) => "min-height",
            Property::MaxWidth(_) => "max-width",
            Property::MaxHeight(_) => "max-height",
            Property::Margin(_) => "margin",
            Property::MarginTop(_) => "margin-top",
            Property::MarginRight(_) => "margin-right",
            Property::MarginBottom(_) => "margin-bottom",
            Property::MarginLeft(_) => "margin-left",
            Property::Padding(_) => "padding",
            Property::PaddingTop(_) => "padding-top",
            Property::PaddingRight(_) => "padding-right",
            Property::PaddingBottom(_) => "padding-bottom",
            Property::PaddingLeft(_) => "padding-left",
            Property::Border(_) => "border",
            Property::BorderTop(_) => "border-top",
            Property::BorderRight(_) => "border-right",
            Property::BorderBottom(_) => "border-bottom",
            Property::BorderLeft(_) => "border-left",
            Property::BorderWidth(_) => "border-width",
            Property::BorderStyle(_) => "border-style",
            Property::BorderColor(_) => "border-color",
            Property::BorderRadius(_) => "border-radius",
            Property::BoxSizing(_) => "box-sizing",
            Property::Display(_) => "display",
            Property::Position(_) => "position",
            Property::Top(_) => "top",
            Property::Right(_) => "right",
            Property::Bottom(_) => "bottom",
            Property::Left(_) => "left",
            Property::ZIndex(_) => "z-index",
            Property::Float(_) => "float",
            Property::Clear(_) => "clear",
            Property::Color(_) => "color",
            Property::FontFamily(_) => "font-family",
            Property::FontSize(_) => "font-size",
            Property::FontStyle(_) => "font-style",
            Property::FontWeight(_) => "font-weight",
            Property::LineHeight(_) => "line-height",
            Property::TextAlign(_) => "text-align",
            Property::TextDecoration(_) => "text-decoration",
            Property::TextTransform(_) => "text-transform",
            Property::LetterSpacing(_) => "letter-spacing",
            Property::WordSpacing(_) => "word-spacing",
            Property::WhiteSpace(_) => "white-space",
            Property::BackgroundColor(_) => "background-color",
            Property::BackgroundImage(_) => "background-image",
            Property::BackgroundPosition(_) => "background-position",
            Property::BackgroundRepeat(_) => "background-repeat",
            Property::BackgroundSize(_) => "background-size",
            Property::Opacity(_) => "opacity",
            Property::Visibility(_) => "visibility",
            Property::FlexDirection(_) => "flex-direction",
            Property::FlexWrap(_) => "flex-wrap",
            Property::FlexGrow(_) => "flex-grow",
            Property::FlexShrink(_) => "flex-shrink",
            Property::FlexBasis(_) => "flex-basis",
            Property::JustifyContent(_) => "justify-content",
            Property::AlignItems(_) => "align-items",
            Property::AlignSelf(_) => "align-self",
            Property::AlignContent(_) => "align-content",
            Property::GridTemplateColumns(_) => "grid-template-columns",
            Property::GridTemplateRows(_) => "grid-template-rows",
            Property::GridColumnGap(_) => "grid-column-gap",
            Property::GridRowGap(_) => "grid-row-gap",
            Property::GridColumn(_) => "grid-column",
            Property::GridRow(_) => "grid-row",
            Property::Transition(_) => "transition",
            Property::Animation(_) => "animation",
            Property::AnimationName(_) => "animation-name",
            Property::AnimationDuration(_) => "animation-duration",
            Property::AnimationTimingFunction(_) => "animation-timing-function",
            Property::AnimationDelay(_) => "animation-delay",
            Property::AnimationIterationCount(_) => "animation-iteration-count",
            Property::AnimationDirection(_) => "animation-direction",
            Property::Cursor(_) => "cursor",
            Property::Overflow(_) => "overflow",
            Property::Content(_) => "content",
            Property::PointerEvents(_) => "pointer-events",
            Property::UserSelect(_) => "user-select",
        }
    }

    /// The property that `name` names, holding `value`. The property
    /// returned has that name and that value.
    pub fn parse(name: &str, value: Value) -> (r: Option<Self>)
        ensures
            r == property_named(name@, value),
            r is Some ==> r->0.name_text() == name@ && r->0.value() == value,
    {
        if str_equal(name, "width") {
            Some(Property::Width(value))
        }         else if str_equal(name, "height") {
            Some(Property::Height(value))
        }         else if str_equal(name, "min-width") {
            Some(Property::MinWidth(value))
        }         else if str_equal(name, "min-height") {
            Some(Property::MinHeight(value))
        }         else if str_equal(name, "max-width") {
            Some(Property::MaxWidth(value))
        }         else if str_equal(name, "max-height") {
            Some(Property::MaxHeight(value))
        }         else if str_equal(name, "margin") {
            Some(Property::Margin(value))
        }         else if str_equal(name, "margin-top") {
            Some(Property::MarginTop(value))
        }         else if str_equal(name, "margin-right") {
            Some(Property::MarginRight(value))
        }         else if str_equal(name, "margin-bottom") {
            Some(Property::MarginBottom(value))
        }         else if str_equal(name, "margin-left") {
            Some(Property::MarginLeft(value))
        }         else if str_equal(name, "padding") {
            Some(Property::Padding(value))
        }         else if str_equal(name, "padding-top") {
            Some(Property::PaddingTop(value))
        }         else if str_equal(name, "padding-right") {
            Some(Property::PaddingRight(value))
        }         else if str_equal(name, "padding-bottom") {
            Some(Property::PaddingBottom(value))
        }         else if str_equal(name, "padding-left") {
            Some(Property::PaddingLeft(value))
        }         else if str_equal(name, "border") {
            Some(Property::Border(value))
        }         else if str_equal(name, "border-top") {
            Some(Property::BorderTop(value))
        }         else if str_equal(name, "border-right") {
            Some(Property::BorderRight(value))
        }         else if str_equal(name, "border-bottom") {
            Some(Property::BorderBottom(value))
        }         else if str_equal(name, "border-left") {
            Some(Property::BorderLeft(value))
        }         else if str_equal(name, "border-width") {
            Some(Property::BorderWidth(value))
        }         else if str_equal(name, "border-style") {
            Some(Property::BorderStyle(value))
        }         else if str_equal(name, "border-color") {
            Some(Property::BorderColor(value))
        }         else if str_equal(name, "border-radius") {
            Some(Property::BorderRadius(value))
        }         else if str_equal(name, "box-sizing") {
            Some(Property::BoxSizing(value))
        }         else if str_equal(name, "display") {
            Some(Property::Display(value))
        }         else if str_equal(name, "position") {
            Some(Property::Position(value))
        }         else if str_equal(name, "top") {
            Some(Property::Top(value))
        }         else if str_equal(name, "right") {
            Some(Property::Right(value))
        }         else if str_equal(name, "bottom") {
            Some(Property::Bottom(value))
        }         else if str_equal(name, "left") {
            Some(Property::Left(value))
        }         else if str_equal(name, "z-index") {
            Some(Property::ZIndex(value))
        }         else if str_equal(name, "float") {
            Some(Property::Float(value))
        }         else if str_equal(name, "clear") {
            Some(Property::Clear(value))
        }         else if str_equal(name, "color") {
            Some(Property::Color(value))
        }         else if str_equal(name, "font-family") {
            Some(Property::FontFamily(value))
        }         else if str_equal(name, "font-size") {
            Some(Property::FontSize(value))
        }         else if str_equal(name, "font-style") {
            Some(Property::FontStyle(value))
        }         else if str_equal(name, "font-weight") {
            Some(Property::FontWeight(value))
        }         else if str_equal(name, "line-height") {
            Some(Property::LineHeight(value))
        }         else if str_equal(name, "text-align") {
            Some(Property::TextAlign(value))
        }         else if str_equal(name, "text-decoration") {
            Some(Property::TextDecoration(value))
        }         else if str_equal(name, "text-transform") {
            Some(Property::TextTransform(value))
        }         else if str_equal(name, "letter-spacing") {
            Some(Property::LetterSpacing(value))
        }         else if str_equal(name, "word-spacing") {
            Some(Property::WordSpacing(value))
        }         else if str_equal(name, "white-space") {
            Some(Property::WhiteSpace(value))
        }         else if str_equal(name, "background-color") {
            Some(Property::BackgroundColor(value))
        }         else if str_equal(name, "background-image") {
            Some(Property::BackgroundImage(value))
        }         else if str_equal(name, "background-position") {
            Some(Property::BackgroundPosition(value))
        }         else if str_equal(name, "background-repeat") {
            Some(Property::BackgroundRepeat(value))
        }         else if str_equal(name, "background-size") {
            Some(Property::BackgroundSize(value))
        }         else if str_equal(name, "opacity") {
            Some(Property::Opacity(value))
        }         else if str_equal(name, "visibility") {
            Some(Property::Visibility(value))
        }         else if str_equal(name, "flex-direction") {
            Some(Property::FlexDirection(value))
        }         else if str_equal(name, "flex-wrap") {
            Some(Property::FlexWrap(value))
        }         else if str_equal(name, "flex-grow") {
            Some(Property::FlexGrow(value))
        }         else if str_equal(name, "flex-shrink") {
            Some(Property::FlexShrink(value))
        }         else if str_equal(name, "flex-basis") {
            Some(Property::FlexBasis(value))
        }         else if str_equal(name, "justify-content") {
            Some(Property::JustifyContent(value))
        }         else if str_equal(name, "align-items") {
            Some(Property::AlignItems(value))
        }         else if str_equal(name, "align-self") {
            Some(Property::AlignSelf(value))
        }         else if str_equal(name, "align-content") {
            Some(Property::AlignContent(value))
        }         else if str_equal(name, "grid-template-columns") {
            Some(Property::GridTemplateColumns(value))
        }         else if str_equal(name, "grid-template-rows") {
            Some(Property::GridTemplateRows(value))
        }         else if str_equal(name, "grid-column-gap") {
            Some(Property::GridColumnGap(value))
        }         else if str_equal(name, "grid-row-gap") {
            Some(Property::GridRowGap(value))
        }         else if str_equal(name, "grid-column") {
            Some(Property::GridColumn(value))
        }         else if str_equal(name, "grid-row") {
            Some(Property::GridRow(value))
        }         else if str_equal(name, "transition") {
            Some(Property::Transition(value))
        }         else if str_equal(name, "animation") {
            Some(Property::Animation(value))
        }         else if str_equal(name, "animation-name") {
            Some(Property::AnimationName(value))
        }         else if str_equal(name, "animation-duration") {
            Some(Property::AnimationDuration(value))
        }         else if str_equal(name, "animation-timing-function") {
            Some(Property::AnimationTimingFunction(value))
        }         else if str_equal(name, "animation-delay") {
            Some(Property::AnimationDelay(value))
        }         else if str_equal(name, "animation-iteration-count") {
            Some(Property::AnimationIterationCount(value))
        }         else if str_equal(name, "animation-direction") {
            Some(Property::AnimationDirection(value))
        }         else if str_equal(name, "cursor") {
            Some(Property::Cursor(value))
        }         else if str_equal(name, "overflow") {
            Some(Property::Overflow(value))
        }         else if str_equal(name, "content") {
            Some(Property::Content(value))
        }         else if str_equal(name, "pointer-events") {
            Some(Property::PointerEvents(value))
        }         else if str_equal(name, "user-select") {
            Some(Property::UserSelect(value))
        } else {
            None
        }
    }
}

} // verus!
