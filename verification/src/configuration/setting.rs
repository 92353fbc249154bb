//! The kinds of options, the values that they resolve to, and how the text
//! of an option is read as a value of its kind.

use super::number::parse_number;
use super::number::text_number;
use super::number::NumberError;
use super::text::invalid_switch_words;
use super::text::invalid_value_message;
use super::text::invalid_value_words;
use super::text::same_text;
use super::types::BracePosition;
use super::types::ForceMultiLine;
use super::types::JsxMultiLineParens;
use super::types::JsxQuoteStyle;
use super::types::MemberSpacing;
use super::types::NamedTypeImportsExportsOrder;
use super::types::NewLineKind;
use super::types::NextControlFlowPosition;
use super::types::OperatorPosition;
use super::types::PreferHanging;
use super::types::QuoteProps;
use super::types::QuoteStyle;
use super::types::SameOrNextLinePosition;
use super::types::SemiColonOrComma;
use super::types::SemiColons;
use super::types::SortOrder;
use super::types::TrailingCommas;
use super::types::UseBraces;
use super::types::UseParentheses;
use vstd::prelude::*;

verus! {

/// What kind of value an option takes.
#[derive(Clone, Copy, PartialEq, Eq, Debug, Structural)]
pub enum Kind {
    /// `true` or `false`.
    Bool,
    /// A number that fits in 32 bits.
    Number,
    /// A number that fits in 8 bits.
    Byte,
    /// Any text.
    Text,
    /// One of the names of [`NewLineKind`].
    NewLineKind,
    /// One of the names of [`SemiColons`].
    SemiColons,
    /// One of the names of [`BracePosition`].
    BracePosition,
    /// One of the names of [`MemberSpacing`].
    MemberSpacing,
    /// One of the names of [`NextControlFlowPosition`].
    NextControlFlowPosition,
    /// One of the names of [`OperatorPosition`].
    OperatorPosition,
    /// One of the names of [`SameOrNextLinePosition`].
    SameOrNextLinePosition,
    /// One of the names of [`TrailingCommas`].
    TrailingCommas,
    /// One of the names of [`ForceMultiLine`].
    ForceMultiLine,
    /// One of the names of [`UseBraces`].
    UseBraces,
    /// One of the names of [`UseParentheses`].
    UseParentheses,
    /// One of the names of [`PreferHanging`].
    PreferHanging,
    /// One of the names of [`QuoteStyle`].
    QuoteStyle,
    /// One of the names of [`JsxQuoteStyle`].
    JsxQuoteStyle,
    /// One of the names of [`QuoteProps`].
    QuoteProps,
    /// One of the names of [`JsxMultiLineParens`].
    JsxMultiLineParens,
    /// One of the names of [`SemiColonOrComma`].
    SemiColonOrComma,
    /// One of the names of [`SortOrder`].
    SortOrder,
    /// One of the names of [`NamedTypeImportsExportsOrder`].
    NamedTypeImportsExportsOrder,
}

/// A value of one of the kinds that have no text in them.
#[derive(Clone, Copy, PartialEq, Eq, Debug, Structural)]
pub enum Scalar {
    Bool(bool),
    Number(u32),
    Byte(u8),
    NewLineKind(NewLineKind),
    SemiColons(SemiColons),
    BracePosition(BracePosition),
    MemberSpacing(MemberSpacing),
    NextControlFlowPosition(NextControlFlowPosition),
    OperatorPosition(OperatorPosition),
    SameOrNextLinePosition(SameOrNextLinePosition),
    TrailingCommas(TrailingCommas),
    ForceMultiLine(ForceMultiLine),
    UseBraces(UseBraces),
    UseParentheses(UseParentheses),
    PreferHanging(PreferHanging),
    QuoteStyle(QuoteStyle),
    JsxQuoteStyle(JsxQuoteStyle),
    QuoteProps(QuoteProps),
    JsxMultiLineParens(JsxMultiLineParens),
    SemiColonOrComma(SemiColonOrComma),
    SortOrder(SortOrder),
    NamedTypeImportsExportsOrder(NamedTypeImportsExportsOrder),
}

impl Scalar {
    /// The kind that the value is of.
    pub open spec fn kind(self) -> Kind {
        match self {
            Scalar::Bool(_) => Kind::Bool,
            Scalar::Number(_) => Kind::Number,
            Scalar::Byte(_) => Kind::Byte,
            Scalar::NewLineKind(_) => Kind::NewLineKind,
            Scalar::SemiColons(_) => Kind::SemiColons,
            Scalar::BracePosition(_) => Kind::BracePosition,
            Scalar::MemberSpacing(_) => Kind::MemberSpacing,
            Scalar::NextControlFlowPosition(_) => Kind::NextControlFlowPosition,
            Scalar::OperatorPosition(_) => Kind::OperatorPosition,
            Scalar::SameOrNextLinePosition(_) => Kind::SameOrNextLinePosition,
            Scalar::TrailingCommas(_) => Kind::TrailingCommas,
            Scalar::ForceMultiLine(_) => Kind::ForceMultiLine,
            Scalar::UseBraces(_) => Kind::UseBraces,
            Scalar::UseParentheses(_) => Kind::UseParentheses,
            Scalar::PreferHanging(_) => Kind::PreferHanging,
            Scalar::QuoteStyle(_) => Kind::QuoteStyle,
            Scalar::JsxQuoteStyle(_) => Kind::JsxQuoteStyle,
            Scalar::QuoteProps(_) => Kind::QuoteProps,
            Scalar::JsxMultiLineParens(_) => Kind::JsxMultiLineParens,
            Scalar::SemiColonOrComma(_) => Kind::SemiColonOrComma,
            Scalar::SortOrder(_) => Kind::SortOrder,
            Scalar::NamedTypeImportsExportsOrder(_) => Kind::NamedTypeImportsExportsOrder,
        }
    }
}

/// The value of an option.
#[derive(Clone, PartialEq, Eq, Debug)]
pub enum Setting {
    Scalar(Scalar),
    Text(String),
}

/// The value of an option as the contracts see it.
pub enum SettingView {
    Scalar(Scalar),
    Text(Seq<char>),
}

impl View for Setting {
    type V = SettingView;

    open spec fn view(&self) -> SettingView {
        match self {
            Setting::Scalar(scalar) => SettingView::Scalar(*scalar),
            Setting::Text(text) => SettingView::Text(text@),
        }
    }
}

impl DeepView for Setting {
    type V = SettingView;

    open spec fn deep_view(&self) -> SettingView {
        self@
    }
}

impl SettingView {
    /// The kind that the value is of.
    pub open spec fn kind(self) -> Kind {
        match self {
            SettingView::Scalar(scalar) => scalar.kind(),
            SettingView::Text(_) => Kind::Text,
        }
    }

    /// The text of a value of the kind `Text`.
    pub open spec fn text(self) -> Seq<char> {
        match self {
            SettingView::Text(text) => text,
            _ => Seq::empty(),
        }
    }

    /// The value of a value of the kind `Bool`.
    pub open spec fn bool(self) -> bool {
        match self {
            SettingView::Scalar(Scalar::Bool(value)) => value,
            _ => false,
        }
    }

    /// The value of a value of the kind `Number`.
    pub open spec fn number(self) -> u32 {
        match self {
            SettingView::Scalar(Scalar::Number(value)) => value,
            _ => 0,
        }
    }

    /// The value of a value of the kind `Byte`.
    pub open spec fn byte(self) -> u8 {
        match self {
            SettingView::Scalar(Scalar::Byte(value)) => value,
            _ => 0,
        }
    }

    /// The value of a value of the kind `NewLineKind`.
    pub open spec fn new_line_kind(self) -> NewLineKind {
        match self {
            SettingView::Scalar(Scalar::NewLineKind(value)) => value,
            _ => NewLineKind::Auto,
        }
    }

    /// The value of a value of the kind `SemiColons`.
    pub open spec fn semi_colons(self) -> SemiColons {
        match self {
            SettingView::Scalar(Scalar::SemiColons(value)) => value,
            _ => SemiColons::Always,
        }
    }

    /// The value of a value of the kind `BracePosition`.
    pub open spec fn brace_position(self) -> BracePosition {
        match self {
            SettingView::Scalar(Scalar::BracePosition(value)) => value,
            _ => BracePosition::Maintain,
        }
    }

    /// The value of a value of the kind `MemberSpacing`.
    pub open spec fn member_spacing(self) -> MemberSpacing {
        match self {
            SettingView::Scalar(Scalar::MemberSpacing(value)) => value,
            _ => MemberSpacing::Maintain,
        }
    }

    /// The value of a value of the kind `NextControlFlowPosition`.
    pub open spec fn next_control_flow_position(self) -> NextControlFlowPosition {
        match self {
            SettingView::Scalar(Scalar::NextControlFlowPosition(value)) => value,
            _ => NextControlFlowPosition::Maintain,
        }
    }

    /// The value of a value of the kind `OperatorPosition`.
    pub open spec fn operator_position(self) -> OperatorPosition {
        match self {
            SettingView::Scalar(Scalar::OperatorPosition(value)) => value,
            _ => OperatorPosition::Maintain,
        }
    }

    /// The value of a value of the kind `SameOrNextLinePosition`.
    pub open spec fn same_or_next_line_position(self) -> SameOrNextLinePosition {
        match self {
            SettingView::Scalar(Scalar::SameOrNextLinePosition(value)) => value,
            _ => SameOrNextLinePosition::Maintain,
        }
    }

    /// The value of a value of the kind `TrailingCommas`.
    pub open spec fn trailing_commas(self) -> TrailingCommas {
        match self {
            SettingView::Scalar(Scalar::TrailingCommas(value)) => value,
            _ => TrailingCommas::Never,
        }
    }

    /// The value of a value of the kind `ForceMultiLine`.
    pub open spec fn force_multi_line(self) -> ForceMultiLine {
        match self {
            SettingView::Scalar(Scalar::ForceMultiLine(value)) => value,
            _ => ForceMultiLine::Never,
        }
    }

    /// The value of a value of the kind `UseBraces`.
    pub open spec fn use_braces(self) -> UseBraces {
        match self {
            SettingView::Scalar(Scalar::UseBraces(value)) => value,
            _ => UseBraces::Maintain,
        }
    }

    /// The value of a value of the kind `UseParentheses`.
    pub open spec fn use_parentheses(self) -> UseParentheses {
        match self {
            SettingView::Scalar(Scalar::UseParentheses(value)) => value,
            _ => UseParentheses::Maintain,
        }
    }

    /// The value of a value of the kind `PreferHanging`.
    pub open spec fn prefer_hanging(self) -> PreferHanging {
        match self {
            SettingView::Scalar(Scalar::PreferHanging(value)) => value,
            _ => PreferHanging::Never,
        }
    }

    /// The value of a value of the kind `QuoteStyle`.
    pub open spec fn quote_style(self) -> QuoteStyle {
        match self {
            SettingView::Scalar(Scalar::QuoteStyle(value)) => value,
            _ => QuoteStyle::AlwaysDouble,
        }
    }

    /// The value of a value of the kind `JsxQuoteStyle`.
    pub open spec fn jsx_quote_style(self) -> JsxQuoteStyle {
        match self {
            SettingView::Scalar(Scalar::JsxQuoteStyle(value)) => value,
            _ => JsxQuoteStyle::PreferDouble,
        }
    }

    /// The value of a value of the kind `QuoteProps`.
    pub open spec fn quote_props(self) -> QuoteProps {
        match self {
            SettingView::Scalar(Scalar::QuoteProps(value)) => value,
            _ => QuoteProps::Preserve,
        }
    }

    /// The value of a value of the kind `JsxMultiLineParens`.
    pub open spec fn jsx_multi_line_parens(self) -> JsxMultiLineParens {
        match self {
            SettingView::Scalar(Scalar::JsxMultiLineParens(value)) => value,
            _ => JsxMultiLineParens::Never,
        }
    }

    /// The value of a value of the kind `SemiColonOrComma`.
    pub open spec fn semi_colon_or_comma(self) -> SemiColonOrComma {
        match self {
            SettingView::Scalar(Scalar::SemiColonOrComma(value)) => value,
            _ => SemiColonOrComma::SemiColon,
        }
    }

    /// The value of a value of the kind `SortOrder`.
    pub open spec fn sort_order(self) -> SortOrder {
        match self {
            SettingView::Scalar(Scalar::SortOrder(value)) => value,
            _ => SortOrder::Maintain,
        }
    }

    /// The value of a value of the kind `NamedTypeImportsExportsOrder`.
    pub open spec fn named_type_imports_exports_order(self) -> NamedTypeImportsExportsOrder {
        match self {
            SettingView::Scalar(Scalar::NamedTypeImportsExportsOrder(value)) => value,
            _ => NamedTypeImportsExportsOrder::First,
        }
    }
}

impl Setting {
    /// The same value once more.
    pub fn duplicate(&self) -> (r: Setting)
        ensures
            r@ == self@,
    {
        match self {
            Setting::Scalar(scalar) => Setting::Scalar(*scalar),
            Setting::Text(text) => Setting::Text(text.clone()),
        }
    }

    /// The text of a value of the kind `Text`.
    pub fn to_text(&self) -> (r: String)
        requires
            self@.kind() == Kind::Text,
        ensures
            r@ == self@.text(),
    {
        match self {
            Setting::Text(text) => text.clone(),
            Setting::Scalar(_) => String::new(),
        }
    }

    /// The value of a value of the kind `Bool`.
    pub fn to_bool(&self) -> (r: bool)
        requires
            self@.kind() == Kind::Bool,
        ensures
            r == self@.bool(),
    {
        match self {
            Setting::Scalar(Scalar::Bool(value)) => *value,
            _ => false,
        }
    }

    /// The value of a value of the kind `Number`.
    pub fn to_number(&self) -> (r: u32)
        requires
            self@.kind() == Kind::Number,
        ensures
            r == self@.number(),
    {
        match self {
            Setting::Scalar(Scalar::Number(value)) => *value,
            _ => 0,
        }
    }

    /// The value of a value of the kind `Byte`.
    pub fn to_byte(&self) -> (r: u8)
        requires
            self@.kind() == Kind::Byte,
        ensures
            r == self@.byte(),
    {
        match self {
            Setting::Scalar(Scalar::Byte(value)) => *value,
            _ => 0,
        }
    }

    /// The value of a value of the kind `NewLineKind`.
    pub fn to_new_line_kind(&self) -> (r: NewLineKind)
        requires
            self@.kind() == Kind::NewLineKind,
        ensures
            r == self@.new_line_kind(),
    {
        match self {
            Setting::Scalar(Scalar::NewLineKind(value)) => *value,
            _ => NewLineKind::Auto,
        }
    }

    /// The value of a value of the kind `SemiColons`.
    pub fn to_semi_colons(&self) -> (r: SemiColons)
        requires
            self@.kind() == Kind::SemiColons,
        ensures
            r == self@.semi_colons(),
    {
        match self {
            Setting::Scalar(Scalar::SemiColons(value)) => *value,
            _ => SemiColons::Always,
        }
    }

    /// The value of a value of the kind `BracePosition`.
    pub fn to_brace_position(&self) -> (r: BracePosition)
        requires
            self@.kind() == Kind::BracePosition,
        ensures
            r == self@.brace_position(),
    {
        match self {
            Setting::Scalar(Scalar::BracePosition(value)) => *value,
            _ => BracePosition::Maintain,
        }
    }

    /// The value of a value of the kind `MemberSpacing`.
    pub fn to_member_spacing(&self) -> (r: MemberSpacing)
        requires
            self@.kind() == Kind::MemberSpacing,
        ensures
            r == self@.member_spacing(),
    {
        match self {
            Setting::Scalar(Scalar::MemberSpacing(value)) => *value,
            _ => MemberSpacing::Maintain,
        }
    }

    /// The value of a value of the kind `NextControlFlowPosition`.
    pub fn to_next_control_flow_position(&self) -> (r: NextControlFlowPosition)
        requires
            self@.kind() == Kind::NextControlFlowPosition,
        ensures
            r == self@.next_control_flow_position(),
    {
        match self {
            Setting::Scalar(Scalar::NextControlFlowPosition(value)) => *value,
            _ => NextControlFlowPosition::Maintain,
        }
    }

    /// The value of a value of the kind `OperatorPosition`.
    pub fn to_operator_position(&self) -> (r: OperatorPosition)
        requires
            self@.kind() == Kind::OperatorPosition,
        ensures
            r == self@.operator_position(),
    {
        match self {
            Setting::Scalar(Scalar::OperatorPosition(value)) => *value,
            _ => OperatorPosition::Maintain,
        }
    }

    /// The value of a value of the kind `SameOrNextLinePosition`.
    pub fn to_same_or_next_line_position(&self) -> (r: SameOrNextLinePosition)
        requires
            self@.kind() == Kind::SameOrNextLinePosition,
        ensures
            r == self@.same_or_next_line_position(),
    {
        match self {
            Setting::Scalar(Scalar::SameOrNextLinePosition(value)) => *value,
            _ => SameOrNextLinePosition::Maintain,
        }
    }

    /// The value of a value of the kind `TrailingCommas`.
    pub fn to_trailing_commas(&self) -> (r: TrailingCommas)
        requires
            self@.kind() == Kind::TrailingCommas,
        ensures
            r == self@.trailing_commas(),
    {
        match self {
            Setting::Scalar(Scalar::TrailingCommas(value)) => *value,
            _ => TrailingCommas::Never,
        }
    }

    /// The value of a value of the kind `ForceMultiLine`.
    pub fn to_force_multi_line(&self) -> (r: ForceMultiLine)
        requires
            self@.kind() == Kind::ForceMultiLine,
        ensures
            r == self@.force_multi_line(),
    {
        match self {
            Setting::Scalar(Scalar::ForceMultiLine(value)) => *value,
            _ => ForceMultiLine::Never,
        }
    }

    /// The value of a value of the kind `UseBraces`.
    pub fn to_use_braces(&self) -> (r: UseBraces)
        requires
            self@.kind() == Kind::UseBraces,
        ensures
            r == self@.use_braces(),
    {
        match self {
            Setting::Scalar(Scalar::UseBraces(value)) => *value,
            _ => UseBraces::Maintain,
        }
    }

    /// The value of a value of the kind `UseParentheses`.
    pub fn to_use_parentheses(&self) -> (r: UseParentheses)
        requires
            self@.kind() == Kind::UseParentheses,
        ensures
            r == self@.use_parentheses(),
    {
        match self {
            Setting::Scalar(Scalar::UseParentheses(value)) => *value,
            _ => UseParentheses::Maintain,
        }
    }

    /// The value of a value of the kind `PreferHanging`.
    pub fn to_prefer_hanging(&self) -> (r: PreferHanging)
        requires
            self@.kind() == Kind::PreferHanging,
        ensures
            r == self@.prefer_hanging(),
    {
        match self {
            Setting::Scalar(Scalar::PreferHanging(value)) => *value,
            _ => PreferHanging::Never,
        }
    }

    /// The value of a value of the kind `QuoteStyle`.
    pub fn to_quote_style(&self) -> (r: QuoteStyle)
        requires
            self@.kind() == Kind::QuoteStyle,
        ensures
            r == self@.quote_style(),
    {
        match self {
            Setting::Scalar(Scalar::QuoteStyle(value)) => *value,
            _ => QuoteStyle::AlwaysDouble,
        }
    }

    /// The value of a value of the kind `JsxQuoteStyle`.
    pub fn to_jsx_quote_style(&self) -> (r: JsxQuoteStyle)
        requires
            self@.kind() == Kind::JsxQuoteStyle,
        ensures
            r == self@.jsx_quote_style(),
    {
        match self {
            Setting::Scalar(Scalar::JsxQuoteStyle(value)) => *value,
            _ => JsxQuoteStyle::PreferDouble,
        }
    }

    /// The value of a value of the kind `QuoteProps`.
    pub fn to_quote_props(&self) -> (r: QuoteProps)
        requires
            self@.kind() == Kind::QuoteProps,
        ensures
            r == self@.quote_props(),
    {
        match self {
            Setting::Scalar(Scalar::QuoteProps(value)) => *value,
            _ => QuoteProps::Preserve,
        }
    }

    /// The value of a value of the kind `JsxMultiLineParens`.
    pub fn to_jsx_multi_line_parens(&self) -> (r: JsxMultiLineParens)
        requires
            self@.kind() == Kind::JsxMultiLineParens,
        ensures
            r == self@.jsx_multi_line_parens(),
    {
        match self {
            Setting::Scalar(Scalar::JsxMultiLineParens(value)) => *value,
            _ => JsxMultiLineParens::Never,
        }
    }

    /// The value of a value of the kind `SemiColonOrComma`.
    pub fn to_semi_colon_or_comma(&self) -> (r: SemiColonOrComma)
        requires
            self@.kind() == Kind::SemiColonOrComma,
        ensures
            r == self@.semi_colon_or_comma(),
    {
        match self {
            Setting::Scalar(Scalar::SemiColonOrComma(value)) => *value,
            _ => SemiColonOrComma::SemiColon,
        }
    }

    /// The value of a value of the kind `SortOrder`.
    pub fn to_sort_order(&self) -> (r: SortOrder)
        requires
            self@.kind() == Kind::SortOrder,
        ensures
            r == self@.sort_order(),
    {
        match self {
            Setting::Scalar(Scalar::SortOrder(value)) => *value,
            _ => SortOrder::Maintain,
        }
    }

    /// The value of a value of the kind `NamedTypeImportsExportsOrder`.
    pub fn to_named_type_imports_exports_order(&self) -> (r: NamedTypeImportsExportsOrder)
        requires
            self@.kind() == Kind::NamedTypeImportsExportsOrder,
        ensures
            r == self@.named_type_imports_exports_order(),
    {
        match self {
            Setting::Scalar(Scalar::NamedTypeImportsExportsOrder(value)) => *value,
            _ => NamedTypeImportsExportsOrder::First,
        }
    }
}

/// The value of the kind `kind` that `text` is read as, or the words that
/// say why it is none. A switch is `true` or `false`; a number is written in
/// digits and fits its kind; a text is any text; every other kind has its
/// names.
pub open spec fn decode(kind: Kind, text: Seq<char>) -> Result<SettingView, Seq<char>> {
    match kind {
        Kind::Bool => if text == "true"@ {
            Ok(SettingView::Scalar(Scalar::Bool(true)))
        } else if text == "false"@ {
            Ok(SettingView::Scalar(Scalar::Bool(false)))
        } else {
            Err(invalid_switch_words())
        },
        Kind::Number => match text_number(text, u32::MAX as nat) {
            Ok(number) => Ok(SettingView::Scalar(Scalar::Number(number as u32))),
            Err(error) => Err(error.words()),
        },
        Kind::Byte => match text_number(text, u8::MAX as nat) {
            Ok(number) => Ok(SettingView::Scalar(Scalar::Byte(number as u8))),
            Err(error) => Err(error.words()),
        },
        Kind::Text => Ok(SettingView::Text(text)),
        Kind::NewLineKind => match NewLineKind::from_text(text) {
            Some(value) => Ok(SettingView::Scalar(Scalar::NewLineKind(value))),
            None => Err(invalid_value_words(text)),
        },
        Kind::SemiColons => match SemiColons::from_text(text) {
            Some(value) => Ok(SettingView::Scalar(Scalar::SemiColons(value))),
            None => Err(invalid_value_words(text)),
        },
        Kind::BracePosition => match BracePosition::from_text(text) {
            Some(value) => Ok(SettingView::Scalar(Scalar::BracePosition(value))),
            None => Err(invalid_value_words(text)),
        },
        Kind::MemberSpacing => match MemberSpacing::from_text(text) {
            Some(value) => Ok(SettingView::Scalar(Scalar::MemberSpacing(value))),
            None => Err(invalid_value_words(text)),
        },
        Kind::NextControlFlowPosition => match NextControlFlowPosition::from_text(text) {
            Some(value) => Ok(SettingView::Scalar(Scalar::NextControlFlowPosition(value))),
            None => Err(invalid_value_words(text)),
        },
        Kind::OperatorPosition => match OperatorPosition::from_text(text) {
            Some(value) => Ok(SettingView::Scalar(Scalar::OperatorPosition(value))),
            None => Err(invalid_value_words(text)),
        },
        Kind::SameOrNextLinePosition => match SameOrNextLinePosition::from_text(text) {
            Some(value) => Ok(SettingView::Scalar(Scalar::SameOrNextLinePosition(value))),
            None => Err(invalid_value_words(text)),
        },
        Kind::TrailingCommas => match TrailingCommas::from_text(text) {
            Some(value) => Ok(SettingView::Scalar(Scalar::TrailingCommas(value))),
            None => Err(invalid_value_words(text)),
        },
        Kind::ForceMultiLine => match ForceMultiLine::from_text(text) {
            Some(value) => Ok(SettingView::Scalar(Scalar::ForceMultiLine(value))),
            None => Err(invalid_value_words(text)),
        },
        Kind::UseBraces => match UseBraces::from_text(text) {
            Some(value) => Ok(SettingView::Scalar(Scalar::UseBraces(value))),
            None => Err(invalid_value_words(text)),
        },
        Kind::UseParentheses => match UseParentheses::from_text(text) {
            Some(value) => Ok(SettingView::Scalar(Scalar::UseParentheses(value))),
            None => Err(invalid_value_words(text)),
        },
        Kind::PreferHanging => match PreferHanging::from_text(text) {
            Some(value) => Ok(SettingView::Scalar(Scalar::PreferHanging(value))),
            None => Err(invalid_value_words(text)),
        },
        Kind::QuoteStyle => match QuoteStyle::from_text(text) {
            Some(value) => Ok(SettingView::Scalar(Scalar::QuoteStyle(value))),
            None => Err(invalid_value_words(text)),
        },
        Kind::JsxQuoteStyle => match JsxQuoteStyle::from_text(text) {
            Some(value) => Ok(SettingView::Scalar(Scalar::JsxQuoteStyle(value))),
            None => Err(invalid_value_words(text)),
        },
        Kind::QuoteProps => match QuoteProps::from_text(text) {
            Some(value) => Ok(SettingView::Scalar(Scalar::QuoteProps(value))),
            None => Err(invalid_value_words(text)),
        },
        Kind::JsxMultiLineParens => match JsxMultiLineParens::from_text(text) {
            Some(value) => Ok(SettingView::Scalar(Scalar::JsxMultiLineParens(value))),
            None => Err(invalid_value_words(text)),
        },
        Kind::SemiColonOrComma => match SemiColonOrComma::from_text(text) {
            Some(value) => Ok(SettingView::Scalar(Scalar::SemiColonOrComma(value))),
            None => Err(invalid_value_words(text)),
        },
        Kind::SortOrder => match SortOrder::from_text(text) {
            Some(value) => Ok(SettingView::Scalar(Scalar::SortOrder(value))),
            None => Err(invalid_value_words(text)),
        },
        Kind::NamedTypeImportsExportsOrder => match NamedTypeImportsExportsOrder::from_text(text) {
            Some(value) => Ok(SettingView::Scalar(Scalar::NamedTypeImportsExportsOrder(value))),
            None => Err(invalid_value_words(text)),
        },
    }
}

/// A text that is read as a value is read as a value of the kind asked for.
pub proof fn lemma_decode_kind(kind: Kind, text: Seq<char>)
    ensures
        decode(kind, text) matches Ok(value) ==> value.kind() == kind,
{
}

fn number_message(error: NumberError) -> (r: String)
    ensures
        r@ == error.words(),
{
    String::from_str(error.message())
}

/// Reads `text` as a value of the kind `kind`, or words why it is none.
pub fn decode_text(kind: Kind, text: String) -> (r: Result<Setting, String>)
    ensures
        match r {
            Ok(value) => decode(kind, text@) == Ok::<SettingView, Seq<char>>(value@) && value@.kind()
                == kind,
            Err(message) => decode(kind, text@) == Err::<SettingView, Seq<char>>(message@),
        },
{
    match kind {
        Kind::Bool => if same_text(text.as_str(), "true") {
            Ok(Setting::Scalar(Scalar::Bool(true)))
        } else if same_text(text.as_str(), "false") {
            Ok(Setting::Scalar(Scalar::Bool(false)))
        } else {
            Err(String::from_str("provided string was not `true` or `false`"))
        },
        Kind::Number => match parse_number(text.as_str(), u32::MAX) {
            Ok(number) => Ok(Setting::Scalar(Scalar::Number(number))),
            Err(error) => Err(number_message(error)),
        },
        Kind::Byte => match parse_number(text.as_str(), 255) {
            Ok(number) => Ok(Setting::Scalar(Scalar::Byte(number as u8))),
            Err(error) => Err(number_message(error)),
        },
        Kind::Text => Ok(Setting::Text(text)),
        Kind::NewLineKind => match NewLineKind::parse(text.as_str()) {
            Some(value) => Ok(Setting::Scalar(Scalar::NewLineKind(value))),
            None => Err(invalid_value_message(text.as_str())),
        },
        Kind::SemiColons => match SemiColons::parse(text.as_str()) {
            Some(value) => Ok(Setting::Scalar(Scalar::SemiColons(value))),
            None => Err(invalid_value_message(text.as_str())),
        },
        Kind::BracePosition => match BracePosition::parse(text.as_str()) {
            Some(value) => Ok(Setting::Scalar(Scalar::BracePosition(value))),
            None => Err(invalid_value_message(text.as_str())),
        },
        Kind::MemberSpacing => match MemberSpacing::parse(text.as_str()) {
            Some(value) => Ok(Setting::Scalar(Scalar::MemberSpacing(value))),
            None => Err(invalid_value_message(text.as_str())),
        },
        Kind::NextControlFlowPosition => match NextControlFlowPosition::parse(text.as_str()) {
            Some(value) => Ok(Setting::Scalar(Scalar::NextControlFlowPosition(value))),
            None => Err(invalid_value_message(text.as_str())),
        },
        Kind::OperatorPosition => match OperatorPosition::parse(text.as_str()) {
            Some(value) => Ok(Setting::Scalar(Scalar::OperatorPosition(value))),
            None => Err(invalid_value_message(text.as_str())),
        },
        Kind::SameOrNextLinePosition => match SameOrNextLinePosition::parse(text.as_str()) {
            Some(value) => Ok(Setting::Scalar(Scalar::SameOrNextLinePosition(value))),
            None => Err(invalid_value_message(text.as_str())),
        },
        Kind::TrailingCommas => match TrailingCommas::parse(text.as_str()) {
            Some(value) => Ok(Setting::Scalar(Scalar::TrailingCommas(value))),
            None => Err(invalid_value_message(text.as_str())),
        },
        Kind::ForceMultiLine => match ForceMultiLine::parse(text.as_str()) {
            Some(value) => Ok(Setting::Scalar(Scalar::ForceMultiLine(value))),
            None => Err(invalid_value_message(text.as_str())),
        },
        Kind::UseBraces => match UseBraces::parse(text.as_str()) {
            Some(value) => Ok(Setting::Scalar(Scalar::UseBraces(value))),
            None => Err(invalid_value_message(text.as_str())),
        },
        Kind::UseParentheses => match UseParentheses::parse(text.as_str()) {
            Some(value) => Ok(Setting::Scalar(Scalar::UseParentheses(value))),
            None => Err(invalid_value_message(text.as_str())),
        },
        Kind::PreferHanging => match PreferHanging::parse(text.as_str()) {
            Some(value) => Ok(Setting::Scalar(Scalar::PreferHanging(value))),
            None => Err(invalid_value_message(text.as_str())),
        },
        Kind::QuoteStyle => match QuoteStyle::parse(text.as_str()) {
            Some(value) => Ok(Setting::Scalar(Scalar::QuoteStyle(value))),
            None => Err(invalid_value_message(text.as_str())),
        },
        Kind::JsxQuoteStyle => match JsxQuoteStyle::parse(text.as_str()) {
            Some(value) => Ok(Setting::Scalar(Scalar::JsxQuoteStyle(value))),
            None => Err(invalid_value_message(text.as_str())),
        },
        Kind::QuoteProps => match QuoteProps::parse(text.as_str()) {
            Some(value) => Ok(Setting::Scalar(Scalar::QuoteProps(value))),
            None => Err(invalid_value_message(text.as_str())),
        },
        Kind::JsxMultiLineParens => match JsxMultiLineParens::parse(text.as_str()) {
            Some(value) => Ok(Setting::Scalar(Scalar::JsxMultiLineParens(value))),
            None => Err(invalid_value_message(text.as_str())),
        },
        Kind::SemiColonOrComma => match SemiColonOrComma::parse(text.as_str()) {
            Some(value) => Ok(Setting::Scalar(Scalar::SemiColonOrComma(value))),
            None => Err(invalid_value_message(text.as_str())),
        },
        Kind::SortOrder => match SortOrder::parse(text.as_str()) {
            Some(value) => Ok(Setting::Scalar(Scalar::SortOrder(value))),
            None => Err(invalid_value_message(text.as_str())),
        },
        Kind::NamedTypeImportsExportsOrder => match NamedTypeImportsExportsOrder::parse(text.as_str()) {
            Some(value) => Ok(Setting::Scalar(Scalar::NamedTypeImportsExportsOrder(value))),
            None => Err(invalid_value_message(text.as_str())),
        },
    }
}

} // verus!
