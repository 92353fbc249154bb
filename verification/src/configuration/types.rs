//! The values that options take, the resolved configuration, and what a
//! resolution reports.

use super::text::same_text;
use vstd::prelude::*;

verus! {

/// How lines end.
#[derive(Clone, Copy, PartialEq, Eq, Debug, Structural)]
pub enum NewLineKind {
    /// `"auto"`: the kind of the last line ending in the file.
    Auto,
    /// `"lf"`: a line feed.
    LineFeed,
    /// `"crlf"`: a carriage return and a line feed.
    CarriageReturnLineFeed,
}

impl NewLineKind {
    /// The value that `text` names, if it names one.
    pub open spec fn from_text(text: Seq<char>) -> Option<NewLineKind> {
        if text == "auto"@ {
            Some(NewLineKind::Auto)
        } else if text == "lf"@ {
            Some(NewLineKind::LineFeed)
        } else if text == "crlf"@ {
            Some(NewLineKind::CarriageReturnLineFeed)
        } else {
            None
        }
    }

    /// Reads the name of a line ending. The names are those that
    /// `dprint_core::configuration::NewLineKind` implements `FromStr` with:
    /// the contract lists its three names and says that every other text is
    /// turned down.
    #[verifier::external_body]
    pub(crate) fn parse(text: &str) -> (r: Option<NewLineKind>)
        ensures
            r == NewLineKind::from_text(text@),
    {
        match text.parse::<dprint_core::configuration::NewLineKind>() {
            Ok(dprint_core::configuration::NewLineKind::Auto) => Some(NewLineKind::Auto),
            Ok(dprint_core::configuration::NewLineKind::LineFeed) => Some(NewLineKind::LineFeed),
            Ok(dprint_core::configuration::NewLineKind::CarriageReturnLineFeed) => Some(
                NewLineKind::CarriageReturnLineFeed,
            ),
            Err(_) => None,
        }
    }
}

/// Whether statements end in a semicolon.
#[derive(Clone, Copy, PartialEq, Eq, Debug, Structural)]
pub enum SemiColons {
    /// `"always"`: always.
    Always,
    /// `"prefer"`: where the statement allows one.
    Prefer,
    /// `"absent"`: only where leaving it out would change the meaning.
    Absent,
}

impl SemiColons {
    /// The value that `text` names, if it names one.
    pub open spec fn from_text(text: Seq<char>) -> Option<SemiColons> {
        if text == "always"@ {
            Some(SemiColons::Always)
        } else if text == "prefer"@ {
            Some(SemiColons::Prefer)
        } else if text == "absent"@ {
            Some(SemiColons::Absent)
        } else {
            None
        }
    }

    /// Reads the name of a value.
    pub fn parse(text: &str) -> (r: Option<SemiColons>)
        ensures
            r == SemiColons::from_text(text@),
    {
        if same_text(text, "always") {
            Some(SemiColons::Always)
        } else if same_text(text, "prefer") {
            Some(SemiColons::Prefer)
        } else if same_text(text, "absent") {
            Some(SemiColons::Absent)
        } else {
            None
        }
    }
}

/// Where an opening brace goes.
#[derive(Clone, Copy, PartialEq, Eq, Debug, Structural)]
pub enum BracePosition {
    /// `"maintain"`: where it was.
    Maintain,
    /// `"sameLine"`: on the same line.
    SameLine,
    /// `"nextLine"`: on the next line.
    NextLine,
    /// `"sameLineUnlessHanging"`: on the same line, unless the header hangs.
    SameLineUnlessHanging,
}

impl BracePosition {
    /// The value that `text` names, if it names one.
    pub open spec fn from_text(text: Seq<char>) -> Option<BracePosition> {
        if text == "maintain"@ {
            Some(BracePosition::Maintain)
        } else if text == "sameLine"@ {
            Some(BracePosition::SameLine)
        } else if text == "nextLine"@ {
            Some(BracePosition::NextLine)
        } else if text == "sameLineUnlessHanging"@ {
            Some(BracePosition::SameLineUnlessHanging)
        } else {
            None
        }
    }

    /// Reads the name of a value.
    pub fn parse(text: &str) -> (r: Option<BracePosition>)
        ensures
            r == BracePosition::from_text(text@),
    {
        if same_text(text, "maintain") {
            Some(BracePosition::Maintain)
        } else if same_text(text, "sameLine") {
            Some(BracePosition::SameLine)
        } else if same_text(text, "nextLine") {
            Some(BracePosition::NextLine)
        } else if same_text(text, "sameLineUnlessHanging") {
            Some(BracePosition::SameLineUnlessHanging)
        } else {
            None
        }
    }
}

/// What separates the members of a declaration.
#[derive(Clone, Copy, PartialEq, Eq, Debug, Structural)]
pub enum MemberSpacing {
    /// `"maintain"`: what was there.
    Maintain,
    /// `"newLine"`: a new line.
    NewLine,
    /// `"blankLine"`: a blank line.
    BlankLine,
}

impl MemberSpacing {
    /// The value that `text` names, if it names one.
    pub open spec fn from_text(text: Seq<char>) -> Option<MemberSpacing> {
        if text == "maintain"@ {
            Some(MemberSpacing::Maintain)
        } else if text == "newLine"@ {
            Some(MemberSpacing::NewLine)
        } else if text == "blankLine"@ {
            Some(MemberSpacing::BlankLine)
        } else {
            None
        }
    }

    /// Reads the name of a value.
    pub fn parse(text: &str) -> (r: Option<MemberSpacing>)
        ensures
            r == MemberSpacing::from_text(text@),
    {
        if same_text(text, "maintain") {
            Some(MemberSpacing::Maintain)
        } else if same_text(text, "newLine") {
            Some(MemberSpacing::NewLine)
        } else if same_text(text, "blankLine") {
            Some(MemberSpacing::BlankLine)
        } else {
            None
        }
    }
}

/// Where the next keyword of a control flow statement goes.
#[derive(Clone, Copy, PartialEq, Eq, Debug, Structural)]
pub enum NextControlFlowPosition {
    /// `"maintain"`: where it was.
    Maintain,
    /// `"sameLine"`: on the same line.
    SameLine,
    /// `"nextLine"`: on the next line.
    NextLine,
}

impl NextControlFlowPosition {
    /// The value that `text` names, if it names one.
    pub open spec fn from_text(text: Seq<char>) -> Option<NextControlFlowPosition> {
        if text == "maintain"@ {
            Some(NextControlFlowPosition::Maintain)
        } else if text == "sameLine"@ {
            Some(NextControlFlowPosition::SameLine)
        } else if text == "nextLine"@ {
            Some(NextControlFlowPosition::NextLine)
        } else {
            None
        }
    }

    /// Reads the name of a value.
    pub fn parse(text: &str) -> (r: Option<NextControlFlowPosition>)
        ensures
            r == NextControlFlowPosition::from_text(text@),
    {
        if same_text(text, "maintain") {
            Some(NextControlFlowPosition::Maintain)
        } else if same_text(text, "sameLine") {
            Some(NextControlFlowPosition::SameLine)
        } else if same_text(text, "nextLine") {
            Some(NextControlFlowPosition::NextLine)
        } else {
            None
        }
    }
}

/// Where an operator goes when its expression spans lines.
#[derive(Clone, Copy, PartialEq, Eq, Debug, Structural)]
pub enum OperatorPosition {
    /// `"maintain"`: where it was.
    Maintain,
    /// `"sameLine"`: at the end of the line.
    SameLine,
    /// `"nextLine"`: at the start of the next line.
    NextLine,
}

impl OperatorPosition {
    /// The value that `text` names, if it names one.
    pub open spec fn from_text(text: Seq<char>) -> Option<OperatorPosition> {
        if text == "maintain"@ {
            Some(OperatorPosition::Maintain)
        } else if text == "sameLine"@ {
            Some(OperatorPosition::SameLine)
        } else if text == "nextLine"@ {
            Some(OperatorPosition::NextLine)
        } else {
            None
        }
    }

    /// Reads the name of a value.
    pub fn parse(text: &str) -> (r: Option<OperatorPosition>)
        ensures
            r == OperatorPosition::from_text(text@),
    {
        if same_text(text, "maintain") {
            Some(OperatorPosition::Maintain)
        } else if same_text(text, "sameLine") {
            Some(OperatorPosition::SameLine)
        } else if same_text(text, "nextLine") {
            Some(OperatorPosition::NextLine)
        } else {
            None
        }
    }
}

/// Where a part goes that may follow on the same line.
#[derive(Clone, Copy, PartialEq, Eq, Debug, Structural)]
pub enum SameOrNextLinePosition {
    /// `"maintain"`: where it was.
    Maintain,
    /// `"sameLine"`: on the same line.
    SameLine,
    /// `"nextLine"`: on the next line.
    NextLine,
}

impl SameOrNextLinePosition {
    /// The value that `text` names, if it names one.
    pub open spec fn from_text(text: Seq<char>) -> Option<SameOrNextLinePosition> {
        if text == "maintain"@ {
            Some(SameOrNextLinePosition::Maintain)
        } else if text == "sameLine"@ {
            Some(SameOrNextLinePosition::SameLine)
        } else if text == "nextLine"@ {
            Some(SameOrNextLinePosition::NextLine)
        } else {
            None
        }
    }

    /// Reads the name of a value.
    pub fn parse(text: &str) -> (r: Option<SameOrNextLinePosition>)
        ensures
            r == SameOrNextLinePosition::from_text(text@),
    {
        if same_text(text, "maintain") {
            Some(SameOrNextLinePosition::Maintain)
        } else if same_text(text, "sameLine") {
            Some(SameOrNextLinePosition::SameLine)
        } else if same_text(text, "nextLine") {
            Some(SameOrNextLinePosition::NextLine)
        } else {
            None
        }
    }
}

/// Whether a list ends in a comma.
#[derive(Clone, Copy, PartialEq, Eq, Debug, Structural)]
pub enum TrailingCommas {
    /// `"never"`: never.
    Never,
    /// `"always"`: always.
    Always,
    /// `"onlyMultiLine"`: only when it spans lines.
    OnlyMultiLine,
}

impl TrailingCommas {
    /// The value that `text` names, if it names one.
    pub open spec fn from_text(text: Seq<char>) -> Option<TrailingCommas> {
        if text == "never"@ {
            Some(TrailingCommas::Never)
        } else if text == "always"@ {
            Some(TrailingCommas::Always)
        } else if text == "onlyMultiLine"@ {
            Some(TrailingCommas::OnlyMultiLine)
        } else {
            None
        }
    }

    /// Reads the name of a value.
    pub fn parse(text: &str) -> (r: Option<TrailingCommas>)
        ensures
            r == TrailingCommas::from_text(text@),
    {
        if same_text(text, "never") {
            Some(TrailingCommas::Never)
        } else if same_text(text, "always") {
            Some(TrailingCommas::Always)
        } else if same_text(text, "onlyMultiLine") {
            Some(TrailingCommas::OnlyMultiLine)
        } else {
            None
        }
    }
}

/// Whether a list of names is spread over lines.
#[derive(Clone, Copy, PartialEq, Eq, Debug, Structural)]
pub enum ForceMultiLine {
    /// `"never"`: never.
    Never,
    /// `"always"`: always.
    Always,
    /// `"whenMultiple"`: when it has more than one name.
    WhenMultiple,
}

impl ForceMultiLine {
    /// The value that `text` names, if it names one.
    pub open spec fn from_text(text: Seq<char>) -> Option<ForceMultiLine> {
        if text == "never"@ {
            Some(ForceMultiLine::Never)
        } else if text == "always"@ {
            Some(ForceMultiLine::Always)
        } else if text == "whenMultiple"@ {
            Some(ForceMultiLine::WhenMultiple)
        } else {
            None
        }
    }

    /// Reads the name of a value.
    pub fn parse(text: &str) -> (r: Option<ForceMultiLine>)
        ensures
            r == ForceMultiLine::from_text(text@),
    {
        if same_text(text, "never") {
            Some(ForceMultiLine::Never)
        } else if same_text(text, "always") {
            Some(ForceMultiLine::Always)
        } else if same_text(text, "whenMultiple") {
            Some(ForceMultiLine::WhenMultiple)
        } else {
            None
        }
    }
}

/// Whether a body gets braces.
#[derive(Clone, Copy, PartialEq, Eq, Debug, Structural)]
pub enum UseBraces {
    /// `"maintain"`: as it was.
    Maintain,
    /// `"whenNotSingleLine"`: when it spans lines.
    WhenNotSingleLine,
    /// `"always"`: always.
    Always,
    /// `"preferNone"`: only where needed.
    PreferNone,
}

impl UseBraces {
    /// The value that `text` names, if it names one.
    pub open spec fn from_text(text: Seq<char>) -> Option<UseBraces> {
        if text == "maintain"@ {
            Some(UseBraces::Maintain)
        } else if text == "whenNotSingleLine"@ {
            Some(UseBraces::WhenNotSingleLine)
        } else if text == "always"@ {
            Some(UseBraces::Always)
        } else if text == "preferNone"@ {
            Some(UseBraces::PreferNone)
        } else {
            None
        }
    }

    /// Reads the name of a value.
    pub fn parse(text: &str) -> (r: Option<UseBraces>)
        ensures
            r == UseBraces::from_text(text@),
    {
        if same_text(text, "maintain") {
            Some(UseBraces::Maintain)
        } else if same_text(text, "whenNotSingleLine") {
            Some(UseBraces::WhenNotSingleLine)
        } else if same_text(text, "always") {
            Some(UseBraces::Always)
        } else if same_text(text, "preferNone") {
            Some(UseBraces::PreferNone)
        } else {
            None
        }
    }
}

/// Whether a single parameter gets parentheses.
#[derive(Clone, Copy, PartialEq, Eq, Debug, Structural)]
pub enum UseParentheses {
    /// `"maintain"`: as it was.
    Maintain,
    /// `"force"`: always.
    Force,
    /// `"preferNone"`: only where needed.
    PreferNone,
}

impl UseParentheses {
    /// The value that `text` names, if it names one.
    pub open spec fn from_text(text: Seq<char>) -> Option<UseParentheses> {
        if text == "maintain"@ {
            Some(UseParentheses::Maintain)
        } else if text == "force"@ {
            Some(UseParentheses::Force)
        } else if text == "preferNone"@ {
            Some(UseParentheses::PreferNone)
        } else {
            None
        }
    }

    /// Reads the name of a value.
    pub fn parse(text: &str) -> (r: Option<UseParentheses>)
        ensures
            r == UseParentheses::from_text(text@),
    {
        if same_text(text, "maintain") {
            Some(UseParentheses::Maintain)
        } else if same_text(text, "force") {
            Some(UseParentheses::Force)
        } else if same_text(text, "preferNone") {
            Some(UseParentheses::PreferNone)
        } else {
            None
        }
    }
}

/// Whether a list that spans lines hangs from its first line.
#[derive(Clone, Copy, PartialEq, Eq, Debug, Structural)]
pub enum PreferHanging {
    /// `"never"`: never.
    Never,
    /// `"onlySingleItem"`: when it has one item.
    OnlySingleItem,
    /// `"always"`: always.
    Always,
}

impl PreferHanging {
    /// The value that `text` names, if it names one.
    pub open spec fn from_text(text: Seq<char>) -> Option<PreferHanging> {
        if text == "never"@ {
            Some(PreferHanging::Never)
        } else if text == "onlySingleItem"@ {
            Some(PreferHanging::OnlySingleItem)
        } else if text == "always"@ {
            Some(PreferHanging::Always)
        } else {
            None
        }
    }

    /// Reads the name of a value.
    pub fn parse(text: &str) -> (r: Option<PreferHanging>)
        ensures
            r == PreferHanging::from_text(text@),
    {
        if same_text(text, "never") {
            Some(PreferHanging::Never)
        } else if same_text(text, "onlySingleItem") {
            Some(PreferHanging::OnlySingleItem)
        } else if same_text(text, "always") {
            Some(PreferHanging::Always)
        } else {
            None
        }
    }

    /// What the one switch for all lists means for a list with a choice of
    /// three: always where it is on, never where it is off.
    pub open spec fn of_switch(on: bool) -> PreferHanging {
        if on {
            PreferHanging::Always
        } else {
            PreferHanging::Never
        }
    }

    /// What the one switch for all lists means for a list with a choice of
    /// three.
    pub fn from_switch(on: bool) -> (r: PreferHanging)
        ensures
            r == PreferHanging::of_switch(on),
    {
        if on {
            PreferHanging::Always
        } else {
            PreferHanging::Never
        }
    }
}

/// Which quotes a string gets.
#[derive(Clone, Copy, PartialEq, Eq, Debug, Structural)]
pub enum QuoteStyle {
    /// `"alwaysDouble"`: double, always.
    AlwaysDouble,
    /// `"alwaysSingle"`: single, always.
    AlwaysSingle,
    /// `"preferDouble"`: double, unless that needs more escapes.
    PreferDouble,
    /// `"preferSingle"`: single, unless that needs more escapes.
    PreferSingle,
}

impl QuoteStyle {
    /// The value that `text` names, if it names one.
    pub open spec fn from_text(text: Seq<char>) -> Option<QuoteStyle> {
        if text == "alwaysDouble"@ {
            Some(QuoteStyle::AlwaysDouble)
        } else if text == "alwaysSingle"@ {
            Some(QuoteStyle::AlwaysSingle)
        } else if text == "preferDouble"@ {
            Some(QuoteStyle::PreferDouble)
        } else if text == "preferSingle"@ {
            Some(QuoteStyle::PreferSingle)
        } else {
            None
        }
    }

    /// Reads the name of a value.
    pub fn parse(text: &str) -> (r: Option<QuoteStyle>)
        ensures
            r == QuoteStyle::from_text(text@),
    {
        if same_text(text, "alwaysDouble") {
            Some(QuoteStyle::AlwaysDouble)
        } else if same_text(text, "alwaysSingle") {
            Some(QuoteStyle::AlwaysSingle)
        } else if same_text(text, "preferDouble") {
            Some(QuoteStyle::PreferDouble)
        } else if same_text(text, "preferSingle") {
            Some(QuoteStyle::PreferSingle)
        } else {
            None
        }
    }

    /// The quotes of JSX attributes that go with these quotes: double for
    /// the two double styles, single for the two single styles.
    pub open spec fn jsx_quote_style(self) -> JsxQuoteStyle {
        match self {
            QuoteStyle::AlwaysDouble | QuoteStyle::PreferDouble => JsxQuoteStyle::PreferDouble,
            QuoteStyle::AlwaysSingle | QuoteStyle::PreferSingle => JsxQuoteStyle::PreferSingle,
        }
    }

    /// The quotes of JSX attributes that go with these quotes.
    pub fn to_jsx_quote_style(&self) -> (r: JsxQuoteStyle)
        ensures
            r == self.jsx_quote_style(),
    {
        match self {
            QuoteStyle::AlwaysDouble | QuoteStyle::PreferDouble => JsxQuoteStyle::PreferDouble,
            QuoteStyle::AlwaysSingle | QuoteStyle::PreferSingle => JsxQuoteStyle::PreferSingle,
        }
    }
}

/// Which quotes a JSX attribute gets.
#[derive(Clone, Copy, PartialEq, Eq, Debug, Structural)]
pub enum JsxQuoteStyle {
    /// `"preferDouble"`: double, unless the text holds more of them.
    PreferDouble,
    /// `"preferSingle"`: single, unless the text holds more of them.
    PreferSingle,
}

impl JsxQuoteStyle {
    /// The value that `text` names, if it names one.
    pub open spec fn from_text(text: Seq<char>) -> Option<JsxQuoteStyle> {
        if text == "preferDouble"@ {
            Some(JsxQuoteStyle::PreferDouble)
        } else if text == "preferSingle"@ {
            Some(JsxQuoteStyle::PreferSingle)
        } else {
            None
        }
    }

    /// Reads the name of a value.
    pub fn parse(text: &str) -> (r: Option<JsxQuoteStyle>)
        ensures
            r == JsxQuoteStyle::from_text(text@),
    {
        if same_text(text, "preferDouble") {
            Some(JsxQuoteStyle::PreferDouble)
        } else if same_text(text, "preferSingle") {
            Some(JsxQuoteStyle::PreferSingle)
        } else {
            None
        }
    }
}

/// Whether property names are quoted.
#[derive(Clone, Copy, PartialEq, Eq, Debug, Structural)]
pub enum QuoteProps {
    /// `"preserve"`: as they were.
    Preserve,
    /// `"asNeeded"`: only where needed.
    AsNeeded,
    /// `"consistent"`: all, where one needs it.
    Consistent,
}

impl QuoteProps {
    /// The value that `text` names, if it names one.
    pub open spec fn from_text(text: Seq<char>) -> Option<QuoteProps> {
        if text == "preserve"@ {
            Some(QuoteProps::Preserve)
        } else if text == "asNeeded"@ {
            Some(QuoteProps::AsNeeded)
        } else if text == "consistent"@ {
            Some(QuoteProps::Consistent)
        } else {
            None
        }
    }

    /// Reads the name of a value.
    pub fn parse(text: &str) -> (r: Option<QuoteProps>)
        ensures
            r == QuoteProps::from_text(text@),
    {
        if same_text(text, "preserve") {
            Some(QuoteProps::Preserve)
        } else if same_text(text, "asNeeded") {
            Some(QuoteProps::AsNeeded)
        } else if same_text(text, "consistent") {
            Some(QuoteProps::Consistent)
        } else {
            None
        }
    }
}

/// Whether JSX that spans lines gets parentheses.
#[derive(Clone, Copy, PartialEq, Eq, Debug, Structural)]
pub enum JsxMultiLineParens {
    /// `"never"`: never.
    Never,
    /// `"prefer"`: unless it is an argument or an attribute.
    Prefer,
    /// `"always"`: always.
    Always,
}

impl JsxMultiLineParens {
    /// The value that `text` names, if it names one.
    pub open spec fn from_text(text: Seq<char>) -> Option<JsxMultiLineParens> {
        if text == "never"@ {
            Some(JsxMultiLineParens::Never)
        } else if text == "prefer"@ {
            Some(JsxMultiLineParens::Prefer)
        } else if text == "always"@ {
            Some(JsxMultiLineParens::Always)
        } else {
            None
        }
    }

    /// Reads the name of a value.
    pub fn parse(text: &str) -> (r: Option<JsxMultiLineParens>)
        ensures
            r == JsxMultiLineParens::from_text(text@),
    {
        if same_text(text, "never") {
            Some(JsxMultiLineParens::Never)
        } else if same_text(text, "prefer") {
            Some(JsxMultiLineParens::Prefer)
        } else if same_text(text, "always") {
            Some(JsxMultiLineParens::Always)
        } else {
            None
        }
    }
}

/// What separates the members of a type literal.
#[derive(Clone, Copy, PartialEq, Eq, Debug, Structural)]
pub enum SemiColonOrComma {
    /// `"semiColon"`: a semicolon.
    SemiColon,
    /// `"comma"`: a comma.
    Comma,
}

impl SemiColonOrComma {
    /// The value that `text` names, if it names one.
    pub open spec fn from_text(text: Seq<char>) -> Option<SemiColonOrComma> {
        if text == "semiColon"@ {
            Some(SemiColonOrComma::SemiColon)
        } else if text == "comma"@ {
            Some(SemiColonOrComma::Comma)
        } else {
            None
        }
    }

    /// Reads the name of a value.
    pub fn parse(text: &str) -> (r: Option<SemiColonOrComma>)
        ensures
            r == SemiColonOrComma::from_text(text@),
    {
        if same_text(text, "semiColon") {
            Some(SemiColonOrComma::SemiColon)
        } else if same_text(text, "comma") {
            Some(SemiColonOrComma::Comma)
        } else {
            None
        }
    }
}

/// How names are sorted.
#[derive(Clone, Copy, PartialEq, Eq, Debug, Structural)]
pub enum SortOrder {
    /// `"maintain"`: not at all.
    Maintain,
    /// `"caseSensitive"`: by their letters, upper case first.
    CaseSensitive,
    /// `"caseInsensitive"`: by their letters, whatever the case.
    CaseInsensitive,
}

impl SortOrder {
    /// The value that `text` names, if it names one.
    pub open spec fn from_text(text: Seq<char>) -> Option<SortOrder> {
        if text == "maintain"@ {
            Some(SortOrder::Maintain)
        } else if text == "caseSensitive"@ {
            Some(SortOrder::CaseSensitive)
        } else if text == "caseInsensitive"@ {
            Some(SortOrder::CaseInsensitive)
        } else {
            None
        }
    }

    /// Reads the name of a value.
    pub fn parse(text: &str) -> (r: Option<SortOrder>)
        ensures
            r == SortOrder::from_text(text@),
    {
        if same_text(text, "maintain") {
            Some(SortOrder::Maintain)
        } else if same_text(text, "caseSensitive") {
            Some(SortOrder::CaseSensitive)
        } else if same_text(text, "caseInsensitive") {
            Some(SortOrder::CaseInsensitive)
        } else {
            None
        }
    }
}

/// Where names of types go among the others.
#[derive(Clone, Copy, PartialEq, Eq, Debug, Structural)]
pub enum NamedTypeImportsExportsOrder {
    /// `"first"`: before them.
    First,
    /// `"last"`: behind them.
    Last,
    /// `"none"`: among them, where they were.
    Unsorted,
}

impl NamedTypeImportsExportsOrder {
    /// The value that `text` names, if it names one.
    pub open spec fn from_text(text: Seq<char>) -> Option<NamedTypeImportsExportsOrder> {
        if text == "first"@ {
            Some(NamedTypeImportsExportsOrder::First)
        } else if text == "last"@ {
            Some(NamedTypeImportsExportsOrder::Last)
        } else if text == "none"@ {
            Some(NamedTypeImportsExportsOrder::Unsorted)
        } else {
            None
        }
    }

    /// Reads the name of a value.
    pub fn parse(text: &str) -> (r: Option<NamedTypeImportsExportsOrder>)
        ensures
            r == NamedTypeImportsExportsOrder::from_text(text@),
    {
        if same_text(text, "first") {
            Some(NamedTypeImportsExportsOrder::First)
        } else if same_text(text, "last") {
            Some(NamedTypeImportsExportsOrder::Last)
        } else if same_text(text, "none") {
            Some(NamedTypeImportsExportsOrder::Unsorted)
        } else {
            None
        }
    }
}

/// The defaults that every formatter shares, as far as they were set.
#[derive(Clone, PartialEq, Eq, Debug)]
pub struct GlobalConfiguration {
    pub line_width: Option<u32>,
    pub use_tabs: Option<bool>,
    pub indent_width: Option<u8>,
    pub new_line_kind: Option<NewLineKind>,
}

impl Default for GlobalConfiguration {
    /// The defaults of which none is set.
    fn default() -> (r: GlobalConfiguration)
        ensures
            r == (GlobalConfiguration {
                line_width: None,
                use_tabs: None,
                indent_width: None,
                new_line_kind: None,
            }),
    {
        GlobalConfiguration { line_width: None, use_tabs: None, indent_width: None, new_line_kind: None }
    }
}

/// A problem found in the options. It never stops a resolution.
#[derive(Clone, PartialEq, Eq, Debug)]
pub struct ConfigurationDiagnostic {
    /// The key of the option that the problem is about.
    pub property_name: String,
    /// What is wrong with it.
    pub message: String,
}

/// A diagnostic as the contracts see it.
pub struct ConfigurationDiagnosticView {
    pub property_name: Seq<char>,
    pub message: Seq<char>,
}

impl View for ConfigurationDiagnostic {
    type V = ConfigurationDiagnosticView;

    open spec fn view(&self) -> ConfigurationDiagnosticView {
        ConfigurationDiagnosticView { property_name: self.property_name@, message: self.message@ }
    }
}

impl DeepView for ConfigurationDiagnostic {
    type V = ConfigurationDiagnosticView;

    open spec fn deep_view(&self) -> ConfigurationDiagnosticView {
        self@
    }
}

/// The complete configuration: every option with its final value.
#[derive(Clone, PartialEq, Eq, Debug)]
pub struct Configuration {
    pub line_width: u32,
    pub use_tabs: bool,
    pub indent_width: u8,
    pub new_line_kind: NewLineKind,
    pub quote_style: QuoteStyle,
    pub quote_props: QuoteProps,
    pub semi_colons: SemiColons,
    pub file_indent_level: u32,
    /* situational */
    pub arrow_function_use_parentheses: UseParentheses,
    pub binary_expression_line_per_expression: bool,
    pub conditional_expression_line_per_expression: bool,
    pub jsx_quote_style: JsxQuoteStyle,
    pub jsx_multi_line_parens: JsxMultiLineParens,
    pub jsx_force_new_lines_surrounding_content: bool,
    pub jsx_opening_element_bracket_position: SameOrNextLinePosition,
    pub jsx_self_closing_element_bracket_position: SameOrNextLinePosition,
    pub member_expression_line_per_expression: bool,
    pub type_literal_separator_kind_single_line: SemiColonOrComma,
    pub type_literal_separator_kind_multi_line: SemiColonOrComma,
    /* sorting */
    pub module_sort_import_declarations: SortOrder,
    pub module_sort_export_declarations: SortOrder,
    pub import_declaration_sort_named_imports: SortOrder,
    pub export_declaration_sort_named_exports: SortOrder,
    pub import_declaration_sort_type_only_imports: NamedTypeImportsExportsOrder,
    pub export_declaration_sort_type_only_exports: NamedTypeImportsExportsOrder,
    /* ignore comments */
    pub ignore_node_comment_text: String,
    pub ignore_file_comment_text: String,
    /* brace position */
    pub arrow_function_brace_position: BracePosition,
    pub class_declaration_brace_position: BracePosition,
    pub class_expression_brace_position: BracePosition,
    pub constructor_brace_position: BracePosition,
    pub do_while_statement_brace_position: BracePosition,
    pub enum_declaration_brace_position: BracePosition,
    pub for_statement_brace_position: BracePosition,
    pub for_in_statement_brace_position: BracePosition,
    pub for_of_statement_brace_position: BracePosition,
    pub get_accessor_brace_position: BracePosition,
    pub if_statement_brace_position: BracePosition,
    pub interface_declaration_brace_position: BracePosition,
    pub function_declaration_brace_position: BracePosition,
    pub function_expression_brace_position: BracePosition,
    pub method_brace_position: BracePosition,
    pub module_declaration_brace_position: BracePosition,
    pub set_accessor_brace_position: BracePosition,
    pub static_block_brace_position: BracePosition,
    pub switch_case_brace_position: BracePosition,
    pub switch_statement_brace_position: BracePosition,
    pub try_statement_brace_position: BracePosition,
    pub while_statement_brace_position: BracePosition,
    /* prefer hanging */
    pub arguments_prefer_hanging: PreferHanging,
    pub array_expression_prefer_hanging: PreferHanging,
    pub array_pattern_prefer_hanging: bool,
    pub do_while_statement_prefer_hanging: bool,
    pub export_declaration_prefer_hanging: bool,
    pub extends_clause_prefer_hanging: bool,
    pub for_in_statement_prefer_hanging: bool,
    pub for_of_statement_prefer_hanging: bool,
    pub for_statement_prefer_hanging: bool,
    pub if_statement_prefer_hanging: bool,
    pub implements_clause_prefer_hanging: bool,
    pub import_declaration_prefer_hanging: bool,
    pub jsx_attributes_prefer_hanging: bool,
    pub object_expression_prefer_hanging: bool,
    pub object_pattern_prefer_hanging: bool,
    pub parameters_prefer_hanging: PreferHanging,
    pub sequence_expression_prefer_hanging: bool,
    pub switch_statement_prefer_hanging: bool,
    pub tuple_type_prefer_hanging: PreferHanging,
    pub type_literal_prefer_hanging: bool,
    pub type_parameters_prefer_hanging: PreferHanging,
    pub union_and_intersection_type_prefer_hanging: bool,
    pub variable_statement_prefer_hanging: bool,
    pub while_statement_prefer_hanging: bool,
    /* member spacing */
    pub enum_declaration_member_spacing: MemberSpacing,
    /* next control flow position */
    pub if_statement_next_control_flow_position: NextControlFlowPosition,
    pub try_statement_next_control_flow_position: NextControlFlowPosition,
    pub do_while_statement_next_control_flow_position: NextControlFlowPosition,
    /* operator position */
    pub binary_expression_operator_position: OperatorPosition,
    pub conditional_expression_operator_position: OperatorPosition,
    pub conditional_type_operator_position: OperatorPosition,
    /* single body position */
    pub if_statement_single_body_position: SameOrNextLinePosition,
    pub for_statement_single_body_position: SameOrNextLinePosition,
    pub for_in_statement_single_body_position: SameOrNextLinePosition,
    pub for_of_statement_single_body_position: SameOrNextLinePosition,
    pub while_statement_single_body_position: SameOrNextLinePosition,
    /* trailing commas */
    pub arguments_trailing_commas: TrailingCommas,
    pub parameters_trailing_commas: TrailingCommas,
    pub array_expression_trailing_commas: TrailingCommas,
    pub array_pattern_trailing_commas: TrailingCommas,
    pub enum_declaration_trailing_commas: TrailingCommas,
    pub export_declaration_trailing_commas: TrailingCommas,
    pub import_declaration_trailing_commas: TrailingCommas,
    pub object_expression_trailing_commas: TrailingCommas,
    pub object_pattern_trailing_commas: TrailingCommas,
    pub tuple_type_trailing_commas: TrailingCommas,
    pub type_literal_trailing_commas: TrailingCommas,
    pub type_parameters_trailing_commas: TrailingCommas,
    /* use braces */
    pub if_statement_use_braces: UseBraces,
    pub for_statement_use_braces: UseBraces,
    pub for_in_statement_use_braces: UseBraces,
    pub for_of_statement_use_braces: UseBraces,
    pub while_statement_use_braces: UseBraces,
    /* prefer single line */
    pub array_expression_prefer_single_line: bool,
    pub array_pattern_prefer_single_line: bool,
    pub arguments_prefer_single_line: bool,
    pub binary_expression_prefer_single_line: bool,
    pub computed_prefer_single_line: bool,
    pub conditional_expression_prefer_single_line: bool,
    pub conditional_type_prefer_single_line: bool,
    pub decorators_prefer_single_line: bool,
    pub export_declaration_prefer_single_line: bool,
    pub for_statement_prefer_single_line: bool,
    pub import_declaration_prefer_single_line: bool,
    pub jsx_attributes_prefer_single_line: bool,
    pub jsx_element_prefer_single_line: bool,
    pub mapped_type_prefer_single_line: bool,
    pub member_expression_prefer_single_line: bool,
    pub object_expression_prefer_single_line: bool,
    pub object_pattern_prefer_single_line: bool,
    pub parameters_prefer_single_line: bool,
    pub parentheses_prefer_single_line: bool,
    pub tuple_type_prefer_single_line: bool,
    pub type_literal_prefer_single_line: bool,
    pub type_parameters_prefer_single_line: bool,
    pub union_and_intersection_type_prefer_single_line: bool,
    pub variable_statement_prefer_single_line: bool,
    /* force single line */
    pub import_declaration_force_single_line: bool,
    pub export_declaration_force_single_line: bool,
    /* force multi line specifiers */
    pub import_declaration_force_multi_line: ForceMultiLine,
    pub export_declaration_force_multi_line: ForceMultiLine,
    /* space settings */
    pub binary_expression_space_surrounding_bitwise_and_arithmetic_operator: bool,
    pub comment_line_force_space_after_slashes: bool,
    pub construct_signature_space_after_new_keyword: bool,
    pub constructor_space_before_parentheses: bool,
    pub constructor_type_space_after_new_keyword: bool,
    pub do_while_statement_space_after_while_keyword: bool,
    pub export_declaration_space_surrounding_named_exports: bool,
    pub for_statement_space_after_for_keyword: bool,
    pub for_statement_space_after_semi_colons: bool,
    pub for_in_statement_space_after_for_keyword: bool,
    pub for_of_statement_space_after_for_keyword: bool,
    pub function_declaration_space_before_parentheses: bool,
    pub function_expression_space_before_parentheses: bool,
    pub function_expression_space_after_function_keyword: bool,
    pub get_accessor_space_before_parentheses: bool,
    pub if_statement_space_after_if_keyword: bool,
    pub import_declaration_space_surrounding_named_imports: bool,
    pub jsx_expression_container_space_surrounding_expression: bool,
    pub jsx_self_closing_element_space_before_slash: bool,
    pub method_space_before_parentheses: bool,
    pub object_expression_space_surrounding_properties: bool,
    pub object_pattern_space_surrounding_properties: bool,
    pub set_accessor_space_before_parentheses: bool,
    pub space_surrounding_properties: bool,
    pub tagged_template_space_before_literal: bool,
    pub type_annotation_space_before_colon: bool,
    pub type_assertion_space_before_expression: bool,
    pub type_literal_space_surrounding_properties: bool,
    pub while_statement_space_after_while_keyword: bool,
    pub arguments_space_around: bool,
    pub array_expression_space_around: bool,
    pub array_pattern_space_around: bool,
    pub catch_clause_space_around: bool,
    pub do_while_statement_space_around: bool,
    pub for_in_statement_space_around: bool,
    pub for_of_statement_space_around: bool,
    pub for_statement_space_around: bool,
    pub if_statement_space_around: bool,
    pub parameters_space_around: bool,
    pub paren_expression_space_around: bool,
    pub switch_statement_space_around: bool,
    pub tuple_type_space_around: bool,
    pub while_statement_space_around: bool,
}

/// A configuration as the contracts see it.
pub struct ConfigurationView {
    pub line_width: u32,
    pub use_tabs: bool,
    pub indent_width: u8,
    pub new_line_kind: NewLineKind,
    pub quote_style: QuoteStyle,
    pub quote_props: QuoteProps,
    pub semi_colons: SemiColons,
    pub file_indent_level: u32,
    pub arrow_function_use_parentheses: UseParentheses,
    pub binary_expression_line_per_expression: bool,
    pub conditional_expression_line_per_expression: bool,
    pub jsx_quote_style: JsxQuoteStyle,
    pub jsx_multi_line_parens: JsxMultiLineParens,
    pub jsx_force_new_lines_surrounding_content: bool,
    pub jsx_opening_element_bracket_position: SameOrNextLinePosition,
    pub jsx_self_closing_element_bracket_position: SameOrNextLinePosition,
    pub member_expression_line_per_expression: bool,
    pub type_literal_separator_kind_single_line: SemiColonOrComma,
    pub type_literal_separator_kind_multi_line: SemiColonOrComma,
    pub module_sort_import_declarations: SortOrder,
    pub module_sort_export_declarations: SortOrder,
    pub import_declaration_sort_named_imports: SortOrder,
    pub export_declaration_sort_named_exports: SortOrder,
    pub import_declaration_sort_type_only_imports: NamedTypeImportsExportsOrder,
    pub export_declaration_sort_type_only_exports: NamedTypeImportsExportsOrder,
    pub ignore_node_comment_text: Seq<char>,
    pub ignore_file_comment_text: Seq<char>,
    pub arrow_function_brace_position: BracePosition,
    pub class_declaration_brace_position: BracePosition,
    pub class_expression_brace_position: BracePosition,
    pub constructor_brace_position: BracePosition,
    pub do_while_statement_brace_position: BracePosition,
    pub enum_declaration_brace_position: BracePosition,
    pub for_statement_brace_position: BracePosition,
    pub for_in_statement_brace_position: BracePosition,
    pub for_of_statement_brace_position: BracePosition,
    pub get_accessor_brace_position: BracePosition,
    pub if_statement_brace_position: BracePosition,
    pub interface_declaration_brace_position: BracePosition,
    pub function_declaration_brace_position: BracePosition,
    pub function_expression_brace_position: BracePosition,
    pub method_brace_position: BracePosition,
    pub module_declaration_brace_position: BracePosition,
    pub set_accessor_brace_position: BracePosition,
    pub static_block_brace_position: BracePosition,
    pub switch_case_brace_position: BracePosition,
    pub switch_statement_brace_position: BracePosition,
    pub try_statement_brace_position: BracePosition,
    pub while_statement_brace_position: BracePosition,
    pub arguments_prefer_hanging: PreferHanging,
    pub array_expression_prefer_hanging: PreferHanging,
    pub array_pattern_prefer_hanging: bool,
    pub do_while_statement_prefer_hanging: bool,
    pub export_declaration_prefer_hanging: bool,
    pub extends_clause_prefer_hanging: bool,
    pub for_in_statement_prefer_hanging: bool,
    pub for_of_statement_prefer_hanging: bool,
    pub for_statement_prefer_hanging: bool,
    pub if_statement_prefer_hanging: bool,
    pub implements_clause_prefer_hanging: bool,
    pub import_declaration_prefer_hanging: bool,
    pub jsx_attributes_prefer_hanging: bool,
    pub object_expression_prefer_hanging: bool,
    pub object_pattern_prefer_hanging: bool,
    pub parameters_prefer_hanging: PreferHanging,
    pub sequence_expression_prefer_hanging: bool,
    pub switch_statement_prefer_hanging: bool,
    pub tuple_type_prefer_hanging: PreferHanging,
    pub type_literal_prefer_hanging: bool,
    pub type_parameters_prefer_hanging: PreferHanging,
    pub union_and_intersection_type_prefer_hanging: bool,
    pub variable_statement_prefer_hanging: bool,
    pub while_statement_prefer_hanging: bool,
    pub enum_declaration_member_spacing: MemberSpacing,
    pub if_statement_next_control_flow_position: NextControlFlowPosition,
    pub try_statement_next_control_flow_position: NextControlFlowPosition,
    pub do_while_statement_next_control_flow_position: NextControlFlowPosition,
    pub binary_expression_operator_position: OperatorPosition,
    pub conditional_expression_operator_position: OperatorPosition,
    pub conditional_type_operator_position: OperatorPosition,
    pub if_statement_single_body_position: SameOrNextLinePosition,
    pub for_statement_single_body_position: SameOrNextLinePosition,
    pub for_in_statement_single_body_position: SameOrNextLinePosition,
    pub for_of_statement_single_body_position: SameOrNextLinePosition,
    pub while_statement_single_body_position: SameOrNextLinePosition,
    pub arguments_trailing_commas: TrailingCommas,
    pub parameters_trailing_commas: TrailingCommas,
    pub array_expression_trailing_commas: TrailingCommas,
    pub array_pattern_trailing_commas: TrailingCommas,
    pub enum_declaration_trailing_commas: TrailingCommas,
    pub export_declaration_trailing_commas: TrailingCommas,
    pub import_declaration_trailing_commas: TrailingCommas,
    pub object_expression_trailing_commas: TrailingCommas,
    pub object_pattern_trailing_commas: TrailingCommas,
    pub tuple_type_trailing_commas: TrailingCommas,
    pub type_literal_trailing_commas: TrailingCommas,
    pub type_parameters_trailing_commas: TrailingCommas,
    pub if_statement_use_braces: UseBraces,
    pub for_statement_use_braces: UseBraces,
    pub for_in_statement_use_braces: UseBraces,
    pub for_of_statement_use_braces: UseBraces,
    pub while_statement_use_braces: UseBraces,
    pub array_expression_prefer_single_line: bool,
    pub array_pattern_prefer_single_line: bool,
    pub arguments_prefer_single_line: bool,
    pub binary_expression_prefer_single_line: bool,
    pub computed_prefer_single_line: bool,
    pub conditional_expression_prefer_single_line: bool,
    pub conditional_type_prefer_single_line: bool,
    pub decorators_prefer_single_line: bool,
    pub export_declaration_prefer_single_line: bool,
    pub for_statement_prefer_single_line: bool,
    pub import_declaration_prefer_single_line: bool,
    pub jsx_attributes_prefer_single_line: bool,
    pub jsx_element_prefer_single_line: bool,
    pub mapped_type_prefer_single_line: bool,
    pub member_expression_prefer_single_line: bool,
    pub object_expression_prefer_single_line: bool,
    pub object_pattern_prefer_single_line: bool,
    pub parameters_prefer_single_line: bool,
    pub parentheses_prefer_single_line: bool,
    pub tuple_type_prefer_single_line: bool,
    pub type_literal_prefer_single_line: bool,
    pub type_parameters_prefer_single_line: bool,
    pub union_and_intersection_type_prefer_single_line: bool,
    pub variable_statement_prefer_single_line: bool,
    pub import_declaration_force_single_line: bool,
    pub export_declaration_force_single_line: bool,
    pub import_declaration_force_multi_line: ForceMultiLine,
    pub export_declaration_force_multi_line: ForceMultiLine,
    pub binary_expression_space_surrounding_bitwise_and_arithmetic_operator: bool,
    pub comment_line_force_space_after_slashes: bool,
    pub construct_signature_space_after_new_keyword: bool,
    pub constructor_space_before_parentheses: bool,
    pub constructor_type_space_after_new_keyword: bool,
    pub do_while_statement_space_after_while_keyword: bool,
    pub export_declaration_space_surrounding_named_exports: bool,
    pub for_statement_space_after_for_keyword: bool,
    pub for_statement_space_after_semi_colons: bool,
    pub for_in_statement_space_after_for_keyword: bool,
    pub for_of_statement_space_after_for_keyword: bool,
    pub function_declaration_space_before_parentheses: bool,
    pub function_expression_space_before_parentheses: bool,
    pub function_expression_space_after_function_keyword: bool,
    pub get_accessor_space_before_parentheses: bool,
    pub if_statement_space_after_if_keyword: bool,
    pub import_declaration_space_surrounding_named_imports: bool,
    pub jsx_expression_container_space_surrounding_expression: bool,
    pub jsx_self_closing_element_space_before_slash: bool,
    pub method_space_before_parentheses: bool,
    pub object_expression_space_surrounding_properties: bool,
    pub object_pattern_space_surrounding_properties: bool,
    pub set_accessor_space_before_parentheses: bool,
    pub space_surrounding_properties: bool,
    pub tagged_template_space_before_literal: bool,
    pub type_annotation_space_before_colon: bool,
    pub type_assertion_space_before_expression: bool,
    pub type_literal_space_surrounding_properties: bool,
    pub while_statement_space_after_while_keyword: bool,
    pub arguments_space_around: bool,
    pub array_expression_space_around: bool,
    pub array_pattern_space_around: bool,
    pub catch_clause_space_around: bool,
    pub do_while_statement_space_around: bool,
    pub for_in_statement_space_around: bool,
    pub for_of_statement_space_around: bool,
    pub for_statement_space_around: bool,
    pub if_statement_space_around: bool,
    pub parameters_space_around: bool,
    pub paren_expression_space_around: bool,
    pub switch_statement_space_around: bool,
    pub tuple_type_space_around: bool,
    pub while_statement_space_around: bool,
}

impl View for Configuration {
    type V = ConfigurationView;

    open spec fn view(&self) -> ConfigurationView {
        ConfigurationView {
            line_width: self.line_width,
            use_tabs: self.use_tabs,
            indent_width: self.indent_width,
            new_line_kind: self.new_line_kind,
            quote_style: self.quote_style,
            quote_props: self.quote_props,
            semi_colons: self.semi_colons,
            file_indent_level: self.file_indent_level,
            arrow_function_use_parentheses: self.arrow_function_use_parentheses,
            binary_expression_line_per_expression: self.binary_expression_line_per_expression,
            conditional_expression_line_per_expression: self.conditional_expression_line_per_expression,
            jsx_quote_style: self.jsx_quote_style,
            jsx_multi_line_parens: self.jsx_multi_line_parens,
            jsx_force_new_lines_surrounding_content: self.jsx_force_new_lines_surrounding_content,
            jsx_opening_element_bracket_position: self.jsx_opening_element_bracket_position,
            jsx_self_closing_element_bracket_position: self.jsx_self_closing_element_bracket_position,
            member_expression_line_per_expression: self.member_expression_line_per_expression,
            type_literal_separator_kind_single_line: self.type_literal_separator_kind_single_line,
            type_literal_separator_kind_multi_line: self.type_literal_separator_kind_multi_line,
            module_sort_import_declarations: self.module_sort_import_declarations,
            module_sort_export_declarations: self.module_sort_export_declarations,
            import_declaration_sort_named_imports: self.import_declaration_sort_named_imports,
            export_declaration_sort_named_exports: self.export_declaration_sort_named_exports,
            import_declaration_sort_type_only_imports: self.import_declaration_sort_type_only_imports,
            export_declaration_sort_type_only_exports: self.export_declaration_sort_type_only_exports,
            ignore_node_comment_text: self.ignore_node_comment_text@,
            ignore_file_comment_text: self.ignore_file_comment_text@,
            arrow_function_brace_position: self.arrow_function_brace_position,
            class_declaration_brace_position: self.class_declaration_brace_position,
            class_expression_brace_position: self.class_expression_brace_position,
            constructor_brace_position: self.constructor_brace_position,
            do_while_statement_brace_position: self.do_while_statement_brace_position,
            enum_declaration_brace_position: self.enum_declaration_brace_position,
            for_statement_brace_position: self.for_statement_brace_position,
            for_in_statement_brace_position: self.for_in_statement_brace_position,
            for_of_statement_brace_position: self.for_of_statement_brace_position,
            get_accessor_brace_position: self.get_accessor_brace_position,
            if_statement_brace_position: self.if_statement_brace_position,
            interface_declaration_brace_position: self.interface_declaration_brace_position,
            function_declaration_brace_position: self.function_declaration_brace_position,
            function_expression_brace_position: self.function_expression_brace_position,
            method_brace_position: self.method_brace_position,
            module_declaration_brace_position: self.module_declaration_brace_position,
            set_accessor_brace_position: self.set_accessor_brace_position,
            static_block_brace_position: self.static_block_brace_position,
            switch_case_brace_position: self.switch_case_brace_position,
            switch_statement_brace_position: self.switch_statement_brace_position,
            try_statement_brace_position: self.try_statement_brace_position,
            while_statement_brace_position: self.while_statement_brace_position,
            arguments_prefer_hanging: self.arguments_prefer_hanging,
            array_expression_prefer_hanging: self.array_expression_prefer_hanging,
            array_pattern_prefer_hanging: self.array_pattern_prefer_hanging,
            do_while_statement_prefer_hanging: self.do_while_statement_prefer_hanging,
            export_declaration_prefer_hanging: self.export_declaration_prefer_hanging,
            extends_clause_prefer_hanging: self.extends_clause_prefer_hanging,
            for_in_statement_prefer_hanging: self.for_in_statement_prefer_hanging,
            for_of_statement_prefer_hanging: self.for_of_statement_prefer_hanging,
            for_statement_prefer_hanging: self.for_statement_prefer_hanging,
            if_statement_prefer_hanging: self.if_statement_prefer_hanging,
            implements_clause_prefer_hanging: self.implements_clause_prefer_hanging,
            import_declaration_prefer_hanging: self.import_declaration_prefer_hanging,
            jsx_attributes_prefer_hanging: self.jsx_attributes_prefer_hanging,
            object_expression_prefer_hanging: self.object_expression_prefer_hanging,
            object_pattern_prefer_hanging: self.object_pattern_prefer_hanging,
            parameters_prefer_hanging: self.parameters_prefer_hanging,
            sequence_expression_prefer_hanging: self.sequence_expression_prefer_hanging,
            switch_statement_prefer_hanging: self.switch_statement_prefer_hanging,
            tuple_type_prefer_hanging: self.tuple_type_prefer_hanging,
            type_literal_prefer_hanging: self.type_literal_prefer_hanging,
            type_parameters_prefer_hanging: self.type_parameters_prefer_hanging,
            union_and_intersection_type_prefer_hanging: self.union_and_intersection_type_prefer_hanging,
            variable_statement_prefer_hanging: self.variable_statement_prefer_hanging,
            while_statement_prefer_hanging: self.while_statement_prefer_hanging,
            enum_declaration_member_spacing: self.enum_declaration_member_spacing,
            if_statement_next_control_flow_position: self.if_statement_next_control_flow_position,
            try_statement_next_control_flow_position: self.try_statement_next_control_flow_position,
            do_while_statement_next_control_flow_position: self.do_while_statement_next_control_flow_position,
            binary_expression_operator_position: self.binary_expression_operator_position,
            conditional_expression_operator_position: self.conditional_expression_operator_position,
            conditional_type_operator_position: self.conditional_type_operator_position,
            if_statement_single_body_position: self.if_statement_single_body_position,
            for_statement_single_body_position: self.for_statement_single_body_position,
            for_in_statement_single_body_position: self.for_in_statement_single_body_position,
            for_of_statement_single_body_position: self.for_of_statement_single_body_position,
            while_statement_single_body_position: self.while_statement_single_body_position,
            arguments_trailing_commas: self.arguments_trailing_commas,
            parameters_trailing_commas: self.parameters_trailing_commas,
            array_expression_trailing_commas: self.array_expression_trailing_commas,
            array_pattern_trailing_commas: self.array_pattern_trailing_commas,
            enum_declaration_trailing_commas: self.enum_declaration_trailing_commas,
            export_declaration_trailing_commas: self.export_declaration_trailing_commas,
            import_declaration_trailing_commas: self.import_declaration_trailing_commas,
            object_expression_trailing_commas: self.object_expression_trailing_commas,
            object_pattern_trailing_commas: self.object_pattern_trailing_commas,
            tuple_type_trailing_commas: self.tuple_type_trailing_commas,
            type_literal_trailing_commas: self.type_literal_trailing_commas,
            type_parameters_trailing_commas: self.type_parameters_trailing_commas,
            if_statement_use_braces: self.if_statement_use_braces,
            for_statement_use_braces: self.for_statement_use_braces,
            for_in_statement_use_braces: self.for_in_statement_use_braces,
            for_of_statement_use_braces: self.for_of_statement_use_braces,
            while_statement_use_braces: self.while_statement_use_braces,
            array_expression_prefer_single_line: self.array_expression_prefer_single_line,
            array_pattern_prefer_single_line: self.array_pattern_prefer_single_line,
            arguments_prefer_single_line: self.arguments_prefer_single_line,
            binary_expression_prefer_single_line: self.binary_expression_prefer_single_line,
            computed_prefer_single_line: self.computed_prefer_single_line,
            conditional_expression_prefer_single_line: self.conditional_expression_prefer_single_line,
            conditional_type_prefer_single_line: self.conditional_type_prefer_single_line,
            decorators_prefer_single_line: self.decorators_prefer_single_line,
            export_declaration_prefer_single_line: self.export_declaration_prefer_single_line,
            for_statement_prefer_single_line: self.for_statement_prefer_single_line,
            import_declaration_prefer_single_line: self.import_declaration_prefer_single_line,
            jsx_attributes_prefer_single_line: self.jsx_attributes_prefer_single_line,
            jsx_element_prefer_single_line: self.jsx_element_prefer_single_line,
            mapped_type_prefer_single_line: self.mapped_type_prefer_single_line,
            member_expression_prefer_single_line: self.member_expression_prefer_single_line,
            object_expression_prefer_single_line: self.object_expression_prefer_single_line,
            object_pattern_prefer_single_line: self.object_pattern_prefer_single_line,
            parameters_prefer_single_line: self.parameters_prefer_single_line,
            parentheses_prefer_single_line: self.parentheses_prefer_single_line,
            tuple_type_prefer_single_line: self.tuple_type_prefer_single_line,
            type_literal_prefer_single_line: self.type_literal_prefer_single_line,
            type_parameters_prefer_single_line: self.type_parameters_prefer_single_line,
            union_and_intersection_type_prefer_single_line: self.union_and_intersection_type_prefer_single_line,
            variable_statement_prefer_single_line: self.variable_statement_prefer_single_line,
            import_declaration_force_single_line: self.import_declaration_force_single_line,
            export_declaration_force_single_line: self.export_declaration_force_single_line,
            import_declaration_force_multi_line: self.import_declaration_force_multi_line,
            export_declaration_force_multi_line: self.export_declaration_force_multi_line,
            binary_expression_space_surrounding_bitwise_and_arithmetic_operator: self.binary_expression_space_surrounding_bitwise_and_arithmetic_operator,
            comment_line_force_space_after_slashes: self.comment_line_force_space_after_slashes,
            construct_signature_space_after_new_keyword: self.construct_signature_space_after_new_keyword,
            constructor_space_before_parentheses: self.constructor_space_before_parentheses,
            constructor_type_space_after_new_keyword: self.constructor_type_space_after_new_keyword,
            do_while_statement_space_after_while_keyword: self.do_while_statement_space_after_while_keyword,
            export_declaration_space_surrounding_named_exports: self.export_declaration_space_surrounding_named_exports,
            for_statement_space_after_for_keyword: self.for_statement_space_after_for_keyword,
            for_statement_space_after_semi_colons: self.for_statement_space_after_semi_colons,
            for_in_statement_space_after_for_keyword: self.for_in_statement_space_after_for_keyword,
            for_of_statement_space_after_for_keyword: self.for_of_statement_space_after_for_keyword,
            function_declaration_space_before_parentheses: self.function_declaration_space_before_parentheses,
            function_expression_space_before_parentheses: self.function_expression_space_before_parentheses,
            function_expression_space_after_function_keyword: self.function_expression_space_after_function_keyword,
            get_accessor_space_before_parentheses: self.get_accessor_space_before_parentheses,
            if_statement_space_after_if_keyword: self.if_statement_space_after_if_keyword,
            import_declaration_space_surrounding_named_imports: self.import_declaration_space_surrounding_named_imports,
            jsx_expression_container_space_surrounding_expression: self.jsx_expression_container_space_surrounding_expression,
            jsx_self_closing_element_space_before_slash: self.jsx_self_closing_element_space_before_slash,
            method_space_before_parentheses: self.method_space_before_parentheses,
            object_expression_space_surrounding_properties: self.object_expression_space_surrounding_properties,
            object_pattern_space_surrounding_properties: self.object_pattern_space_surrounding_properties,
            set_accessor_space_before_parentheses: self.set_accessor_space_before_parentheses,
            space_surrounding_properties: self.space_surrounding_properties,
            tagged_template_space_before_literal: self.tagged_template_space_before_literal,
            type_annotation_space_before_colon: self.type_annotation_space_before_colon,
            type_assertion_space_before_expression: self.type_assertion_space_before_expression,
            type_literal_space_surrounding_properties: self.type_literal_space_surrounding_properties,
            while_statement_space_after_while_keyword: self.while_statement_space_after_while_keyword,
            arguments_space_around: self.arguments_space_around,
            array_expression_space_around: self.array_expression_space_around,
            array_pattern_space_around: self.array_pattern_space_around,
            catch_clause_space_around: self.catch_clause_space_around,
            do_while_statement_space_around: self.do_while_statement_space_around,
            for_in_statement_space_around: self.for_in_statement_space_around,
            for_of_statement_space_around: self.for_of_statement_space_around,
            for_statement_space_around: self.for_statement_space_around,
            if_statement_space_around: self.if_statement_space_around,
            parameters_space_around: self.parameters_space_around,
            paren_expression_space_around: self.paren_expression_space_around,
            switch_statement_space_around: self.switch_statement_space_around,
            tuple_type_space_around: self.tuple_type_space_around,
            while_statement_space_around: self.while_statement_space_around,
        }
    }
}

/// What a resolution hands back: the configuration, and the problems found
/// on the way, in the order in which they were found.
#[derive(Clone, PartialEq, Eq, Debug)]
pub struct ResolveConfigurationResult {
    /// The problems found in the options.
    pub diagnostics: Vec<ConfigurationDiagnostic>,
    /// The configuration that the options resolve to.
    pub config: Configuration,
}

} // verus!
