//! The options: each with its key, the kind of its value and where its
//! default comes from, in the order in which they are resolved.

use super::setting::Kind;
use super::setting::Scalar;
use super::types::BracePosition;
use super::types::ForceMultiLine;
use super::types::JsxMultiLineParens;
use super::types::MemberSpacing;
use super::types::NamedTypeImportsExportsOrder;
use super::types::NextControlFlowPosition;
use super::types::OperatorPosition;
use super::types::QuoteProps;
use super::types::QuoteStyle;
use super::types::SameOrNextLinePosition;
use super::types::SemiColonOrComma;
use super::types::SemiColons;
use super::types::SortOrder;
use super::types::TrailingCommas;
use super::types::UseBraces;
use super::types::UseParentheses;
use vstd::prelude::*;

verus! {

/// Where the default of an option comes from.
#[derive(Clone, Copy, Debug)]
pub enum Source {
    /// A value that never changes.
    Fixed(Scalar),
    /// A text that never changes.
    Words(&'static str),
    /// The global default for the kind of the option.
    Global,
    /// The value of the option with this number, which is of the same kind.
    Inherit(usize),
    /// The switch with this number, read as a preference for hanging:
    /// always where it is on, never where it is off.
    Hanging(usize),
    /// The quotes that go with the quote style with this number.
    JsxQuotes(usize),
    /// The value of the switch with this number where the options gave it a
    /// value, and else the value beside it.
    Given(usize, bool),
}

/// An option.
#[derive(Clone, Copy, Debug)]
pub struct Rule {
    /// The key under which the option is set.
    pub key: &'static str,
    /// The kind of its value.
    pub kind: Kind,
    /// Where its default comes from.
    pub source: Source,
}

/// How many options there are.
pub const OPTION_COUNT: usize = 185;

/// The number of the option `deno`.
pub const DENO: usize = 0;

/// The number of the option `semiColons`.
pub const SEMI_COLONS: usize = 1;

/// The number of the option `bracePosition`.
pub const BRACE_POSITION: usize = 2;

/// The number of the option `nextControlFlowPosition`.
pub const NEXT_CONTROL_FLOW_POSITION: usize = 3;

/// The number of the option `operatorPosition`.
pub const OPERATOR_POSITION: usize = 4;

/// The number of the option `singleBodyPosition`.
pub const SINGLE_BODY_POSITION: usize = 5;

/// The number of the option `trailingCommas`.
pub const TRAILING_COMMAS: usize = 6;

/// The number of the option `useBraces`.
pub const USE_BRACES: usize = 7;

/// The number of the option `preferHanging`.
pub const PREFER_HANGING: usize = 8;

/// The number of the option `preferSingleLine`.
pub const PREFER_SINGLE_LINE: usize = 9;

/// The number of the option `spaceSurroundingProperties`.
pub const SPACE_SURROUNDING_PROPERTIES: usize = 10;

/// The number of the option `typeLiteral.separatorKind`.
pub const TYPE_LITERAL_SEPARATOR_KIND: usize = 11;

/// The number of the option `quoteStyle`.
pub const QUOTE_STYLE: usize = 12;

/// The number of the option `quoteProps`.
pub const QUOTE_PROPS: usize = 13;

/// The number of the option `spaceAround`.
pub const SPACE_AROUND: usize = 14;

/// The number of the option `jsx.bracketPosition`.
pub const JSX_BRACKET_POSITION: usize = 15;

/// The number of the option `lineWidth`.
pub const LINE_WIDTH: usize = 16;

/// The number of the option `useTabs`.
pub const USE_TABS: usize = 17;

/// The number of the option `indentWidth`.
pub const INDENT_WIDTH: usize = 18;

/// The number of the option `newLineKind`.
pub const NEW_LINE_KIND: usize = 19;

/// The number of the option `fileIndentLevel`.
pub const FILE_INDENT_LEVEL: usize = 20;

/// The number of the option `arrowFunction.useParentheses`.
pub const ARROW_FUNCTION_USE_PARENTHESES: usize = 21;

/// The number of the option `binaryExpression.linePerExpression`.
pub const BINARY_EXPRESSION_LINE_PER_EXPRESSION: usize = 22;

/// The number of the option `conditionalExpression.linePerExpression`.
pub const CONDITIONAL_EXPRESSION_LINE_PER_EXPRESSION: usize = 23;

/// The number of the option `jsx.quoteStyle`.
pub const JSX_QUOTE_STYLE: usize = 24;

/// The number of the option `jsx.multiLineParens`.
pub const JSX_MULTI_LINE_PARENS: usize = 25;

/// The number of the option `jsx.forceNewLinesSurroundingContent`.
pub const JSX_FORCE_NEW_LINES_SURROUNDING_CONTENT: usize = 26;

/// The number of the option `jsxOpeningElement.bracketPosition`.
pub const JSX_OPENING_ELEMENT_BRACKET_POSITION: usize = 27;

/// The number of the option `jsxSelfClosingElement.bracketPosition`.
pub const JSX_SELF_CLOSING_ELEMENT_BRACKET_POSITION: usize = 28;

/// The number of the option `memberExpression.linePerExpression`.
pub const MEMBER_EXPRESSION_LINE_PER_EXPRESSION: usize = 29;

/// The number of the option `typeLiteral.separatorKind.singleLine`.
pub const TYPE_LITERAL_SEPARATOR_KIND_SINGLE_LINE: usize = 30;

/// The number of the option `typeLiteral.separatorKind.multiLine`.
pub const TYPE_LITERAL_SEPARATOR_KIND_MULTI_LINE: usize = 31;

/// The number of the option `module.sortImportDeclarations`.
pub const MODULE_SORT_IMPORT_DECLARATIONS: usize = 32;

/// The number of the option `module.sortExportDeclarations`.
pub const MODULE_SORT_EXPORT_DECLARATIONS: usize = 33;

/// The number of the option `importDeclaration.sortNamedImports`.
pub const IMPORT_DECLARATION_SORT_NAMED_IMPORTS: usize = 34;

/// The number of the option `exportDeclaration.sortNamedExports`.
pub const EXPORT_DECLARATION_SORT_NAMED_EXPORTS: usize = 35;

/// The number of the option `importDeclaration.sortTypeOnlyImports`.
pub const IMPORT_DECLARATION_SORT_TYPE_ONLY_IMPORTS: usize = 36;

/// The number of the option `exportDeclaration.sortTypeOnlyExports`.
pub const EXPORT_DECLARATION_SORT_TYPE_ONLY_EXPORTS: usize = 37;

/// The number of the option `ignoreNodeCommentText`.
pub const IGNORE_NODE_COMMENT_TEXT: usize = 38;

/// The number of the option `ignoreFileCommentText`.
pub const IGNORE_FILE_COMMENT_TEXT: usize = 39;

/// The number of the option `arrowFunction.bracePosition`.
pub const ARROW_FUNCTION_BRACE_POSITION: usize = 40;

/// The number of the option `classDeclaration.bracePosition`.
pub const CLASS_DECLARATION_BRACE_POSITION: usize = 41;

/// The number of the option `classExpression.bracePosition`.
pub const CLASS_EXPRESSION_BRACE_POSITION: usize = 42;

/// The number of the option `constructor.bracePosition`.
pub const CONSTRUCTOR_BRACE_POSITION: usize = 43;

/// The number of the option `doWhileStatement.bracePosition`.
pub const DO_WHILE_STATEMENT_BRACE_POSITION: usize = 44;

/// The number of the option `enumDeclaration.bracePosition`.
pub const ENUM_DECLARATION_BRACE_POSITION: usize = 45;

/// The number of the option `forStatement.bracePosition`.
pub const FOR_STATEMENT_BRACE_POSITION: usize = 46;

/// The number of the option `forInStatement.bracePosition`.
pub const FOR_IN_STATEMENT_BRACE_POSITION: usize = 47;

/// The number of the option `forOfStatement.bracePosition`.
pub const FOR_OF_STATEMENT_BRACE_POSITION: usize = 48;

/// The number of the option `getAccessor.bracePosition`.
pub const GET_ACCESSOR_BRACE_POSITION: usize = 49;

/// The number of the option `ifStatement.bracePosition`.
pub const IF_STATEMENT_BRACE_POSITION: usize = 50;

/// The number of the option `interfaceDeclaration.bracePosition`.
pub const INTERFACE_DECLARATION_BRACE_POSITION: usize = 51;

/// The number of the option `functionDeclaration.bracePosition`.
pub const FUNCTION_DECLARATION_BRACE_POSITION: usize = 52;

/// The number of the option `functionExpression.bracePosition`.
pub const FUNCTION_EXPRESSION_BRACE_POSITION: usize = 53;

/// The number of the option `method.bracePosition`.
pub const METHOD_BRACE_POSITION: usize = 54;

/// The number of the option `moduleDeclaration.bracePosition`.
pub const MODULE_DECLARATION_BRACE_POSITION: usize = 55;

/// The number of the option `setAccessor.bracePosition`.
pub const SET_ACCESSOR_BRACE_POSITION: usize = 56;

/// The number of the option `staticBlock.bracePosition`.
pub const STATIC_BLOCK_BRACE_POSITION: usize = 57;

/// The number of the option `switchCase.bracePosition`.
pub const SWITCH_CASE_BRACE_POSITION: usize = 58;

/// The number of the option `switchStatement.bracePosition`.
pub const SWITCH_STATEMENT_BRACE_POSITION: usize = 59;

/// The number of the option `tryStatement.bracePosition`.
pub const TRY_STATEMENT_BRACE_POSITION: usize = 60;

/// The number of the option `whileStatement.bracePosition`.
pub const WHILE_STATEMENT_BRACE_POSITION: usize = 61;

/// The number of the option `arguments.preferHanging`.
pub const ARGUMENTS_PREFER_HANGING: usize = 62;

/// The number of the option `arrayExpression.preferHanging`.
pub const ARRAY_EXPRESSION_PREFER_HANGING: usize = 63;

/// The number of the option `arrayPattern.preferHanging`.
pub const ARRAY_PATTERN_PREFER_HANGING: usize = 64;

/// The number of the option `doWhileStatement.preferHanging`.
pub const DO_WHILE_STATEMENT_PREFER_HANGING: usize = 65;

/// The number of the option `exportDeclaration.preferHanging`.
pub const EXPORT_DECLARATION_PREFER_HANGING: usize = 66;

/// The number of the option `extendsClause.preferHanging`.
pub const EXTENDS_CLAUSE_PREFER_HANGING: usize = 67;

/// The number of the option `forInStatement.preferHanging`.
pub const FOR_IN_STATEMENT_PREFER_HANGING: usize = 68;

/// The number of the option `forOfStatement.preferHanging`.
pub const FOR_OF_STATEMENT_PREFER_HANGING: usize = 69;

/// The number of the option `forStatement.preferHanging`.
pub const FOR_STATEMENT_PREFER_HANGING: usize = 70;

/// The number of the option `ifStatement.preferHanging`.
pub const IF_STATEMENT_PREFER_HANGING: usize = 71;

/// The number of the option `implementsClause.preferHanging`.
pub const IMPLEMENTS_CLAUSE_PREFER_HANGING: usize = 72;

/// The number of the option `importDeclaration.preferHanging`.
pub const IMPORT_DECLARATION_PREFER_HANGING: usize = 73;

/// The number of the option `jsxAttributes.preferHanging`.
pub const JSX_ATTRIBUTES_PREFER_HANGING: usize = 74;

/// The number of the option `objectExpression.preferHanging`.
pub const OBJECT_EXPRESSION_PREFER_HANGING: usize = 75;

/// The number of the option `objectPattern.preferHanging`.
pub const OBJECT_PATTERN_PREFER_HANGING: usize = 76;

/// The number of the option `parameters.preferHanging`.
pub const PARAMETERS_PREFER_HANGING: usize = 77;

/// The number of the option `sequenceExpression.preferHanging`.
pub const SEQUENCE_EXPRESSION_PREFER_HANGING: usize = 78;

/// The number of the option `switchStatement.preferHanging`.
pub const SWITCH_STATEMENT_PREFER_HANGING: usize = 79;

/// The number of the option `tupleType.preferHanging`.
pub const TUPLE_TYPE_PREFER_HANGING: usize = 80;

/// The number of the option `typeLiteral.preferHanging`.
pub const TYPE_LITERAL_PREFER_HANGING: usize = 81;

/// The number of the option `typeParameters.preferHanging`.
pub const TYPE_PARAMETERS_PREFER_HANGING: usize = 82;

/// The number of the option `unionAndIntersectionType.preferHanging`.
pub const UNION_AND_INTERSECTION_TYPE_PREFER_HANGING: usize = 83;

/// The number of the option `variableStatement.preferHanging`.
pub const VARIABLE_STATEMENT_PREFER_HANGING: usize = 84;

/// The number of the option `whileStatement.preferHanging`.
pub const WHILE_STATEMENT_PREFER_HANGING: usize = 85;

/// The number of the option `enumDeclaration.memberSpacing`.
pub const ENUM_DECLARATION_MEMBER_SPACING: usize = 86;

/// The number of the option `ifStatement.nextControlFlowPosition`.
pub const IF_STATEMENT_NEXT_CONTROL_FLOW_POSITION: usize = 87;

/// The number of the option `tryStatement.nextControlFlowPosition`.
pub const TRY_STATEMENT_NEXT_CONTROL_FLOW_POSITION: usize = 88;

/// The number of the option `doWhileStatement.nextControlFlowPosition`.
pub const DO_WHILE_STATEMENT_NEXT_CONTROL_FLOW_POSITION: usize = 89;

/// The number of the option `binaryExpression.operatorPosition`.
pub const BINARY_EXPRESSION_OPERATOR_POSITION: usize = 90;

/// The number of the option `conditionalExpression.operatorPosition`.
pub const CONDITIONAL_EXPRESSION_OPERATOR_POSITION: usize = 91;

/// The number of the option `conditionalType.operatorPosition`.
pub const CONDITIONAL_TYPE_OPERATOR_POSITION: usize = 92;

/// The number of the option `ifStatement.singleBodyPosition`.
pub const IF_STATEMENT_SINGLE_BODY_POSITION: usize = 93;

/// The number of the option `forStatement.singleBodyPosition`.
pub const FOR_STATEMENT_SINGLE_BODY_POSITION: usize = 94;

/// The number of the option `forInStatement.singleBodyPosition`.
pub const FOR_IN_STATEMENT_SINGLE_BODY_POSITION: usize = 95;

/// The number of the option `forOfStatement.singleBodyPosition`.
pub const FOR_OF_STATEMENT_SINGLE_BODY_POSITION: usize = 96;

/// The number of the option `whileStatement.singleBodyPosition`.
pub const WHILE_STATEMENT_SINGLE_BODY_POSITION: usize = 97;

/// The number of the option `arguments.trailingCommas`.
pub const ARGUMENTS_TRAILING_COMMAS: usize = 98;

/// The number of the option `parameters.trailingCommas`.
pub const PARAMETERS_TRAILING_COMMAS: usize = 99;

/// The number of the option `arrayExpression.trailingCommas`.
pub const ARRAY_EXPRESSION_TRAILING_COMMAS: usize = 100;

/// The number of the option `arrayPattern.trailingCommas`.
pub const ARRAY_PATTERN_TRAILING_COMMAS: usize = 101;

/// The number of the option `enumDeclaration.trailingCommas`.
pub const ENUM_DECLARATION_TRAILING_COMMAS: usize = 102;

/// The number of the option `exportDeclaration.trailingCommas`.
pub const EXPORT_DECLARATION_TRAILING_COMMAS: usize = 103;

/// The number of the option `importDeclaration.trailingCommas`.
pub const IMPORT_DECLARATION_TRAILING_COMMAS: usize = 104;

/// The number of the option `objectExpression.trailingCommas`.
pub const OBJECT_EXPRESSION_TRAILING_COMMAS: usize = 105;

/// The number of the option `objectPattern.trailingCommas`.
pub const OBJECT_PATTERN_TRAILING_COMMAS: usize = 106;

/// The number of the option `tupleType.trailingCommas`.
pub const TUPLE_TYPE_TRAILING_COMMAS: usize = 107;

/// The number of the option `typeLiteral.trailingCommas`.
pub const TYPE_LITERAL_TRAILING_COMMAS: usize = 108;

/// The number of the option `typeParameters.trailingCommas`.
pub const TYPE_PARAMETERS_TRAILING_COMMAS: usize = 109;

/// The number of the option `ifStatement.useBraces`.
pub const IF_STATEMENT_USE_BRACES: usize = 110;

/// The number of the option `forStatement.useBraces`.
pub const FOR_STATEMENT_USE_BRACES: usize = 111;

/// The number of the option `forInStatement.useBraces`.
pub const FOR_IN_STATEMENT_USE_BRACES: usize = 112;

/// The number of the option `forOfStatement.useBraces`.
pub const FOR_OF_STATEMENT_USE_BRACES: usize = 113;

/// The number of the option `whileStatement.useBraces`.
pub const WHILE_STATEMENT_USE_BRACES: usize = 114;

/// The number of the option `arrayExpression.preferSingleLine`.
pub const ARRAY_EXPRESSION_PREFER_SINGLE_LINE: usize = 115;

/// The number of the option `arrayPattern.preferSingleLine`.
pub const ARRAY_PATTERN_PREFER_SINGLE_LINE: usize = 116;

/// The number of the option `arguments.preferSingleLine`.
pub const ARGUMENTS_PREFER_SINGLE_LINE: usize = 117;

/// The number of the option `binaryExpression.preferSingleLine`.
pub const BINARY_EXPRESSION_PREFER_SINGLE_LINE: usize = 118;

/// The number of the option `computed.preferSingleLine`.
pub const COMPUTED_PREFER_SINGLE_LINE: usize = 119;

/// The number of the option `conditionalExpression.preferSingleLine`.
pub const CONDITIONAL_EXPRESSION_PREFER_SINGLE_LINE: usize = 120;

/// The number of the option `conditionalType.preferSingleLine`.
pub const CONDITIONAL_TYPE_PREFER_SINGLE_LINE: usize = 121;

/// The number of the option `decorators.preferSingleLine`.
pub const DECORATORS_PREFER_SINGLE_LINE: usize = 122;

/// The number of the option `exportDeclaration.preferSingleLine`.
pub const EXPORT_DECLARATION_PREFER_SINGLE_LINE: usize = 123;

/// The number of the option `forStatement.preferSingleLine`.
pub const FOR_STATEMENT_PREFER_SINGLE_LINE: usize = 124;

/// The number of the option `importDeclaration.preferSingleLine`.
pub const IMPORT_DECLARATION_PREFER_SINGLE_LINE: usize = 125;

/// The number of the option `jsxAttributes.preferSingleLine`.
pub const JSX_ATTRIBUTES_PREFER_SINGLE_LINE: usize = 126;

/// The number of the option `jsxElement.preferSingleLine`.
pub const JSX_ELEMENT_PREFER_SINGLE_LINE: usize = 127;

/// The number of the option `mappedType.preferSingleLine`.
pub const MAPPED_TYPE_PREFER_SINGLE_LINE: usize = 128;

/// The number of the option `memberExpression.preferSingleLine`.
pub const MEMBER_EXPRESSION_PREFER_SINGLE_LINE: usize = 129;

/// The number of the option `objectExpression.preferSingleLine`.
pub const OBJECT_EXPRESSION_PREFER_SINGLE_LINE: usize = 130;

/// The number of the option `objectPattern.preferSingleLine`.
pub const OBJECT_PATTERN_PREFER_SINGLE_LINE: usize = 131;

/// The number of the option `parameters.preferSingleLine`.
pub const PARAMETERS_PREFER_SINGLE_LINE: usize = 132;

/// The number of the option `parentheses.preferSingleLine`.
pub const PARENTHESES_PREFER_SINGLE_LINE: usize = 133;

/// The number of the option `tupleType.preferSingleLine`.
pub const TUPLE_TYPE_PREFER_SINGLE_LINE: usize = 134;

/// The number of the option `typeLiteral.preferSingleLine`.
pub const TYPE_LITERAL_PREFER_SINGLE_LINE: usize = 135;

/// The number of the option `typeParameters.preferSingleLine`.
pub const TYPE_PARAMETERS_PREFER_SINGLE_LINE: usize = 136;

/// The number of the option `unionAndIntersectionType.preferSingleLine`.
pub const UNION_AND_INTERSECTION_TYPE_PREFER_SINGLE_LINE: usize = 137;

/// The number of the option `variableStatement.preferSingleLine`.
pub const VARIABLE_STATEMENT_PREFER_SINGLE_LINE: usize = 138;

/// The number of the option `importDeclaration.forceSingleLine`.
pub const IMPORT_DECLARATION_FORCE_SINGLE_LINE: usize = 139;

/// The number of the option `exportDeclaration.forceSingleLine`.
pub const EXPORT_DECLARATION_FORCE_SINGLE_LINE: usize = 140;

/// The number of the option `importDeclaration.forceMultiLine`.
pub const IMPORT_DECLARATION_FORCE_MULTI_LINE: usize = 141;

/// The number of the option `exportDeclaration.forceMultiLine`.
pub const EXPORT_DECLARATION_FORCE_MULTI_LINE: usize = 142;

/// The number of the option `binaryExpression.spaceSurroundingBitwiseAndArithmeticOperator`.
pub const BINARY_EXPRESSION_SPACE_SURROUNDING_BITWISE_AND_ARITHMETIC_OPERATOR: usize = 143;

/// The number of the option `commentLine.forceSpaceAfterSlashes`.
pub const COMMENT_LINE_FORCE_SPACE_AFTER_SLASHES: usize = 144;

/// The number of the option `constructSignature.spaceAfterNewKeyword`.
pub const CONSTRUCT_SIGNATURE_SPACE_AFTER_NEW_KEYWORD: usize = 145;

/// The number of the option `constructor.spaceBeforeParentheses`.
pub const CONSTRUCTOR_SPACE_BEFORE_PARENTHESES: usize = 146;

/// The number of the option `constructorType.spaceAfterNewKeyword`.
pub const CONSTRUCTOR_TYPE_SPACE_AFTER_NEW_KEYWORD: usize = 147;

/// The number of the option `doWhileStatement.spaceAfterWhileKeyword`.
pub const DO_WHILE_STATEMENT_SPACE_AFTER_WHILE_KEYWORD: usize = 148;

/// The number of the option `exportDeclaration.spaceSurroundingNamedExports`.
pub const EXPORT_DECLARATION_SPACE_SURROUNDING_NAMED_EXPORTS: usize = 149;

/// The number of the option `forStatement.spaceAfterForKeyword`.
pub const FOR_STATEMENT_SPACE_AFTER_FOR_KEYWORD: usize = 150;

/// The number of the option `forStatement.spaceAfterSemiColons`.
pub const FOR_STATEMENT_SPACE_AFTER_SEMI_COLONS: usize = 151;

/// The number of the option `forInStatement.spaceAfterForKeyword`.
pub const FOR_IN_STATEMENT_SPACE_AFTER_FOR_KEYWORD: usize = 152;

/// The number of the option `forOfStatement.spaceAfterForKeyword`.
pub const FOR_OF_STATEMENT_SPACE_AFTER_FOR_KEYWORD: usize = 153;

/// The number of the option `functionDeclaration.spaceBeforeParentheses`.
pub const FUNCTION_DECLARATION_SPACE_BEFORE_PARENTHESES: usize = 154;

/// The number of the option `functionExpression.spaceBeforeParentheses`.
pub const FUNCTION_EXPRESSION_SPACE_BEFORE_PARENTHESES: usize = 155;

/// The number of the option `functionExpression.spaceAfterFunctionKeyword`.
pub const FUNCTION_EXPRESSION_SPACE_AFTER_FUNCTION_KEYWORD: usize = 156;

/// The number of the option `getAccessor.spaceBeforeParentheses`.
pub const GET_ACCESSOR_SPACE_BEFORE_PARENTHESES: usize = 157;

/// The number of the option `ifStatement.spaceAfterIfKeyword`.
pub const IF_STATEMENT_SPACE_AFTER_IF_KEYWORD: usize = 158;

/// The number of the option `importDeclaration.spaceSurroundingNamedImports`.
pub const IMPORT_DECLARATION_SPACE_SURROUNDING_NAMED_IMPORTS: usize = 159;

/// The number of the option `jsxExpressionContainer.spaceSurroundingExpression`.
pub const JSX_EXPRESSION_CONTAINER_SPACE_SURROUNDING_EXPRESSION: usize = 160;

/// The number of the option `jsxSelfClosingElement.spaceBeforeSlash`.
pub const JSX_SELF_CLOSING_ELEMENT_SPACE_BEFORE_SLASH: usize = 161;

/// The number of the option `method.spaceBeforeParentheses`.
pub const METHOD_SPACE_BEFORE_PARENTHESES: usize = 162;

/// The number of the option `objectExpression.spaceSurroundingProperties`.
pub const OBJECT_EXPRESSION_SPACE_SURROUNDING_PROPERTIES: usize = 163;

/// The number of the option `objectPattern.spaceSurroundingProperties`.
pub const OBJECT_PATTERN_SPACE_SURROUNDING_PROPERTIES: usize = 164;

/// The number of the option `setAccessor.spaceBeforeParentheses`.
pub const SET_ACCESSOR_SPACE_BEFORE_PARENTHESES: usize = 165;

/// The number of the option `taggedTemplate.spaceBeforeLiteral`.
pub const TAGGED_TEMPLATE_SPACE_BEFORE_LITERAL: usize = 166;

/// The number of the option `typeAnnotation.spaceBeforeColon`.
pub const TYPE_ANNOTATION_SPACE_BEFORE_COLON: usize = 167;

/// The number of the option `typeAssertion.spaceBeforeExpression`.
pub const TYPE_ASSERTION_SPACE_BEFORE_EXPRESSION: usize = 168;

/// The number of the option `typeLiteral.spaceSurroundingProperties`.
pub const TYPE_LITERAL_SPACE_SURROUNDING_PROPERTIES: usize = 169;

/// The number of the option `whileStatement.spaceAfterWhileKeyword`.
pub const WHILE_STATEMENT_SPACE_AFTER_WHILE_KEYWORD: usize = 170;

/// The number of the option `arguments.spaceAround`.
pub const ARGUMENTS_SPACE_AROUND: usize = 171;

/// The number of the option `arrayExpression.spaceAround`.
pub const ARRAY_EXPRESSION_SPACE_AROUND: usize = 172;

/// The number of the option `arrayPattern.spaceAround`.
pub const ARRAY_PATTERN_SPACE_AROUND: usize = 173;

/// The number of the option `catchClause.spaceAround`.
pub const CATCH_CLAUSE_SPACE_AROUND: usize = 174;

/// The number of the option `doWhileStatement.spaceAround`.
pub const DO_WHILE_STATEMENT_SPACE_AROUND: usize = 175;

/// The number of the option `forInStatement.spaceAround`.
pub const FOR_IN_STATEMENT_SPACE_AROUND: usize = 176;

/// The number of the option `forOfStatement.spaceAround`.
pub const FOR_OF_STATEMENT_SPACE_AROUND: usize = 177;

/// The number of the option `forStatement.spaceAround`.
pub const FOR_STATEMENT_SPACE_AROUND: usize = 178;

/// The number of the option `ifStatement.spaceAround`.
pub const IF_STATEMENT_SPACE_AROUND: usize = 179;

/// The number of the option `parameters.spaceAround`.
pub const PARAMETERS_SPACE_AROUND: usize = 180;

/// The number of the option `parenExpression.spaceAround`.
pub const PAREN_EXPRESSION_SPACE_AROUND: usize = 181;

/// The number of the option `switchStatement.spaceAround`.
pub const SWITCH_STATEMENT_SPACE_AROUND: usize = 182;

/// The number of the option `tupleType.spaceAround`.
pub const TUPLE_TYPE_SPACE_AROUND: usize = 183;

/// The number of the option `whileStatement.spaceAround`.
pub const WHILE_STATEMENT_SPACE_AROUND: usize = 184;

/// The option with the number `i`. The options with no default of their
/// own come behind the option that their default is taken from.
#[verifier::opaque]
pub open spec fn option_rule(i: usize) -> Rule {
    match i {
        0 => Rule { key: "deno", kind: Kind::Bool, source: Source::Fixed(Scalar::Bool(false)) },
        1 => Rule {
            key: "semiColons",
            kind: Kind::SemiColons,
            source: Source::Fixed(Scalar::SemiColons(SemiColons::Prefer)),
        },
        2 => Rule {
            key: "bracePosition",
            kind: Kind::BracePosition,
            source: Source::Fixed(Scalar::BracePosition(BracePosition::SameLineUnlessHanging)),
        },
        3 => Rule {
            key: "nextControlFlowPosition",
            kind: Kind::NextControlFlowPosition,
            source: Source::Fixed(Scalar::NextControlFlowPosition(NextControlFlowPosition::SameLine)),
        },
        4 => Rule {
            key: "operatorPosition",
            kind: Kind::OperatorPosition,
            source: Source::Fixed(Scalar::OperatorPosition(OperatorPosition::NextLine)),
        },
        5 => Rule {
            key: "singleBodyPosition",
            kind: Kind::SameOrNextLinePosition,
            source: Source::Fixed(Scalar::SameOrNextLinePosition(SameOrNextLinePosition::Maintain)),
        },
        6 => Rule {
            key: "trailingCommas",
            kind: Kind::TrailingCommas,
            source: Source::Fixed(Scalar::TrailingCommas(TrailingCommas::OnlyMultiLine)),
        },
        7 => Rule {
            key: "useBraces",
            kind: Kind::UseBraces,
            source: Source::Fixed(Scalar::UseBraces(UseBraces::WhenNotSingleLine)),
        },
        8 => Rule {
            key: "preferHanging",
            kind: Kind::Bool,
            source: Source::Fixed(Scalar::Bool(false)),
        },
        9 => Rule {
            key: "preferSingleLine",
            kind: Kind::Bool,
            source: Source::Fixed(Scalar::Bool(false)),
        },
        10 => Rule {
            key: "spaceSurroundingProperties",
            kind: Kind::Bool,
            source: Source::Fixed(Scalar::Bool(true)),
        },
        11 => Rule {
            key: "typeLiteral.separatorKind",
            kind: Kind::SemiColonOrComma,
            source: Source::Fixed(Scalar::SemiColonOrComma(SemiColonOrComma::SemiColon)),
        },
        12 => Rule {
            key: "quoteStyle",
            kind: Kind::QuoteStyle,
            source: Source::Fixed(Scalar::QuoteStyle(QuoteStyle::AlwaysDouble)),
        },
        13 => Rule {
            key: "quoteProps",
            kind: Kind::QuoteProps,
            source: Source::Fixed(Scalar::QuoteProps(QuoteProps::Preserve)),
        },
        14 => Rule {
            key: "spaceAround",
            kind: Kind::Bool,
            source: Source::Fixed(Scalar::Bool(false)),
        },
        15 => Rule {
            key: "jsx.bracketPosition",
            kind: Kind::SameOrNextLinePosition,
            source: Source::Fixed(Scalar::SameOrNextLinePosition(SameOrNextLinePosition::NextLine)),
        },
        16 => Rule { key: "lineWidth", kind: Kind::Number, source: Source::Global },
        17 => Rule { key: "useTabs", kind: Kind::Bool, source: Source::Global },
        18 => Rule { key: "indentWidth", kind: Kind::Byte, source: Source::Global },
        19 => Rule { key: "newLineKind", kind: Kind::NewLineKind, source: Source::Global },
        20 => Rule {
            key: "fileIndentLevel",
            kind: Kind::Number,
            source: Source::Fixed(Scalar::Number(0)),
        },
        21 => Rule {
            key: "arrowFunction.useParentheses",
            kind: Kind::UseParentheses,
            source: Source::Fixed(Scalar::UseParentheses(UseParentheses::Maintain)),
        },
        22 => Rule {
            key: "binaryExpression.linePerExpression",
            kind: Kind::Bool,
            source: Source::Fixed(Scalar::Bool(false)),
        },
        23 => Rule {
            key: "conditionalExpression.linePerExpression",
            kind: Kind::Bool,
            source: Source::Fixed(Scalar::Bool(true)),
        },
        24 => Rule {
            key: "jsx.quoteStyle",
            kind: Kind::JsxQuoteStyle,
            source: Source::JsxQuotes(QUOTE_STYLE),
        },
        25 => Rule {
            key: "jsx.multiLineParens",
            kind: Kind::JsxMultiLineParens,
            source: Source::Fixed(Scalar::JsxMultiLineParens(JsxMultiLineParens::Prefer)),
        },
        26 => Rule {
            key: "jsx.forceNewLinesSurroundingContent",
            kind: Kind::Bool,
            source: Source::Fixed(Scalar::Bool(false)),
        },
        27 => Rule {
            key: "jsxOpeningElement.bracketPosition",
            kind: Kind::SameOrNextLinePosition,
            source: Source::Inherit(JSX_BRACKET_POSITION),
        },
        28 => Rule {
            key: "jsxSelfClosingElement.bracketPosition",
            kind: Kind::SameOrNextLinePosition,
            source: Source::Inherit(JSX_BRACKET_POSITION),
        },
        29 => Rule {
            key: "memberExpression.linePerExpression",
            kind: Kind::Bool,
            source: Source::Fixed(Scalar::Bool(false)),
        },
        30 => Rule {
            key: "typeLiteral.separatorKind.singleLine",
            kind: Kind::SemiColonOrComma,
            source: Source::Inherit(TYPE_LITERAL_SEPARATOR_KIND),
        },
        31 => Rule {
            key: "typeLiteral.separatorKind.multiLine",
            kind: Kind::SemiColonOrComma,
            source: Source::Inherit(TYPE_LITERAL_SEPARATOR_KIND),
        },
        32 => Rule {
            key: "module.sortImportDeclarations",
            kind: Kind::SortOrder,
            source: Source::Fixed(Scalar::SortOrder(SortOrder::CaseInsensitive)),
        },
        33 => Rule {
            key: "module.sortExportDeclarations",
            kind: Kind::SortOrder,
            source: Source::Fixed(Scalar::SortOrder(SortOrder::CaseInsensitive)),
        },
        34 => Rule {
            key: "importDeclaration.sortNamedImports",
            kind: Kind::SortOrder,
            source: Source::Fixed(Scalar::SortOrder(SortOrder::CaseInsensitive)),
        },
        35 => Rule {
            key: "exportDeclaration.sortNamedExports",
            kind: Kind::SortOrder,
            source: Source::Fixed(Scalar::SortOrder(SortOrder::CaseInsensitive)),
        },
        36 => Rule {
            key: "importDeclaration.sortTypeOnlyImports",
            kind: Kind::NamedTypeImportsExportsOrder,
            source: Source::Fixed(Scalar::NamedTypeImportsExportsOrder(NamedTypeImportsExportsOrder::Unsorted)),
        },
        37 => Rule {
            key: "exportDeclaration.sortTypeOnlyExports",
            kind: Kind::NamedTypeImportsExportsOrder,
            source: Source::Fixed(Scalar::NamedTypeImportsExportsOrder(NamedTypeImportsExportsOrder::Unsorted)),
        },
        38 => Rule {
            key: "ignoreNodeCommentText",
            kind: Kind::Text,
            source: Source::Words("dprint-ignore"),
        },
        39 => Rule {
            key: "ignoreFileCommentText",
            kind: Kind::Text,
            source: Source::Words("dprint-ignore-file"),
        },
        40 => Rule {
            key: "arrowFunction.bracePosition",
            kind: Kind::BracePosition,
            source: Source::Inherit(BRACE_POSITION),
        },
        41 => Rule {
            key: "classDeclaration.bracePosition",
            kind: Kind::BracePosition,
            source: Source::Inherit(BRACE_POSITION),
        },
        42 => Rule {
            key: "classExpression.bracePosition",
            kind: Kind::BracePosition,
            source: Source::Inherit(BRACE_POSITION),
        },
        43 => Rule {
            key: "constructor.bracePosition",
            kind: Kind::BracePosition,
            source: Source::Inherit(BRACE_POSITION),
        },
        44 => Rule {
            key: "doWhileStatement.bracePosition",
            kind: Kind::BracePosition,
            source: Source::Inherit(BRACE_POSITION),
        },
        45 => Rule {
            key: "enumDeclaration.bracePosition",
            kind: Kind::BracePosition,
            source: Source::Inherit(BRACE_POSITION),
        },
        46 => Rule {
            key: "forStatement.bracePosition",
            kind: Kind::BracePosition,
            source: Source::Inherit(BRACE_POSITION),
        },
        47 => Rule {
            key: "forInStatement.bracePosition",
            kind: Kind::BracePosition,
            source: Source::Inherit(BRACE_POSITION),
        },
        48 => Rule {
            key: "forOfStatement.bracePosition",
            kind: Kind::BracePosition,
            source: Source::Inherit(BRACE_POSITION),
        },
        49 => Rule {
            key: "getAccessor.bracePosition",
            kind: Kind::BracePosition,
            source: Source::Inherit(BRACE_POSITION),
        },
        50 => Rule {
            key: "ifStatement.bracePosition",
            kind: Kind::BracePosition,
            source: Source::Inherit(BRACE_POSITION),
        },
        51 => Rule {
            key: "interfaceDeclaration.bracePosition",
            kind: Kind::BracePosition,
            source: Source::Inherit(BRACE_POSITION),
        },
        52 => Rule {
            key: "functionDeclaration.bracePosition",
            kind: Kind::BracePosition,
            source: Source::Inherit(BRACE_POSITION),
        },
        53 => Rule {
            key: "functionExpression.bracePosition",
            kind: Kind::BracePosition,
            source: Source::Inherit(BRACE_POSITION),
        },
        54 => Rule {
            key: "method.bracePosition",
            kind: Kind::BracePosition,
            source: Source::Inherit(BRACE_POSITION),
        },
        55 => Rule {
            key: "moduleDeclaration.bracePosition",
            kind: Kind::BracePosition,
            source: Source::Inherit(BRACE_POSITION),
        },
        56 => Rule {
            key: "setAccessor.bracePosition",
            kind: Kind::BracePosition,
            source: Source::Inherit(BRACE_POSITION),
        },
        57 => Rule {
            key: "staticBlock.bracePosition",
            kind: Kind::BracePosition,
            source: Source::Inherit(BRACE_POSITION),
        },
        58 => Rule {
            key: "switchCase.bracePosition",
            kind: Kind::BracePosition,
            source: Source::Inherit(BRACE_POSITION),
        },
        59 => Rule {
            key: "switchStatement.bracePosition",
            kind: Kind::BracePosition,
            source: Source::Inherit(BRACE_POSITION),
        },
        60 => Rule {
            key: "tryStatement.bracePosition",
            kind: Kind::BracePosition,
            source: Source::Inherit(BRACE_POSITION),
        },
        61 => Rule {
            key: "whileStatement.bracePosition",
            kind: Kind::BracePosition,
            source: Source::Inherit(BRACE_POSITION),
        },
        62 => Rule {
            key: "arguments.preferHanging",
            kind: Kind::PreferHanging,
            source: Source::Hanging(PREFER_HANGING),
        },
        63 => Rule {
            key: "arrayExpression.preferHanging",
            kind: Kind::PreferHanging,
            source: Source::Hanging(PREFER_HANGING),
        },
        64 => Rule {
            key: "arrayPattern.preferHanging",
            kind: Kind::Bool,
            source: Source::Inherit(PREFER_HANGING),
        },
        65 => Rule {
            key: "doWhileStatement.preferHanging",
            kind: Kind::Bool,
            source: Source::Inherit(PREFER_HANGING),
        },
        66 => Rule {
            key: "exportDeclaration.preferHanging",
            kind: Kind::Bool,
            source: Source::Inherit(PREFER_HANGING),
        },
        67 => Rule {
            key: "extendsClause.preferHanging",
            kind: Kind::Bool,
            source: Source::Inherit(PREFER_HANGING),
        },
        68 => Rule {
            key: "forInStatement.preferHanging",
            kind: Kind::Bool,
            source: Source::Inherit(PREFER_HANGING),
        },
        69 => Rule {
            key: "forOfStatement.preferHanging",
            kind: Kind::Bool,
            source: Source::Inherit(PREFER_HANGING),
        },
        70 => Rule {
            key: "forStatement.preferHanging",
            kind: Kind::Bool,
            source: Source::Inherit(PREFER_HANGING),
        },
        71 => Rule {
            key: "ifStatement.preferHanging",
            kind: Kind::Bool,
            source: Source::Inherit(PREFER_HANGING),
        },
        72 => Rule {
            key: "implementsClause.preferHanging",
            kind: Kind::Bool,
            source: Source::Inherit(PREFER_HANGING),
        },
        73 => Rule {
            key: "importDeclaration.preferHanging",
            kind: Kind::Bool,
            source: Source::Inherit(PREFER_HANGING),
        },
        74 => Rule {
            key: "jsxAttributes.preferHanging",
            kind: Kind::Bool,
            source: Source::Inherit(PREFER_HANGING),
        },
        75 => Rule {
            key: "objectExpression.preferHanging",
            kind: Kind::Bool,
            source: Source::Inherit(PREFER_HANGING),
        },
        76 => Rule {
            key: "objectPattern.preferHanging",
            kind: Kind::Bool,
            source: Source::Inherit(PREFER_HANGING),
        },
        77 => Rule {
            key: "parameters.preferHanging",
            kind: Kind::PreferHanging,
            source: Source::Hanging(PREFER_HANGING),
        },
        78 => Rule {
            key: "sequenceExpression.preferHanging",
            kind: Kind::Bool,
            source: Source::Inherit(PREFER_HANGING),
        },
        79 => Rule {
            key: "switchStatement.preferHanging",
            kind: Kind::Bool,
            source: Source::Inherit(PREFER_HANGING),
        },
        80 => Rule {
            key: "tupleType.preferHanging",
            kind: Kind::PreferHanging,
            source: Source::Hanging(PREFER_HANGING),
        },
        81 => Rule {
            key: "typeLiteral.preferHanging",
            kind: Kind::Bool,
            source: Source::Inherit(PREFER_HANGING),
        },
        82 => Rule {
            key: "typeParameters.preferHanging",
            kind: Kind::PreferHanging,
            source: Source::Hanging(PREFER_HANGING),
        },
        83 => Rule {
            key: "unionAndIntersectionType.preferHanging",
            kind: Kind::Bool,
            source: Source::Inherit(PREFER_HANGING),
        },
        84 => Rule {
            key: "variableStatement.preferHanging",
            kind: Kind::Bool,
            source: Source::Inherit(PREFER_HANGING),
        },
        85 => Rule {
            key: "whileStatement.preferHanging",
            kind: Kind::Bool,
            source: Source::Inherit(PREFER_HANGING),
        },
        86 => Rule {
            key: "enumDeclaration.memberSpacing",
            kind: Kind::MemberSpacing,
            source: Source::Fixed(Scalar::MemberSpacing(MemberSpacing::Maintain)),
        },
        87 => Rule {
            key: "ifStatement.nextControlFlowPosition",
            kind: Kind::NextControlFlowPosition,
            source: Source::Inherit(NEXT_CONTROL_FLOW_POSITION),
        },
        88 => Rule {
            key: "tryStatement.nextControlFlowPosition",
            kind: Kind::NextControlFlowPosition,
            source: Source::Inherit(NEXT_CONTROL_FLOW_POSITION),
        },
        89 => Rule {
            key: "doWhileStatement.nextControlFlowPosition",
            kind: Kind::NextControlFlowPosition,
            source: Source::Inherit(NEXT_CONTROL_FLOW_POSITION),
        },
        90 => Rule {
            key: "binaryExpression.operatorPosition",
            kind: Kind::OperatorPosition,
            source: Source::Inherit(OPERATOR_POSITION),
        },
        91 => Rule {
            key: "conditionalExpression.operatorPosition",
            kind: Kind::OperatorPosition,
            source: Source::Inherit(OPERATOR_POSITION),
        },
        92 => Rule {
            key: "conditionalType.operatorPosition",
            kind: Kind::OperatorPosition,
            source: Source::Inherit(OPERATOR_POSITION),
        },
        93 => Rule {
            key: "ifStatement.singleBodyPosition",
            kind: Kind::SameOrNextLinePosition,
            source: Source::Inherit(SINGLE_BODY_POSITION),
        },
        94 => Rule {
            key: "forStatement.singleBodyPosition",
            kind: Kind::SameOrNextLinePosition,
            source: Source::Inherit(SINGLE_BODY_POSITION),
        },
        95 => Rule {
            key: "forInStatement.singleBodyPosition",
            kind: Kind::SameOrNextLinePosition,
            source: Source::Inherit(SINGLE_BODY_POSITION),
        },
        96 => Rule {
            key: "forOfStatement.singleBodyPosition",
            kind: Kind::SameOrNextLinePosition,
            source: Source::Inherit(SINGLE_BODY_POSITION),
        },
        97 => Rule {
            key: "whileStatement.singleBodyPosition",
            kind: Kind::SameOrNextLinePosition,
            source: Source::Inherit(SINGLE_BODY_POSITION),
        },
        98 => Rule {
            key: "arguments.trailingCommas",
            kind: Kind::TrailingCommas,
            source: Source::Inherit(TRAILING_COMMAS),
        },
        99 => Rule {
            key: "parameters.trailingCommas",
            kind: Kind::TrailingCommas,
            source: Source::Inherit(TRAILING_COMMAS),
        },
        100 => Rule {
            key: "arrayExpression.trailingCommas",
            kind: Kind::TrailingCommas,
            source: Source::Inherit(TRAILING_COMMAS),
        },
        101 => Rule {
            key: "arrayPattern.trailingCommas",
            kind: Kind::TrailingCommas,
            source: Source::Inherit(TRAILING_COMMAS),
        },
        102 => Rule {
            key: "enumDeclaration.trailingCommas",
            kind: Kind::TrailingCommas,
            source: Source::Inherit(TRAILING_COMMAS),
        },
        103 => Rule {
            key: "exportDeclaration.trailingCommas",
            kind: Kind::TrailingCommas,
            source: Source::Inherit(TRAILING_COMMAS),
        },
        104 => Rule {
            key: "importDeclaration.trailingCommas",
            kind: Kind::TrailingCommas,
            source: Source::Inherit(TRAILING_COMMAS),
        },
        105 => Rule {
            key: "objectExpression.trailingCommas",
            kind: Kind::TrailingCommas,
            source: Source::Inherit(TRAILING_COMMAS),
        },
        106 => Rule {
            key: "objectPattern.trailingCommas",
            kind: Kind::TrailingCommas,
            source: Source::Inherit(TRAILING_COMMAS),
        },
        107 => Rule {
            key: "tupleType.trailingCommas",
            kind: Kind::TrailingCommas,
            source: Source::Inherit(TRAILING_COMMAS),
        },
        108 => Rule {
            key: "typeLiteral.trailingCommas",
            kind: Kind::TrailingCommas,
            source: Source::Inherit(TRAILING_COMMAS),
        },
        109 => Rule {
            key: "typeParameters.trailingCommas",
            kind: Kind::TrailingCommas,
            source: Source::Inherit(TRAILING_COMMAS),
        },
        110 => Rule {
            key: "ifStatement.useBraces",
            kind: Kind::UseBraces,
            source: Source::Inherit(USE_BRACES),
        },
        111 => Rule {
            key: "forStatement.useBraces",
            kind: Kind::UseBraces,
            source: Source::Inherit(USE_BRACES),
        },
        112 => Rule {
            key: "forInStatement.useBraces",
            kind: Kind::UseBraces,
            source: Source::Inherit(USE_BRACES),
        },
        113 => Rule {
            key: "forOfStatement.useBraces",
            kind: Kind::UseBraces,
            source: Source::Inherit(USE_BRACES),
        },
        114 => Rule {
            key: "whileStatement.useBraces",
            kind: Kind::UseBraces,
            source: Source::Inherit(USE_BRACES),
        },
        115 => Rule {
            key: "arrayExpression.preferSingleLine",
            kind: Kind::Bool,
            source: Source::Inherit(PREFER_SINGLE_LINE),
        },
        116 => Rule {
            key: "arrayPattern.preferSingleLine",
            kind: Kind::Bool,
            source: Source::Inherit(PREFER_SINGLE_LINE),
        },
        117 => Rule {
            key: "arguments.preferSingleLine",
            kind: Kind::Bool,
            source: Source::Inherit(PREFER_SINGLE_LINE),
        },
        118 => Rule {
            key: "binaryExpression.preferSingleLine",
            kind: Kind::Bool,
            source: Source::Inherit(PREFER_SINGLE_LINE),
        },
        119 => Rule {
            key: "computed.preferSingleLine",
            kind: Kind::Bool,
            source: Source::Inherit(PREFER_SINGLE_LINE),
        },
        120 => Rule {
            key: "conditionalExpression.preferSingleLine",
            kind: Kind::Bool,
            source: Source::Inherit(PREFER_SINGLE_LINE),
        },
        121 => Rule {
            key: "conditionalType.preferSingleLine",
            kind: Kind::Bool,
            source: Source::Inherit(PREFER_SINGLE_LINE),
        },
        122 => Rule {
            key: "decorators.preferSingleLine",
            kind: Kind::Bool,
            source: Source::Inherit(PREFER_SINGLE_LINE),
        },
        123 => Rule {
            key: "exportDeclaration.preferSingleLine",
            kind: Kind::Bool,
            source: Source::Given(PREFER_SINGLE_LINE, true),
        },
        124 => Rule {
            key: "forStatement.preferSingleLine",
            kind: Kind::Bool,
            source: Source::Inherit(PREFER_SINGLE_LINE),
        },
        125 => Rule {
            key: "importDeclaration.preferSingleLine",
            kind: Kind::Bool,
            source: Source::Given(PREFER_SINGLE_LINE, true),
        },
        126 => Rule {
            key: "jsxAttributes.preferSingleLine",
            kind: Kind::Bool,
            source: Source::Inherit(PREFER_SINGLE_LINE),
        },
        127 => Rule {
            key: "jsxElement.preferSingleLine",
            kind: Kind::Bool,
            source: Source::Inherit(PREFER_SINGLE_LINE),
        },
        128 => Rule {
            key: "mappedType.preferSingleLine",
            kind: Kind::Bool,
            source: Source::Inherit(PREFER_SINGLE_LINE),
        },
        129 => Rule {
            key: "memberExpression.preferSingleLine",
            kind: Kind::Bool,
            source: Source::Inherit(PREFER_SINGLE_LINE),
        },
        130 => Rule {
            key: "objectExpression.preferSingleLine",
            kind: Kind::Bool,
            source: Source::Inherit(PREFER_SINGLE_LINE),
        },
        131 => Rule {
            key: "objectPattern.preferSingleLine",
            kind: Kind::Bool,
            source: Source::Inherit(PREFER_SINGLE_LINE),
        },
        132 => Rule {
            key: "parameters.preferSingleLine",
            kind: Kind::Bool,
            source: Source::Inherit(PREFER_SINGLE_LINE),
        },
        133 => Rule {
            key: "parentheses.preferSingleLine",
            kind: Kind::Bool,
            source: Source::Inherit(PREFER_SINGLE_LINE),
        },
        134 => Rule {
            key: "tupleType.preferSingleLine",
            kind: Kind::Bool,
            source: Source::Inherit(PREFER_SINGLE_LINE),
        },
        135 => Rule {
            key: "typeLiteral.preferSingleLine",
            kind: Kind::Bool,
            source: Source::Inherit(PREFER_SINGLE_LINE),
        },
        136 => Rule {
            key: "typeParameters.preferSingleLine",
            kind: Kind::Bool,
            source: Source::Inherit(PREFER_SINGLE_LINE),
        },
        137 => Rule {
            key: "unionAndIntersectionType.preferSingleLine",
            kind: Kind::Bool,
            source: Source::Inherit(PREFER_SINGLE_LINE),
        },
        138 => Rule {
            key: "variableStatement.preferSingleLine",
            kind: Kind::Bool,
            source: Source::Inherit(PREFER_SINGLE_LINE),
        },
        139 => Rule {
            key: "importDeclaration.forceSingleLine",
            kind: Kind::Bool,
            source: Source::Fixed(Scalar::Bool(false)),
        },
        140 => Rule {
            key: "exportDeclaration.forceSingleLine",
            kind: Kind::Bool,
            source: Source::Fixed(Scalar::Bool(false)),
        },
        141 => Rule {
            key: "importDeclaration.forceMultiLine",
            kind: Kind::ForceMultiLine,
            source: Source::Fixed(Scalar::ForceMultiLine(ForceMultiLine::Never)),
        },
        142 => Rule {
            key: "exportDeclaration.forceMultiLine",
            kind: Kind::ForceMultiLine,
            source: Source::Fixed(Scalar::ForceMultiLine(ForceMultiLine::Never)),
        },
        143 => Rule {
            key: "binaryExpression.spaceSurroundingBitwiseAndArithmeticOperator",
            kind: Kind::Bool,
            source: Source::Fixed(Scalar::Bool(true)),
        },
        144 => Rule {
            key: "commentLine.forceSpaceAfterSlashes",
            kind: Kind::Bool,
            source: Source::Fixed(Scalar::Bool(true)),
        },
        145 => Rule {
            key: "constructSignature.spaceAfterNewKeyword",
            kind: Kind::Bool,
            source: Source::Fixed(Scalar::Bool(false)),
        },
        146 => Rule {
            key: "constructor.spaceBeforeParentheses",
            kind: Kind::Bool,
            source: Source::Fixed(Scalar::Bool(false)),
        },
        147 => Rule {
            key: "constructorType.spaceAfterNewKeyword",
            kind: Kind::Bool,
            source: Source::Fixed(Scalar::Bool(false)),
        },
        148 => Rule {
            key: "doWhileStatement.spaceAfterWhileKeyword",
            kind: Kind::Bool,
            source: Source::Fixed(Scalar::Bool(true)),
        },
        149 => Rule {
            key: "exportDeclaration.spaceSurroundingNamedExports",
            kind: Kind::Bool,
            source: Source::Fixed(Scalar::Bool(true)),
        },
        150 => Rule {
            key: "forStatement.spaceAfterForKeyword",
            kind: Kind::Bool,
            source: Source::Fixed(Scalar::Bool(true)),
        },
        151 => Rule {
            key: "forStatement.spaceAfterSemiColons",
            kind: Kind::Bool,
            source: Source::Fixed(Scalar::Bool(true)),
        },
        152 => Rule {
            key: "forInStatement.spaceAfterForKeyword",
            kind: Kind::Bool,
            source: Source::Fixed(Scalar::Bool(true)),
        },
        153 => Rule {
            key: "forOfStatement.spaceAfterForKeyword",
            kind: Kind::Bool,
            source: Source::Fixed(Scalar::Bool(true)),
        },
        154 => Rule {
            key: "functionDeclaration.spaceBeforeParentheses",
            kind: Kind::Bool,
            source: Source::Fixed(Scalar::Bool(false)),
        },
        155 => Rule {
            key: "functionExpression.spaceBeforeParentheses",
            kind: Kind::Bool,
            source: Source::Fixed(Scalar::Bool(false)),
        },
        156 => Rule {
            key: "functionExpression.spaceAfterFunctionKeyword",
            kind: Kind::Bool,
            source: Source::Fixed(Scalar::Bool(false)),
        },
        157 => Rule {
            key: "getAccessor.spaceBeforeParentheses",
            kind: Kind::Bool,
            source: Source::Fixed(Scalar::Bool(false)),
        },
        158 => Rule {
            key: "ifStatement.spaceAfterIfKeyword",
            kind: Kind::Bool,
            source: Source::Fixed(Scalar::Bool(true)),
        },
        159 => Rule {
            key: "importDeclaration.spaceSurroundingNamedImports",
            kind: Kind::Bool,
            source: Source::Fixed(Scalar::Bool(true)),
        },
        160 => Rule {
            key: "jsxExpressionContainer.spaceSurroundingExpression",
            kind: Kind::Bool,
            source: Source::Fixed(Scalar::Bool(false)),
        },
        161 => Rule {
            key: "jsxSelfClosingElement.spaceBeforeSlash",
            kind: Kind::Bool,
            source: Source::Fixed(Scalar::Bool(true)),
        },
        162 => Rule {
            key: "method.spaceBeforeParentheses",
            kind: Kind::Bool,
            source: Source::Fixed(Scalar::Bool(false)),
        },
        163 => Rule {
            key: "objectExpression.spaceSurroundingProperties",
            kind: Kind::Bool,
            source: Source::Inherit(SPACE_SURROUNDING_PROPERTIES),
        },
        164 => Rule {
            key: "objectPattern.spaceSurroundingProperties",
            kind: Kind::Bool,
            source: Source::Inherit(SPACE_SURROUNDING_PROPERTIES),
        },
        165 => Rule {
            key: "setAccessor.spaceBeforeParentheses",
            kind: Kind::Bool,
            source: Source::Fixed(Scalar::Bool(false)),
        },
        166 => Rule {
            key: "taggedTemplate.spaceBeforeLiteral",
            kind: Kind::Bool,
            source: Source::Fixed(Scalar::Bool(false)),
        },
        167 => Rule {
            key: "typeAnnotation.spaceBeforeColon",
            kind: Kind::Bool,
            source: Source::Fixed(Scalar::Bool(false)),
        },
        168 => Rule {
            key: "typeAssertion.spaceBeforeExpression",
            kind: Kind::Bool,
            source: Source::Fixed(Scalar::Bool(true)),
        },
        169 => Rule {
            key: "typeLiteral.spaceSurroundingProperties",
            kind: Kind::Bool,
            source: Source::Inherit(SPACE_SURROUNDING_PROPERTIES),
        },
        170 => Rule {
            key: "whileStatement.spaceAfterWhileKeyword",
            kind: Kind::Bool,
            source: Source::Fixed(Scalar::Bool(true)),
        },
        171 => Rule {
            key: "arguments.spaceAround",
            kind: Kind::Bool,
            source: Source::Inherit(SPACE_AROUND),
        },
        172 => Rule {
            key: "arrayExpression.spaceAround",
            kind: Kind::Bool,
            source: Source::Inherit(SPACE_AROUND),
        },
        173 => Rule {
            key: "arrayPattern.spaceAround",
            kind: Kind::Bool,
            source: Source::Inherit(SPACE_AROUND),
        },
        174 => Rule {
            key: "catchClause.spaceAround",
            kind: Kind::Bool,
            source: Source::Inherit(SPACE_AROUND),
        },
        175 => Rule {
            key: "doWhileStatement.spaceAround",
            kind: Kind::Bool,
            source: Source::Inherit(SPACE_AROUND),
        },
        176 => Rule {
            key: "forInStatement.spaceAround",
            kind: Kind::Bool,
            source: Source::Inherit(SPACE_AROUND),
        },
        177 => Rule {
            key: "forOfStatement.spaceAround",
            kind: Kind::Bool,
            source: Source::Inherit(SPACE_AROUND),
        },
        178 => Rule {
            key: "forStatement.spaceAround",
            kind: Kind::Bool,
            source: Source::Inherit(SPACE_AROUND),
        },
        179 => Rule {
            key: "ifStatement.spaceAround",
            kind: Kind::Bool,
            source: Source::Inherit(SPACE_AROUND),
        },
        180 => Rule {
            key: "parameters.spaceAround",
            kind: Kind::Bool,
            source: Source::Inherit(SPACE_AROUND),
        },
        181 => Rule {
            key: "parenExpression.spaceAround",
            kind: Kind::Bool,
            source: Source::Inherit(SPACE_AROUND),
        },
        182 => Rule {
            key: "switchStatement.spaceAround",
            kind: Kind::Bool,
            source: Source::Inherit(SPACE_AROUND),
        },
        183 => Rule {
            key: "tupleType.spaceAround",
            kind: Kind::Bool,
            source: Source::Inherit(SPACE_AROUND),
        },
        184 => Rule {
            key: "whileStatement.spaceAround",
            kind: Kind::Bool,
            source: Source::Inherit(SPACE_AROUND),
        },
        _ => Rule { key: "", kind: Kind::Bool, source: Source::Fixed(Scalar::Bool(false)) },
    }
}

/// The option with the number `i`.
pub fn rule_at(i: usize) -> (r: Rule)
    requires
        i < OPTION_COUNT,
    ensures
        r == option_rule(i),
{
    proof {
        reveal(option_rule);
    }
    match i {
        0 => Rule { key: "deno", kind: Kind::Bool, source: Source::Fixed(Scalar::Bool(false)) },
        1 => Rule {
            key: "semiColons",
            kind: Kind::SemiColons,
            source: Source::Fixed(Scalar::SemiColons(SemiColons::Prefer)),
        },
        2 => Rule {
            key: "bracePosition",
            kind: Kind::BracePosition,
            source: Source::Fixed(Scalar::BracePosition(BracePosition::SameLineUnlessHanging)),
        },
        3 => Rule {
            key: "nextControlFlowPosition",
            kind: Kind::NextControlFlowPosition,
            source: Source::Fixed(Scalar::NextControlFlowPosition(NextControlFlowPosition::SameLine)),
        },
        4 => Rule {
            key: "operatorPosition",
            kind: Kind::OperatorPosition,
            source: Source::Fixed(Scalar::OperatorPosition(OperatorPosition::NextLine)),
        },
        5 => Rule {
            key: "singleBodyPosition",
            kind: Kind::SameOrNextLinePosition,
            source: Source::Fixed(Scalar::SameOrNextLinePosition(SameOrNextLinePosition::Maintain)),
        },
        6 => Rule {
            key: "trailingCommas",
            kind: Kind::TrailingCommas,
            source: Source::Fixed(Scalar::TrailingCommas(TrailingCommas::OnlyMultiLine)),
        },
        7 => Rule {
            key: "useBraces",
            kind: Kind::UseBraces,
            source: Source::Fixed(Scalar::UseBraces(UseBraces::WhenNotSingleLine)),
        },
        8 => Rule {
            key: "preferHanging",
            kind: Kind::Bool,
            source: Source::Fixed(Scalar::Bool(false)),
        },
        9 => Rule {
            key: "preferSingleLine",
            kind: Kind::Bool,
            source: Source::Fixed(Scalar::Bool(false)),
        },
        10 => Rule {
            key: "spaceSurroundingProperties",
            kind: Kind::Bool,
            source: Source::Fixed(Scalar::Bool(true)),
        },
        11 => Rule {
            key: "typeLiteral.separatorKind",
            kind: Kind::SemiColonOrComma,
            source: Source::Fixed(Scalar::SemiColonOrComma(SemiColonOrComma::SemiColon)),
        },
        12 => Rule {
            key: "quoteStyle",
            kind: Kind::QuoteStyle,
            source: Source::Fixed(Scalar::QuoteStyle(QuoteStyle::AlwaysDouble)),
        },
        13 => Rule {
            key: "quoteProps",
            kind: Kind::QuoteProps,
            source: Source::Fixed(Scalar::QuoteProps(QuoteProps::Preserve)),
        },
        14 => Rule {
            key: "spaceAround",
            kind: Kind::Bool,
            source: Source::Fixed(Scalar::Bool(false)),
        },
        15 => Rule {
            key: "jsx.bracketPosition",
            kind: Kind::SameOrNextLinePosition,
            source: Source::Fixed(Scalar::SameOrNextLinePosition(SameOrNextLinePosition::NextLine)),
        },
        16 => Rule { key: "lineWidth", kind: Kind::Number, source: Source::Global },
        17 => Rule { key: "useTabs", kind: Kind::Bool, source: Source::Global },
        18 => Rule { key: "indentWidth", kind: Kind::Byte, source: Source::Global },
        19 => Rule { key: "newLineKind", kind: Kind::NewLineKind, source: Source::Global },
        20 => Rule {
            key: "fileIndentLevel",
            kind: Kind::Number,
            source: Source::Fixed(Scalar::Number(0)),
        },
        21 => Rule {
            key: "arrowFunction.useParentheses",
            kind: Kind::UseParentheses,
            source: Source::Fixed(Scalar::UseParentheses(UseParentheses::Maintain)),
        },
        22 => Rule {
            key: "binaryExpression.linePerExpression",
            kind: Kind::Bool,
            source: Source::Fixed(Scalar::Bool(false)),
        },
        23 => Rule {
            key: "conditionalExpression.linePerExpression",
            kind: Kind::Bool,
            source: Source::Fixed(Scalar::Bool(true)),
        },
        24 => Rule {
            key: "jsx.quoteStyle",
            kind: Kind::JsxQuoteStyle,
            source: Source::JsxQuotes(QUOTE_STYLE),
        },
        25 => Rule {
            key: "jsx.multiLineParens",
            kind: Kind::JsxMultiLineParens,
            source: Source::Fixed(Scalar::JsxMultiLineParens(JsxMultiLineParens::Prefer)),
        },
        26 => Rule {
            key: "jsx.forceNewLinesSurroundingContent",
            kind: Kind::Bool,
            source: Source::Fixed(Scalar::Bool(false)),
        },
        27 => Rule {
            key: "jsxOpeningElement.bracketPosition",
            kind: Kind::SameOrNextLinePosition,
            source: Source::Inherit(JSX_BRACKET_POSITION),
        },
        28 => Rule {
            key: "jsxSelfClosingElement.bracketPosition",
            kind: Kind::SameOrNextLinePosition,
            source: Source::Inherit(JSX_BRACKET_POSITION),
        },
        29 => Rule {
            key: "memberExpression.linePerExpression",
            kind: Kind::Bool,
            source: Source::Fixed(Scalar::Bool(false)),
        },
        30 => Rule {
            key: "typeLiteral.separatorKind.singleLine",
            kind: Kind::SemiColonOrComma,
            source: Source::Inherit(TYPE_LITERAL_SEPARATOR_KIND),
        },
        31 => Rule {
            key: "typeLiteral.separatorKind.multiLine",
            kind: Kind::SemiColonOrComma,
            source: Source::Inherit(TYPE_LITERAL_SEPARATOR_KIND),
        },
        32 => Rule {
            key: "module.sortImportDeclarations",
            kind: Kind::SortOrder,
            source: Source::Fixed(Scalar::SortOrder(SortOrder::CaseInsensitive)),
        },
        33 => Rule {
            key: "module.sortExportDeclarations",
            kind: Kind::SortOrder,
            source: Source::Fixed(Scalar::SortOrder(SortOrder::CaseInsensitive)),
        },
        34 => Rule {
            key: "importDeclaration.sortNamedImports",
            kind: Kind::SortOrder,
            source: Source::Fixed(Scalar::SortOrder(SortOrder::CaseInsensitive)),
        },
        35 => Rule {
            key: "exportDeclaration.sortNamedExports",
            kind: Kind::SortOrder,
            source: Source::Fixed(Scalar::SortOrder(SortOrder::CaseInsensitive)),
        },
        36 => Rule {
            key: "importDeclaration.sortTypeOnlyImports",
            kind: Kind::NamedTypeImportsExportsOrder,
            source: Source::Fixed(Scalar::NamedTypeImportsExportsOrder(NamedTypeImportsExportsOrder::Unsorted)),
        },
        37 => Rule {
            key: "exportDeclaration.sortTypeOnlyExports",
            kind: Kind::NamedTypeImportsExportsOrder,
            source: Source::Fixed(Scalar::NamedTypeImportsExportsOrder(NamedTypeImportsExportsOrder::Unsorted)),
        },
        38 => Rule {
            key: "ignoreNodeCommentText",
            kind: Kind::Text,
            source: Source::Words("dprint-ignore"),
        },
        39 => Rule {
            key: "ignoreFileCommentText",
            kind: Kind::Text,
            source: Source::Words("dprint-ignore-file"),
        },
        40 => Rule {
            key: "arrowFunction.bracePosition",
            kind: Kind::BracePosition,
            source: Source::Inherit(BRACE_POSITION),
        },
        41 => Rule {
            key: "classDeclaration.bracePosition",
            kind: Kind::BracePosition,
            source: Source::Inherit(BRACE_POSITION),
        },
        42 => Rule {
            key: "classExpression.bracePosition",
            kind: Kind::BracePosition,
            source: Source::Inherit(BRACE_POSITION),
        },
        43 => Rule {
            key: "constructor.bracePosition",
            kind: Kind::BracePosition,
            source: Source::Inherit(BRACE_POSITION),
        },
        44 => Rule {
            key: "doWhileStatement.bracePosition",
            kind: Kind::BracePosition,
            source: Source::Inherit(BRACE_POSITION),
        },
        45 => Rule {
            key: "enumDeclaration.bracePosition",
            kind: Kind::BracePosition,
            source: Source::Inherit(BRACE_POSITION),
        },
        46 => Rule {
            key: "forStatement.bracePosition",
            kind: Kind::BracePosition,
            source: Source::Inherit(BRACE_POSITION),
        },
        47 => Rule {
            key: "forInStatement.bracePosition",
            kind: Kind::BracePosition,
            source: Source::Inherit(BRACE_POSITION),
        },
        48 => Rule {
            key: "forOfStatement.bracePosition",
            kind: Kind::BracePosition,
            source: Source::Inherit(BRACE_POSITION),
        },
        49 => Rule {
            key: "getAccessor.bracePosition",
            kind: Kind::BracePosition,
            source: Source::Inherit(BRACE_POSITION),
        },
        50 => Rule {
            key: "ifStatement.bracePosition",
            kind: Kind::BracePosition,
            source: Source::Inherit(BRACE_POSITION),
        },
        51 => Rule {
            key: "interfaceDeclaration.bracePosition",
            kind: Kind::BracePosition,
            source: Source::Inherit(BRACE_POSITION),
        },
        52 => Rule {
            key: "functionDeclaration.bracePosition",
            kind: Kind::BracePosition,
            source: Source::Inherit(BRACE_POSITION),
        },
        53 => Rule {
            key: "functionExpression.bracePosition",
            kind: Kind::BracePosition,
            source: Source::Inherit(BRACE_POSITION),
        },
        54 => Rule {
            key: "method.bracePosition",
            kind: Kind::BracePosition,
            source: Source::Inherit(BRACE_POSITION),
        },
        55 => Rule {
            key: "moduleDeclaration.bracePosition",
            kind: Kind::BracePosition,
            source: Source::Inherit(BRACE_POSITION),
        },
        56 => Rule {
            key: "setAccessor.bracePosition",
            kind: Kind::BracePosition,
            source: Source::Inherit(BRACE_POSITION),
        },
        57 => Rule {
            key: "staticBlock.bracePosition",
            kind: Kind::BracePosition,
            source: Source::Inherit(BRACE_POSITION),
        },
        58 => Rule {
            key: "switchCase.bracePosition",
            kind: Kind::BracePosition,
            source: Source::Inherit(BRACE_POSITION),
        },
        59 => Rule {
            key: "switchStatement.bracePosition",
            kind: Kind::BracePosition,
            source: Source::Inherit(BRACE_POSITION),
        },
        60 => Rule {
            key: "tryStatement.bracePosition",
            kind: Kind::BracePosition,
            source: Source::Inherit(BRACE_POSITION),
        },
        61 => Rule {
            key: "whileStatement.bracePosition",
            kind: Kind::BracePosition,
            source: Source::Inherit(BRACE_POSITION),
        },
        62 => Rule {
            key: "arguments.preferHanging",
            kind: Kind::PreferHanging,
            source: Source::Hanging(PREFER_HANGING),
        },
        63 => Rule {
            key: "arrayExpression.preferHanging",
            kind: Kind::PreferHanging,
            source: Source::Hanging(PREFER_HANGING),
        },
        64 => Rule {
            key: "arrayPattern.preferHanging",
            kind: Kind::Bool,
            source: Source::Inherit(PREFER_HANGING),
        },
        65 => Rule {
            key: "doWhileStatement.preferHanging",
            kind: Kind::Bool,
            source: Source::Inherit(PREFER_HANGING),
        },
        66 => Rule {
            key: "exportDeclaration.preferHanging",
            kind: Kind::Bool,
            source: Source::Inherit(PREFER_HANGING),
        },
        67 => Rule {
            key: "extendsClause.preferHanging",
            kind: Kind::Bool,
            source: Source::Inherit(PREFER_HANGING),
        },
        68 => Rule {
            key: "forInStatement.preferHanging",
            kind: Kind::Bool,
            source: Source::Inherit(PREFER_HANGING),
        },
        69 => Rule {
            key: "forOfStatement.preferHanging",
            kind: Kind::Bool,
            source: Source::Inherit(PREFER_HANGING),
        },
        70 => Rule {
            key: "forStatement.preferHanging",
            kind: Kind::Bool,
            source: Source::Inherit(PREFER_HANGING),
        },
        71 => Rule {
            key: "ifStatement.preferHanging",
            kind: Kind::Bool,
            source: Source::Inherit(PREFER_HANGING),
        },
        72 => Rule {
            key: "implementsClause.preferHanging",
            kind: Kind::Bool,
            source: Source::Inherit(PREFER_HANGING),
        },
        73 => Rule {
            key: "importDeclaration.preferHanging",
            kind: Kind::Bool,
            source: Source::Inherit(PREFER_HANGING),
        },
        74 => Rule {
            key: "jsxAttributes.preferHanging",
            kind: Kind::Bool,
            source: Source::Inherit(PREFER_HANGING),
        },
        75 => Rule {
            key: "objectExpression.preferHanging",
            kind: Kind::Bool,
            source: Source::Inherit(PREFER_HANGING),
        },
        76 => Rule {
            key: "objectPattern.preferHanging",
            kind: Kind::Bool,
            source: Source::Inherit(PREFER_HANGING),
        },
        77 => Rule {
            key: "parameters.preferHanging",
            kind: Kind::PreferHanging,
            source: Source::Hanging(PREFER_HANGING),
        },
        78 => Rule {
            key: "sequenceExpression.preferHanging",
            kind: Kind::Bool,
            source: Source::Inherit(PREFER_HANGING),
        },
        79 => Rule {
            key: "switchStatement.preferHanging",
            kind: Kind::Bool,
            source: Source::Inherit(PREFER_HANGING),
        },
        80 => Rule {
            key: "tupleType.preferHanging",
            kind: Kind::PreferHanging,
            source: Source::Hanging(PREFER_HANGING),
        },
        81 => Rule {
            key: "typeLiteral.preferHanging",
            kind: Kind::Bool,
            source: Source::Inherit(PREFER_HANGING),
        },
        82 => Rule {
            key: "typeParameters.preferHanging",
            kind: Kind::PreferHanging,
            source: Source::Hanging(PREFER_HANGING),
        },
        83 => Rule {
            key: "unionAndIntersectionType.preferHanging",
            kind: Kind::Bool,
            source: Source::Inherit(PREFER_HANGING),
        },
        84 => Rule {
            key: "variableStatement.preferHanging",
            kind: Kind::Bool,
            source: Source::Inherit(PREFER_HANGING),
        },
        85 => Rule {
            key: "whileStatement.preferHanging",
            kind: Kind::Bool,
            source: Source::Inherit(PREFER_HANGING),
        },
        86 => Rule {
            key: "enumDeclaration.memberSpacing",
            kind: Kind::MemberSpacing,
            source: Source::Fixed(Scalar::MemberSpacing(MemberSpacing::Maintain)),
        },
        87 => Rule {
            key: "ifStatement.nextControlFlowPosition",
            kind: Kind::NextControlFlowPosition,
            source: Source::Inherit(NEXT_CONTROL_FLOW_POSITION),
        },
        88 => Rule {
            key: "tryStatement.nextControlFlowPosition",
            kind: Kind::NextControlFlowPosition,
            source: Source::Inherit(NEXT_CONTROL_FLOW_POSITION),
        },
        89 => Rule {
            key: "doWhileStatement.nextControlFlowPosition",
            kind: Kind::NextControlFlowPosition,
            source: Source::Inherit(NEXT_CONTROL_FLOW_POSITION),
        },
        90 => Rule {
            key: "binaryExpression.operatorPosition",
            kind: Kind::OperatorPosition,
            source: Source::Inherit(OPERATOR_POSITION),
        },
        91 => Rule {
            key: "conditionalExpression.operatorPosition",
            kind: Kind::OperatorPosition,
            source: Source::Inherit(OPERATOR_POSITION),
        },
        92 => Rule {
            key: "conditionalType.operatorPosition",
            kind: Kind::OperatorPosition,
            source: Source::Inherit(OPERATOR_POSITION),
        },
        93 => Rule {
            key: "ifStatement.singleBodyPosition",
            kind: Kind::SameOrNextLinePosition,
            source: Source::Inherit(SINGLE_BODY_POSITION),
        },
        94 => Rule {
            key: "forStatement.singleBodyPosition",
            kind: Kind::SameOrNextLinePosition,
            source: Source::Inherit(SINGLE_BODY_POSITION),
        },
        95 => Rule {
            key: "forInStatement.singleBodyPosition",
            kind: Kind::SameOrNextLinePosition,
            source: Source::Inherit(SINGLE_BODY_POSITION),
        },
        96 => Rule {
            key: "forOfStatement.singleBodyPosition",
            kind: Kind::SameOrNextLinePosition,
            source: Source::Inherit(SINGLE_BODY_POSITION),
        },
        97 => Rule {
            key: "whileStatement.singleBodyPosition",
            kind: Kind::SameOrNextLinePosition,
            source: Source::Inherit(SINGLE_BODY_POSITION),
        },
        98 => Rule {
            key: "arguments.trailingCommas",
            kind: Kind::TrailingCommas,
            source: Source::Inherit(TRAILING_COMMAS),
        },
        99 => Rule {
            key: "parameters.trailingCommas",
            kind: Kind::TrailingCommas,
            source: Source::Inherit(TRAILING_COMMAS),
        },
        100 => Rule {
            key: "arrayExpression.trailingCommas",
            kind: Kind::TrailingCommas,
            source: Source::Inherit(TRAILING_COMMAS),
        },
        101 => Rule {
            key: "arrayPattern.trailingCommas",
            kind: Kind::TrailingCommas,
            source: Source::Inherit(TRAILING_COMMAS),
        },
        102 => Rule {
            key: "enumDeclaration.trailingCommas",
            kind: Kind::TrailingCommas,
            source: Source::Inherit(TRAILING_COMMAS),
        },
        103 => Rule {
            key: "exportDeclaration.trailingCommas",
            kind: Kind::TrailingCommas,
            source: Source::Inherit(TRAILING_COMMAS),
        },
        104 => Rule {
            key: "importDeclaration.trailingCommas",
            kind: Kind::TrailingCommas,
            source: Source::Inherit(TRAILING_COMMAS),
        },
        105 => Rule {
            key: "objectExpression.trailingCommas",
            kind: Kind::TrailingCommas,
            source: Source::Inherit(TRAILING_COMMAS),
        },
        106 => Rule {
            key: "objectPattern.trailingCommas",
            kind: Kind::TrailingCommas,
            source: Source::Inherit(TRAILING_COMMAS),
        },
        107 => Rule {
            key: "tupleType.trailingCommas",
            kind: Kind::TrailingCommas,
            source: Source::Inherit(TRAILING_COMMAS),
        },
        108 => Rule {
            key: "typeLiteral.trailingCommas",
            kind: Kind::TrailingCommas,
            source: Source::Inherit(TRAILING_COMMAS),
        },
        109 => Rule {
            key: "typeParameters.trailingCommas",
            kind: Kind::TrailingCommas,
            source: Source::Inherit(TRAILING_COMMAS),
        },
        110 => Rule {
            key: "ifStatement.useBraces",
            kind: Kind::UseBraces,
            source: Source::Inherit(USE_BRACES),
        },
        111 => Rule {
            key: "forStatement.useBraces",
            kind: Kind::UseBraces,
            source: Source::Inherit(USE_BRACES),
        },
        112 => Rule {
            key: "forInStatement.useBraces",
            kind: Kind::UseBraces,
            source: Source::Inherit(USE_BRACES),
        },
        113 => Rule {
            key: "forOfStatement.useBraces",
            kind: Kind::UseBraces,
            source: Source::Inherit(USE_BRACES),
        },
        114 => Rule {
            key: "whileStatement.useBraces",
            kind: Kind::UseBraces,
            source: Source::Inherit(USE_BRACES),
        },
        115 => Rule {
            key: "arrayExpression.preferSingleLine",
            kind: Kind::Bool,
            source: Source::Inherit(PREFER_SINGLE_LINE),
        },
        116 => Rule {
            key: "arrayPattern.preferSingleLine",
            kind: Kind::Bool,
            source: Source::Inherit(PREFER_SINGLE_LINE),
        },
        117 => Rule {
            key: "arguments.preferSingleLine",
            kind: Kind::Bool,
            source: Source::Inherit(PREFER_SINGLE_LINE),
        },
        118 => Rule {
            key: "binaryExpression.preferSingleLine",
            kind: Kind::Bool,
            source: Source::Inherit(PREFER_SINGLE_LINE),
        },
        119 => Rule {
            key: "computed.preferSingleLine",
            kind: Kind::Bool,
            source: Source::Inherit(PREFER_SINGLE_LINE),
        },
        120 => Rule {
            key: "conditionalExpression.preferSingleLine",
            kind: Kind::Bool,
            source: Source::Inherit(PREFER_SINGLE_LINE),
        },
        121 => Rule {
            key: "conditionalType.preferSingleLine",
            kind: Kind::Bool,
            source: Source::Inherit(PREFER_SINGLE_LINE),
        },
        122 => Rule {
            key: "decorators.preferSingleLine",
            kind: Kind::Bool,
            source: Source::Inherit(PREFER_SINGLE_LINE),
        },
        123 => Rule {
            key: "exportDeclaration.preferSingleLine",
            kind: Kind::Bool,
            source: Source::Given(PREFER_SINGLE_LINE, true),
        },
        124 => Rule {
            key: "forStatement.preferSingleLine",
            kind: Kind::Bool,
            source: Source::Inherit(PREFER_SINGLE_LINE),
        },
        125 => Rule {
            key: "importDeclaration.preferSingleLine",
            kind: Kind::Bool,
            source: Source::Given(PREFER_SINGLE_LINE, true),
        },
        126 => Rule {
            key: "jsxAttributes.preferSingleLine",
            kind: Kind::Bool,
            source: Source::Inherit(PREFER_SINGLE_LINE),
        },
        127 => Rule {
            key: "jsxElement.preferSingleLine",
            kind: Kind::Bool,
            source: Source::Inherit(PREFER_SINGLE_LINE),
        },
        128 => Rule {
            key: "mappedType.preferSingleLine",
            kind: Kind::Bool,
            source: Source::Inherit(PREFER_SINGLE_LINE),
        },
        129 => Rule {
            key: "memberExpression.preferSingleLine",
            kind: Kind::Bool,
            source: Source::Inherit(PREFER_SINGLE_LINE),
        },
        130 => Rule {
            key: "objectExpression.preferSingleLine",
            kind: Kind::Bool,
            source: Source::Inherit(PREFER_SINGLE_LINE),
        },
        131 => Rule {
            key: "objectPattern.preferSingleLine",
            kind: Kind::Bool,
            source: Source::Inherit(PREFER_SINGLE_LINE),
        },
        132 => Rule {
            key: "parameters.preferSingleLine",
            kind: Kind::Bool,
            source: Source::Inherit(PREFER_SINGLE_LINE),
        },
        133 => Rule {
            key: "parentheses.preferSingleLine",
            kind: Kind::Bool,
            source: Source::Inherit(PREFER_SINGLE_LINE),
        },
        134 => Rule {
            key: "tupleType.preferSingleLine",
            kind: Kind::Bool,
            source: Source::Inherit(PREFER_SINGLE_LINE),
        },
        135 => Rule {
            key: "typeLiteral.preferSingleLine",
            kind: Kind::Bool,
            source: Source::Inherit(PREFER_SINGLE_LINE),
        },
        136 => Rule {
            key: "typeParameters.preferSingleLine",
            kind: Kind::Bool,
            source: Source::Inherit(PREFER_SINGLE_LINE),
        },
        137 => Rule {
            key: "unionAndIntersectionType.preferSingleLine",
            kind: Kind::Bool,
            source: Source::Inherit(PREFER_SINGLE_LINE),
        },
        138 => Rule {
            key: "variableStatement.preferSingleLine",
            kind: Kind::Bool,
            source: Source::Inherit(PREFER_SINGLE_LINE),
        },
        139 => Rule {
            key: "importDeclaration.forceSingleLine",
            kind: Kind::Bool,
            source: Source::Fixed(Scalar::Bool(false)),
        },
        140 => Rule {
            key: "exportDeclaration.forceSingleLine",
            kind: Kind::Bool,
            source: Source::Fixed(Scalar::Bool(false)),
        },
        141 => Rule {
            key: "importDeclaration.forceMultiLine",
            kind: Kind::ForceMultiLine,
            source: Source::Fixed(Scalar::ForceMultiLine(ForceMultiLine::Never)),
        },
        142 => Rule {
            key: "exportDeclaration.forceMultiLine",
            kind: Kind::ForceMultiLine,
            source: Source::Fixed(Scalar::ForceMultiLine(ForceMultiLine::Never)),
        },
        143 => Rule {
            key: "binaryExpression.spaceSurroundingBitwiseAndArithmeticOperator",
            kind: Kind::Bool,
            source: Source::Fixed(Scalar::Bool(true)),
        },
        144 => Rule {
            key: "commentLine.forceSpaceAfterSlashes",
            kind: Kind::Bool,
            source: Source::Fixed(Scalar::Bool(true)),
        },
        145 => Rule {
            key: "constructSignature.spaceAfterNewKeyword",
            kind: Kind::Bool,
            source: Source::Fixed(Scalar::Bool(false)),
        },
        146 => Rule {
            key: "constructor.spaceBeforeParentheses",
            kind: Kind::Bool,
            source: Source::Fixed(Scalar::Bool(false)),
        },
        147 => Rule {
            key: "constructorType.spaceAfterNewKeyword",
            kind: Kind::Bool,
            source: Source::Fixed(Scalar::Bool(false)),
        },
        148 => Rule {
            key: "doWhileStatement.spaceAfterWhileKeyword",
            kind: Kind::Bool,
            source: Source::Fixed(Scalar::Bool(true)),
        },
        149 => Rule {
            key: "exportDeclaration.spaceSurroundingNamedExports",
            kind: Kind::Bool,
            source: Source::Fixed(Scalar::Bool(true)),
        },
        150 => Rule {
            key: "forStatement.spaceAfterForKeyword",
            kind: Kind::Bool,
            source: Source::Fixed(Scalar::Bool(true)),
        },
        151 => Rule {
            key: "forStatement.spaceAfterSemiColons",
            kind: Kind::Bool,
            source: Source::Fixed(Scalar::Bool(true)),
        },
        152 => Rule {
            key: "forInStatement.spaceAfterForKeyword",
            kind: Kind::Bool,
            source: Source::Fixed(Scalar::Bool(true)),
        },
        153 => Rule {
            key: "forOfStatement.spaceAfterForKeyword",
            kind: Kind::Bool,
            source: Source::Fixed(Scalar::Bool(true)),
        },
        154 => Rule {
            key: "functionDeclaration.spaceBeforeParentheses",
            kind: Kind::Bool,
            source: Source::Fixed(Scalar::Bool(false)),
        },
        155 => Rule {
            key: "functionExpression.spaceBeforeParentheses",
            kind: Kind::Bool,
            source: Source::Fixed(Scalar::Bool(false)),
        },
        156 => Rule {
            key: "functionExpression.spaceAfterFunctionKeyword",
            kind: Kind::Bool,
            source: Source::Fixed(Scalar::Bool(false)),
        },
        157 => Rule {
            key: "getAccessor.spaceBeforeParentheses",
            kind: Kind::Bool,
            source: Source::Fixed(Scalar::Bool(false)),
        },
        158 => Rule {
            key: "ifStatement.spaceAfterIfKeyword",
            kind: Kind::Bool,
            source: Source::Fixed(Scalar::Bool(true)),
        },
        159 => Rule {
            key: "importDeclaration.spaceSurroundingNamedImports",
            kind: Kind::Bool,
            source: Source::Fixed(Scalar::Bool(true)),
        },
        160 => Rule {
            key: "jsxExpressionContainer.spaceSurroundingExpression",
            kind: Kind::Bool,
            source: Source::Fixed(Scalar::Bool(false)),
        },
        161 => Rule {
            key: "jsxSelfClosingElement.spaceBeforeSlash",
            kind: Kind::Bool,
            source: Source::Fixed(Scalar::Bool(true)),
        },
        162 => Rule {
            key: "method.spaceBeforeParentheses",
            kind: Kind::Bool,
            source: Source::Fixed(Scalar::Bool(false)),
        },
        163 => Rule {
            key: "objectExpression.spaceSurroundingProperties",
            kind: Kind::Bool,
            source: Source::Inherit(SPACE_SURROUNDING_PROPERTIES),
        },
        164 => Rule {
            key: "objectPattern.spaceSurroundingProperties",
            kind: Kind::Bool,
            source: Source::Inherit(SPACE_SURROUNDING_PROPERTIES),
        },
        165 => Rule {
            key: "setAccessor.spaceBeforeParentheses",
            kind: Kind::Bool,
            source: Source::Fixed(Scalar::Bool(false)),
        },
        166 => Rule {
            key: "taggedTemplate.spaceBeforeLiteral",
            kind: Kind::Bool,
            source: Source::Fixed(Scalar::Bool(false)),
        },
        167 => Rule {
            key: "typeAnnotation.spaceBeforeColon",
            kind: Kind::Bool,
            source: Source::Fixed(Scalar::Bool(false)),
        },
        168 => Rule {
            key: "typeAssertion.spaceBeforeExpression",
            kind: Kind::Bool,
            source: Source::Fixed(Scalar::Bool(true)),
        },
        169 => Rule {
            key: "typeLiteral.spaceSurroundingProperties",
            kind: Kind::Bool,
            source: Source::Inherit(SPACE_SURROUNDING_PROPERTIES),
        },
        170 => Rule {
            key: "whileStatement.spaceAfterWhileKeyword",
            kind: Kind::Bool,
            source: Source::Fixed(Scalar::Bool(true)),
        },
        171 => Rule {
            key: "arguments.spaceAround",
            kind: Kind::Bool,
            source: Source::Inherit(SPACE_AROUND),
        },
        172 => Rule {
            key: "arrayExpression.spaceAround",
            kind: Kind::Bool,
            source: Source::Inherit(SPACE_AROUND),
        },
        173 => Rule {
            key: "arrayPattern.spaceAround",
            kind: Kind::Bool,
            source: Source::Inherit(SPACE_AROUND),
        },
        174 => Rule {
            key: "catchClause.spaceAround",
            kind: Kind::Bool,
            source: Source::Inherit(SPACE_AROUND),
        },
        175 => Rule {
            key: "doWhileStatement.spaceAround",
            kind: Kind::Bool,
            source: Source::Inherit(SPACE_AROUND),
        },
        176 => Rule {
            key: "forInStatement.spaceAround",
            kind: Kind::Bool,
            source: Source::Inherit(SPACE_AROUND),
        },
        177 => Rule {
            key: "forOfStatement.spaceAround",
            kind: Kind::Bool,
            source: Source::Inherit(SPACE_AROUND),
        },
        178 => Rule {
            key: "forStatement.spaceAround",
            kind: Kind::Bool,
            source: Source::Inherit(SPACE_AROUND),
        },
        179 => Rule {
            key: "ifStatement.spaceAround",
            kind: Kind::Bool,
            source: Source::Inherit(SPACE_AROUND),
        },
        180 => Rule {
            key: "parameters.spaceAround",
            kind: Kind::Bool,
            source: Source::Inherit(SPACE_AROUND),
        },
        181 => Rule {
            key: "parenExpression.spaceAround",
            kind: Kind::Bool,
            source: Source::Inherit(SPACE_AROUND),
        },
        182 => Rule {
            key: "switchStatement.spaceAround",
            kind: Kind::Bool,
            source: Source::Inherit(SPACE_AROUND),
        },
        183 => Rule {
            key: "tupleType.spaceAround",
            kind: Kind::Bool,
            source: Source::Inherit(SPACE_AROUND),
        },
        184 => Rule {
            key: "whileStatement.spaceAround",
            kind: Kind::Bool,
            source: Source::Inherit(SPACE_AROUND),
        },
        _ => Rule { key: "", kind: Kind::Bool, source: Source::Fixed(Scalar::Bool(false)) },
    }
}

/// The key of the option with the number `i`.
pub open spec fn option_key(i: usize) -> Seq<char> {
    option_rule(i).key@
}

/// Whether `key` is the key of one of the first `n` options.
pub open spec fn is_early_option_key(key: Seq<char>, n: nat) -> bool {
    exists|i: usize| i < n && #[trigger] option_key(i) == key
}

/// Whether `key` is the key of an option.
pub open spec fn is_option_key(key: Seq<char>) -> bool {
    is_early_option_key(key, OPTION_COUNT as nat)
}

/// How many keys were renamed.
pub const RENAMED_COUNT: usize = 2;

/// A key that is no longer in use, with the number of the option that took
/// its place.
#[derive(Clone, Copy, Debug)]
pub struct Renamed {
    pub old_key: &'static str,
    pub option: usize,
}

/// The renamed key with the number `i`.
pub open spec fn renamed_key(i: usize) -> Renamed {
    match i {
        0 => Renamed {
            old_key: "jsxElement.spaceBeforeSelfClosingTagSlash",
            option: JSX_SELF_CLOSING_ELEMENT_SPACE_BEFORE_SLASH,
        },
        1 => Renamed {
            old_key: "jsx.spaceBeforeSelfClosingTagSlash",
            option: JSX_SELF_CLOSING_ELEMENT_SPACE_BEFORE_SLASH,
        },
        _ => Renamed { old_key: "", option: 0 },
    }
}

/// The renamed key with the number `i`.
pub fn renamed_at(i: usize) -> (r: Renamed)
    requires
        i < RENAMED_COUNT,
    ensures
        r == renamed_key(i),
{
    match i {
        0 => Renamed {
            old_key: "jsxElement.spaceBeforeSelfClosingTagSlash",
            option: JSX_SELF_CLOSING_ELEMENT_SPACE_BEFORE_SLASH,
        },
        1 => Renamed {
            old_key: "jsx.spaceBeforeSelfClosingTagSlash",
            option: JSX_SELF_CLOSING_ELEMENT_SPACE_BEFORE_SLASH,
        },
        _ => Renamed { old_key: "", option: 0 },
    }
}

/// Whether the default of the option `i` comes from an option before it,
/// and is of the kind of the option.
pub open spec fn source_fits(i: usize) -> bool {
    let rule = option_rule(i);
    match rule.source {
        Source::Fixed(value) => value.kind() == rule.kind,
        Source::Words(_) => rule.kind == Kind::Text,
        Source::Global => rule.kind == Kind::Number || rule.kind == Kind::Bool || rule.kind
            == Kind::Byte || rule.kind == Kind::NewLineKind,
        Source::Inherit(from) => 0 < from < i && option_rule(from).kind == rule.kind,
        Source::Hanging(from) => 0 < from < i && option_rule(from).kind == Kind::Bool && rule.kind
            == Kind::PreferHanging,
        Source::JsxQuotes(from) => 0 < from < i && option_rule(from).kind == Kind::QuoteStyle
            && rule.kind == Kind::JsxQuoteStyle,
        Source::Given(from, _) => 0 < from < i && option_rule(from).kind == Kind::Bool && rule.kind
            == Kind::Bool,
    }
}

/// Every default comes from an option that is resolved earlier, and is of
/// the kind of the option that takes it: the order of the options can be
/// followed without meeting an option that is not resolved yet.
pub proof fn lemma_sources_fit()
    ensures
        forall|i: usize| i < OPTION_COUNT ==> #[trigger] source_fits(i),
{
    reveal(option_rule);
}

/// The first option is the switch of the preset, which is off by default.
pub proof fn lemma_preset_switch()
    ensures
        option_rule(DENO).kind == Kind::Bool,
        option_rule(DENO).source == Source::Fixed(Scalar::Bool(false)),
{
    reveal(option_rule);
}

/// Every renamed key leads to an option that takes a switch.
pub proof fn lemma_renamed_keys_lead_to_options()
    ensures
        forall|i: usize|
            i < RENAMED_COUNT ==> 0 < (#[trigger] renamed_key(i)).option < OPTION_COUNT
                && option_rule(renamed_key(i).option).kind == Kind::Bool,
{
    reveal(option_rule);
}

/// What tells the keys apart: the length of each, and for keys of one
/// length the characters at a few places.
proof fn lemma_key_marks()
    ensures
        "deno"@.len() == 4,
        "semiColons"@.len() == 10 && "semiColons"@[5] == 'o',
        "bracePosition"@.len() == 13 && "bracePosition"@[0] == 'b',
        "nextControlFlowPosition"@.len() == 23 && "nextControlFlowPosition"@[0] == 'n',
        "operatorPosition"@.len() == 16 && "operatorPosition"@[0] == 'o',
        "singleBodyPosition"@.len() == 18,
        "trailingCommas"@.len() == 14 && "trailingCommas"@[0] == 't',
        "useBraces"@.len() == 9 && "useBraces"@[0] == 'u',
        "preferHanging"@.len() == 13 && "preferHanging"@[0] == 'p',
        "preferSingleLine"@.len() == 16 && "preferSingleLine"@[0] == 'p',
        "spaceSurroundingProperties"@.len() == 26
            && "spaceSurroundingProperties"@[0] == 's'
            && "spaceSurroundingProperties"@[3] == 'c'
            && "spaceSurroundingProperties"@[13] == 'i',
        "typeLiteral.separatorKind"@.len() == 25
            && "typeLiteral.separatorKind"@[0] == 't'
            && "typeLiteral.separatorKind"@[1] == 'y'
            && "typeLiteral.separatorKind"@[12] == 's',
        "quoteStyle"@.len() == 10 && "quoteStyle"@[5] == 'S',
        "quoteProps"@.len() == 10 && "quoteProps"@[5] == 'P',
        "spaceAround"@.len() == 11 && "spaceAround"@[0] == 's',
        "jsx.bracketPosition"@.len() == 19 && "jsx.bracketPosition"@[4] == 'b',
        "lineWidth"@.len() == 9 && "lineWidth"@[0] == 'l',
        "useTabs"@.len() == 7,
        "indentWidth"@.len() == 11 && "indentWidth"@[0] == 'i',
        "newLineKind"@.len() == 11 && "newLineKind"@[0] == 'n',
        "fileIndentLevel"@.len() == 15,
        "arrowFunction.useParentheses"@.len() == 28
            && "arrowFunction.useParentheses"@[4] == 'w'
            && "arrowFunction.useParentheses"@[15] == 's',
        "binaryExpression.linePerExpression"@.len() == 34
            && "binaryExpression.linePerExpression"@[0] == 'b'
            && "binaryExpression.linePerExpression"@[18] == 'i',
        "conditionalExpression.linePerExpression"@.len() == 39
            && "conditionalExpression.linePerExpression"@[3] == 'd',
        "jsx.quoteStyle"@.len() == 14 && "jsx.quoteStyle"@[0] == 'j',
        "jsx.multiLineParens"@.len() == 19 && "jsx.multiLineParens"@[4] == 'm',
        "jsx.forceNewLinesSurroundingContent"@.len() == 35
            && "jsx.forceNewLinesSurroundingContent"@[0] == 'j'
            && "jsx.forceNewLinesSurroundingContent"@[4] == 'f',
        "jsxOpeningElement.bracketPosition"@.len() == 33
            && "jsxOpeningElement.bracketPosition"@[0] == 'j'
            && "jsxOpeningElement.bracketPosition"@[3] == 'O'
            && "jsxOpeningElement.bracketPosition"@[23] == 'e',
        "jsxSelfClosingElement.bracketPosition"@.len() == 37
            && "jsxSelfClosingElement.bracketPosition"@[0] == 'j',
        "memberExpression.linePerExpression"@.len() == 34
            && "memberExpression.linePerExpression"@[0] == 'm'
            && "memberExpression.linePerExpression"@[18] == 'i',
        "typeLiteral.separatorKind.singleLine"@.len() == 36
            && "typeLiteral.separatorKind.singleLine"@[1] == 'y',
        "typeLiteral.separatorKind.multiLine"@.len() == 35
            && "typeLiteral.separatorKind.multiLine"@[0] == 't'
            && "typeLiteral.separatorKind.multiLine"@[4] == 'L',
        "module.sortImportDeclarations"@.len() == 29
            && "module.sortImportDeclarations"@[11] == 'I'
            && "module.sortImportDeclarations"@[18] == 'e',
        "module.sortExportDeclarations"@.len() == 29
            && "module.sortExportDeclarations"@[11] == 'E'
            && "module.sortExportDeclarations"@[18] == 'e',
        "importDeclaration.sortNamedImports"@.len() == 34
            && "importDeclaration.sortNamedImports"@[0] == 'i'
            && "importDeclaration.sortNamedImports"@[18] == 's',
        "exportDeclaration.sortNamedExports"@.len() == 34
            && "exportDeclaration.sortNamedExports"@[0] == 'e'
            && "exportDeclaration.sortNamedExports"@[18] == 's',
        "importDeclaration.sortTypeOnlyImports"@.len() == 37
            && "importDeclaration.sortTypeOnlyImports"@[0] == 'i',
        "exportDeclaration.sortTypeOnlyExports"@.len() == 37
            && "exportDeclaration.sortTypeOnlyExports"@[0] == 'e',
        "ignoreNodeCommentText"@.len() == 21 && "ignoreNodeCommentText"@[6] == 'N',
        "ignoreFileCommentText"@.len() == 21 && "ignoreFileCommentText"@[6] == 'F',
        "arrowFunction.bracePosition"@.len() == 27
            && "arrowFunction.bracePosition"@[0] == 'a'
            && "arrowFunction.bracePosition"@[5] == 'F',
        "classDeclaration.bracePosition"@.len() == 30
            && "classDeclaration.bracePosition"@[0] == 'c'
            && "classDeclaration.bracePosition"@[17] == 'b',
        "classExpression.bracePosition"@.len() == 29
            && "classExpression.bracePosition"@[11] == 's'
            && "classExpression.bracePosition"@[18] == 'a',
        "constructor.bracePosition"@.len() == 25
            && "constructor.bracePosition"@[0] == 'c'
            && "constructor.bracePosition"@[1] == 'o'
            && "constructor.bracePosition"@[12] == 'b',
        "doWhileStatement.bracePosition"@.len() == 30
            && "doWhileStatement.bracePosition"@[0] == 'd'
            && "doWhileStatement.bracePosition"@[17] == 'b',
        "enumDeclaration.bracePosition"@.len() == 29
            && "enumDeclaration.bracePosition"@[11] == 't'
            && "enumDeclaration.bracePosition"@[18] == 'a',
        "forStatement.bracePosition"@.len() == 26
            && "forStatement.bracePosition"@[0] == 'f'
            && "forStatement.bracePosition"@[3] == 'S'
            && "forStatement.bracePosition"@[13] == 'b',
        "forInStatement.bracePosition"@.len() == 28
            && "forInStatement.bracePosition"@[4] == 'n'
            && "forInStatement.bracePosition"@[15] == 'b',
        "forOfStatement.bracePosition"@.len() == 28
            && "forOfStatement.bracePosition"@[4] == 'f'
            && "forOfStatement.bracePosition"@[15] == 'b',
        "getAccessor.bracePosition"@.len() == 25
            && "getAccessor.bracePosition"@[0] == 'g'
            && "getAccessor.bracePosition"@[1] == 'e'
            && "getAccessor.bracePosition"@[12] == 'b',
        "ifStatement.bracePosition"@.len() == 25
            && "ifStatement.bracePosition"@[0] == 'i'
            && "ifStatement.bracePosition"@[1] == 'f'
            && "ifStatement.bracePosition"@[12] == 'b',
        "interfaceDeclaration.bracePosition"@.len() == 34
            && "interfaceDeclaration.bracePosition"@[0] == 'i'
            && "interfaceDeclaration.bracePosition"@[18] == 'o',
        "functionDeclaration.bracePosition"@.len() == 33
            && "functionDeclaration.bracePosition"@[0] == 'f'
            && "functionDeclaration.bracePosition"@[3] == 'c'
            && "functionDeclaration.bracePosition"@[23] == 'c',
        "functionExpression.bracePosition"@.len() == 32
            && "functionExpression.bracePosition"@[0] == 'f'
            && "functionExpression.bracePosition"@[19] == 'b',
        "method.bracePosition"@.len() == 20,
        "moduleDeclaration.bracePosition"@.len() == 31
            && "moduleDeclaration.bracePosition"@[0] == 'm'
            && "moduleDeclaration.bracePosition"@[4] == 'l',
        "setAccessor.bracePosition"@.len() == 25
            && "setAccessor.bracePosition"@[0] == 's'
            && "setAccessor.bracePosition"@[1] == 'e'
            && "setAccessor.bracePosition"@[12] == 'b',
        "staticBlock.bracePosition"@.len() == 25
            && "staticBlock.bracePosition"@[0] == 's'
            && "staticBlock.bracePosition"@[1] == 't'
            && "staticBlock.bracePosition"@[12] == 'b',
        "switchCase.bracePosition"@.len() == 24
            && "switchCase.bracePosition"@[0] == 's'
            && "switchCase.bracePosition"@[3] == 't',
        "switchStatement.bracePosition"@.len() == 29
            && "switchStatement.bracePosition"@[11] == 'm'
            && "switchStatement.bracePosition"@[18] == 'a',
        "tryStatement.bracePosition"@.len() == 26
            && "tryStatement.bracePosition"@[0] == 't'
            && "tryStatement.bracePosition"@[3] == 'S'
            && "tryStatement.bracePosition"@[13] == 'b',
        "whileStatement.bracePosition"@.len() == 28
            && "whileStatement.bracePosition"@[4] == 'e'
            && "whileStatement.bracePosition"@[15] == 'b',
        "arguments.preferHanging"@.len() == 23 && "arguments.preferHanging"@[0] == 'a',
        "arrayExpression.preferHanging"@.len() == 29
            && "arrayExpression.preferHanging"@[11] == 's'
            && "arrayExpression.preferHanging"@[18] == 'e',
        "arrayPattern.preferHanging"@.len() == 26
            && "arrayPattern.preferHanging"@[0] == 'a'
            && "arrayPattern.preferHanging"@[3] == 'a'
            && "arrayPattern.preferHanging"@[13] == 'p',
        "doWhileStatement.preferHanging"@.len() == 30
            && "doWhileStatement.preferHanging"@[0] == 'd'
            && "doWhileStatement.preferHanging"@[17] == 'p',
        "exportDeclaration.preferHanging"@.len() == 31
            && "exportDeclaration.preferHanging"@[0] == 'e'
            && "exportDeclaration.preferHanging"@[4] == 'r',
        "extendsClause.preferHanging"@.len() == 27
            && "extendsClause.preferHanging"@[0] == 'e'
            && "extendsClause.preferHanging"@[5] == 'd',
        "forInStatement.preferHanging"@.len() == 28
            && "forInStatement.preferHanging"@[4] == 'n'
            && "forInStatement.preferHanging"@[15] == 'p',
        "forOfStatement.preferHanging"@.len() == 28
            && "forOfStatement.preferHanging"@[4] == 'f'
            && "forOfStatement.preferHanging"@[15] == 'p',
        "forStatement.preferHanging"@.len() == 26
            && "forStatement.preferHanging"@[0] == 'f'
            && "forStatement.preferHanging"@[3] == 'S'
            && "forStatement.preferHanging"@[13] == 'p',
        "ifStatement.preferHanging"@.len() == 25
            && "ifStatement.preferHanging"@[0] == 'i'
            && "ifStatement.preferHanging"@[1] == 'f'
            && "ifStatement.preferHanging"@[12] == 'p',
        "implementsClause.preferHanging"@.len() == 30
            && "implementsClause.preferHanging"@[0] == 'i'
            && "implementsClause.preferHanging"@[17] == 'p',
        "importDeclaration.preferHanging"@.len() == 31
            && "importDeclaration.preferHanging"@[0] == 'i'
            && "importDeclaration.preferHanging"@[4] == 'r',
        "jsxAttributes.preferHanging"@.len() == 27
            && "jsxAttributes.preferHanging"@[0] == 'j'
            && "jsxAttributes.preferHanging"@[5] == 't',
        "objectExpression.preferHanging"@.len() == 30
            && "objectExpression.preferHanging"@[0] == 'o'
            && "objectExpression.preferHanging"@[17] == 'p',
        "objectPattern.preferHanging"@.len() == 27
            && "objectPattern.preferHanging"@[0] == 'o'
            && "objectPattern.preferHanging"@[5] == 't',
        "parameters.preferHanging"@.len() == 24
            && "parameters.preferHanging"@[0] == 'p'
            && "parameters.preferHanging"@[3] == 'a',
        "sequenceExpression.preferHanging"@.len() == 32
            && "sequenceExpression.preferHanging"@[0] == 's'
            && "sequenceExpression.preferHanging"@[19] == 'p',
        "switchStatement.preferHanging"@.len() == 29
            && "switchStatement.preferHanging"@[11] == 'm'
            && "switchStatement.preferHanging"@[18] == 'e',
        "tupleType.preferHanging"@.len() == 23 && "tupleType.preferHanging"@[0] == 't',
        "typeLiteral.preferHanging"@.len() == 25
            && "typeLiteral.preferHanging"@[0] == 't'
            && "typeLiteral.preferHanging"@[1] == 'y'
            && "typeLiteral.preferHanging"@[12] == 'p',
        "typeParameters.preferHanging"@.len() == 28
            && "typeParameters.preferHanging"@[4] == 'P'
            && "typeParameters.preferHanging"@[15] == 'p',
        "unionAndIntersectionType.preferHanging"@.len() == 38
            && "unionAndIntersectionType.preferHanging"@[25] == 'p',
        "variableStatement.preferHanging"@.len() == 31
            && "variableStatement.preferHanging"@[0] == 'v'
            && "variableStatement.preferHanging"@[4] == 'a',
        "whileStatement.preferHanging"@.len() == 28
            && "whileStatement.preferHanging"@[4] == 'e'
            && "whileStatement.preferHanging"@[15] == 'p',
        "enumDeclaration.memberSpacing"@.len() == 29
            && "enumDeclaration.memberSpacing"@[11] == 't'
            && "enumDeclaration.memberSpacing"@[18] == 'm',
        "ifStatement.nextControlFlowPosition"@.len() == 35
            && "ifStatement.nextControlFlowPosition"@[0] == 'i'
            && "ifStatement.nextControlFlowPosition"@[4] == 'a',
        "tryStatement.nextControlFlowPosition"@.len() == 36
            && "tryStatement.nextControlFlowPosition"@[1] == 'r',
        "doWhileStatement.nextControlFlowPosition"@.len() == 40
            && "doWhileStatement.nextControlFlowPosition"@[0] == 'd',
        "binaryExpression.operatorPosition"@.len() == 33
            && "binaryExpression.operatorPosition"@[0] == 'b'
            && "binaryExpression.operatorPosition"@[3] == 'a'
            && "binaryExpression.operatorPosition"@[23] == 'o',
        "conditionalExpression.operatorPosition"@.len() == 38
            && "conditionalExpression.operatorPosition"@[25] == 'r',
        "conditionalType.operatorPosition"@.len() == 32
            && "conditionalType.operatorPosition"@[0] == 'c'
            && "conditionalType.operatorPosition"@[19] == 'r',
        "ifStatement.singleBodyPosition"@.len() == 30
            && "ifStatement.singleBodyPosition"@[0] == 'i'
            && "ifStatement.singleBodyPosition"@[17] == 'e',
        "forStatement.singleBodyPosition"@.len() == 31
            && "forStatement.singleBodyPosition"@[0] == 'f'
            && "forStatement.singleBodyPosition"@[4] == 't',
        "forInStatement.singleBodyPosition"@.len() == 33
            && "forInStatement.singleBodyPosition"@[0] == 'f'
            && "forInStatement.singleBodyPosition"@[3] == 'I'
            && "forInStatement.singleBodyPosition"@[23] == 'd',
        "forOfStatement.singleBodyPosition"@.len() == 33
            && "forOfStatement.singleBodyPosition"@[0] == 'f'
            && "forOfStatement.singleBodyPosition"@[3] == 'O'
            && "forOfStatement.singleBodyPosition"@[23] == 'd',
        "whileStatement.singleBodyPosition"@.len() == 33
            && "whileStatement.singleBodyPosition"@[0] == 'w'
            && "whileStatement.singleBodyPosition"@[3] == 'l'
            && "whileStatement.singleBodyPosition"@[23] == 'd',
        "arguments.trailingCommas"@.len() == 24
            && "arguments.trailingCommas"@[0] == 'a'
            && "arguments.trailingCommas"@[3] == 'u',
        "parameters.trailingCommas"@.len() == 25
            && "parameters.trailingCommas"@[0] == 'p'
            && "parameters.trailingCommas"@[1] == 'a'
            && "parameters.trailingCommas"@[12] == 'r',
        "arrayExpression.trailingCommas"@.len() == 30
            && "arrayExpression.trailingCommas"@[0] == 'a'
            && "arrayExpression.trailingCommas"@[17] == 'r',
        "arrayPattern.trailingCommas"@.len() == 27
            && "arrayPattern.trailingCommas"@[0] == 'a'
            && "arrayPattern.trailingCommas"@[5] == 'P',
        "enumDeclaration.trailingCommas"@.len() == 30
            && "enumDeclaration.trailingCommas"@[0] == 'e'
            && "enumDeclaration.trailingCommas"@[17] == 'r',
        "exportDeclaration.trailingCommas"@.len() == 32
            && "exportDeclaration.trailingCommas"@[0] == 'e'
            && "exportDeclaration.trailingCommas"@[19] == 'r',
        "importDeclaration.trailingCommas"@.len() == 32
            && "importDeclaration.trailingCommas"@[0] == 'i'
            && "importDeclaration.trailingCommas"@[19] == 'r',
        "objectExpression.trailingCommas"@.len() == 31
            && "objectExpression.trailingCommas"@[0] == 'o'
            && "objectExpression.trailingCommas"@[4] == 'c',
        "objectPattern.trailingCommas"@.len() == 28
            && "objectPattern.trailingCommas"@[4] == 'c'
            && "objectPattern.trailingCommas"@[15] == 'r',
        "tupleType.trailingCommas"@.len() == 24
            && "tupleType.trailingCommas"@[0] == 't'
            && "tupleType.trailingCommas"@[3] == 'l',
        "typeLiteral.trailingCommas"@.len() == 26
            && "typeLiteral.trailingCommas"@[0] == 't'
            && "typeLiteral.trailingCommas"@[3] == 'e'
            && "typeLiteral.trailingCommas"@[13] == 'r',
        "typeParameters.trailingCommas"@.len() == 29
            && "typeParameters.trailingCommas"@[11] == 'e'
            && "typeParameters.trailingCommas"@[18] == 'i',
        "ifStatement.useBraces"@.len() == 21 && "ifStatement.useBraces"@[6] == 'e',
        "forStatement.useBraces"@.len() == 22 && "forStatement.useBraces"@[0] == 'f',
        "forInStatement.useBraces"@.len() == 24
            && "forInStatement.useBraces"@[0] == 'f'
            && "forInStatement.useBraces"@[3] == 'I',
        "forOfStatement.useBraces"@.len() == 24
            && "forOfStatement.useBraces"@[0] == 'f'
            && "forOfStatement.useBraces"@[3] == 'O',
        "whileStatement.useBraces"@.len() == 24
            && "whileStatement.useBraces"@[0] == 'w'
            && "whileStatement.useBraces"@[3] == 'l',
        "arrayExpression.preferSingleLine"@.len() == 32
            && "arrayExpression.preferSingleLine"@[0] == 'a'
            && "arrayExpression.preferSingleLine"@[19] == 'f',
        "arrayPattern.preferSingleLine"@.len() == 29
            && "arrayPattern.preferSingleLine"@[11] == 'n'
            && "arrayPattern.preferSingleLine"@[18] == 'r',
        "arguments.preferSingleLine"@.len() == 26
            && "arguments.preferSingleLine"@[0] == 'a'
            && "arguments.preferSingleLine"@[3] == 'u'
            && "arguments.preferSingleLine"@[13] == 'f',
        "binaryExpression.preferSingleLine"@.len() == 33
            && "binaryExpression.preferSingleLine"@[0] == 'b'
            && "binaryExpression.preferSingleLine"@[3] == 'a'
            && "binaryExpression.preferSingleLine"@[23] == 'S',
        "computed.preferSingleLine"@.len() == 25
            && "computed.preferSingleLine"@[0] == 'c'
            && "computed.preferSingleLine"@[1] == 'o'
            && "computed.preferSingleLine"@[12] == 'f',
        "conditionalExpression.preferSingleLine"@.len() == 38
            && "conditionalExpression.preferSingleLine"@[25] == 'f',
        "conditionalType.preferSingleLine"@.len() == 32
            && "conditionalType.preferSingleLine"@[0] == 'c'
            && "conditionalType.preferSingleLine"@[19] == 'f',
        "decorators.preferSingleLine"@.len() == 27
            && "decorators.preferSingleLine"@[0] == 'd'
            && "decorators.preferSingleLine"@[5] == 'a',
        "exportDeclaration.preferSingleLine"@.len() == 34
            && "exportDeclaration.preferSingleLine"@[0] == 'e'
            && "exportDeclaration.preferSingleLine"@[18] == 'p',
        "forStatement.preferSingleLine"@.len() == 29
            && "forStatement.preferSingleLine"@[11] == 't'
            && "forStatement.preferSingleLine"@[18] == 'r',
        "importDeclaration.preferSingleLine"@.len() == 34
            && "importDeclaration.preferSingleLine"@[0] == 'i'
            && "importDeclaration.preferSingleLine"@[18] == 'p',
        "jsxAttributes.preferSingleLine"@.len() == 30
            && "jsxAttributes.preferSingleLine"@[0] == 'j'
            && "jsxAttributes.preferSingleLine"@[17] == 'f',
        "jsxElement.preferSingleLine"@.len() == 27
            && "jsxElement.preferSingleLine"@[0] == 'j'
            && "jsxElement.preferSingleLine"@[5] == 'e',
        "mappedType.preferSingleLine"@.len() == 27
            && "mappedType.preferSingleLine"@[0] == 'm'
            && "mappedType.preferSingleLine"@[5] == 'd',
        "memberExpression.preferSingleLine"@.len() == 33
            && "memberExpression.preferSingleLine"@[0] == 'm'
            && "memberExpression.preferSingleLine"@[3] == 'b'
            && "memberExpression.preferSingleLine"@[23] == 'S',
        "objectExpression.preferSingleLine"@.len() == 33
            && "objectExpression.preferSingleLine"@[0] == 'o'
            && "objectExpression.preferSingleLine"@[3] == 'e'
            && "objectExpression.preferSingleLine"@[23] == 'S',
        "objectPattern.preferSingleLine"@.len() == 30
            && "objectPattern.preferSingleLine"@[0] == 'o'
            && "objectPattern.preferSingleLine"@[17] == 'f',
        "parameters.preferSingleLine"@.len() == 27
            && "parameters.preferSingleLine"@[0] == 'p'
            && "parameters.preferSingleLine"@[5] == 'e',
        "parentheses.preferSingleLine"@.len() == 28
            && "parentheses.preferSingleLine"@[4] == 'n'
            && "parentheses.preferSingleLine"@[15] == 'f',
        "tupleType.preferSingleLine"@.len() == 26
            && "tupleType.preferSingleLine"@[0] == 't'
            && "tupleType.preferSingleLine"@[3] == 'l'
            && "tupleType.preferSingleLine"@[13] == 'f',
        "typeLiteral.preferSingleLine"@.len() == 28
            && "typeLiteral.preferSingleLine"@[4] == 'L'
            && "typeLiteral.preferSingleLine"@[15] == 'f',
        "typeParameters.preferSingleLine"@.len() == 31
            && "typeParameters.preferSingleLine"@[0] == 't'
            && "typeParameters.preferSingleLine"@[4] == 'P',
        "unionAndIntersectionType.preferSingleLine"@.len() == 41
            && "unionAndIntersectionType.preferSingleLine"@[0] == 'u',
        "variableStatement.preferSingleLine"@.len() == 34
            && "variableStatement.preferSingleLine"@[0] == 'v'
            && "variableStatement.preferSingleLine"@[18] == 'p',
        "importDeclaration.forceSingleLine"@.len() == 33
            && "importDeclaration.forceSingleLine"@[0] == 'i'
            && "importDeclaration.forceSingleLine"@[3] == 'o'
            && "importDeclaration.forceSingleLine"@[23] == 'S',
        "exportDeclaration.forceSingleLine"@.len() == 33
            && "exportDeclaration.forceSingleLine"@[0] == 'e'
            && "exportDeclaration.forceSingleLine"@[3] == 'o'
            && "exportDeclaration.forceSingleLine"@[23] == 'S',
        "importDeclaration.forceMultiLine"@.len() == 32
            && "importDeclaration.forceMultiLine"@[0] == 'i'
            && "importDeclaration.forceMultiLine"@[19] == 'o',
        "exportDeclaration.forceMultiLine"@.len() == 32
            && "exportDeclaration.forceMultiLine"@[0] == 'e'
            && "exportDeclaration.forceMultiLine"@[19] == 'o',
        "binaryExpression.spaceSurroundingBitwiseAndArithmeticOperator"@.len() == 61,
        "commentLine.forceSpaceAfterSlashes"@.len() == 34
            && "commentLine.forceSpaceAfterSlashes"@[0] == 'c'
            && "commentLine.forceSpaceAfterSlashes"@[18] == 'p',
        "constructSignature.spaceAfterNewKeyword"@.len() == 39
            && "constructSignature.spaceAfterNewKeyword"@[3] == 's',
        "constructor.spaceBeforeParentheses"@.len() == 34
            && "constructor.spaceBeforeParentheses"@[0] == 'c'
            && "constructor.spaceBeforeParentheses"@[18] == 'e',
        "constructorType.spaceAfterNewKeyword"@.len() == 36
            && "constructorType.spaceAfterNewKeyword"@[1] == 'o',
        "doWhileStatement.spaceAfterWhileKeyword"@.len() == 39
            && "doWhileStatement.spaceAfterWhileKeyword"@[3] == 'h',
        "exportDeclaration.spaceSurroundingNamedExports"@.len() == 46
            && "exportDeclaration.spaceSurroundingNamedExports"@[0] == 'e',
        "forStatement.spaceAfterForKeyword"@.len() == 33
            && "forStatement.spaceAfterForKeyword"@[0] == 'f'
            && "forStatement.spaceAfterForKeyword"@[3] == 'S'
            && "forStatement.spaceAfterForKeyword"@[23] == 'F',
        "forStatement.spaceAfterSemiColons"@.len() == 33
            && "forStatement.spaceAfterSemiColons"@[0] == 'f'
            && "forStatement.spaceAfterSemiColons"@[3] == 'S'
            && "forStatement.spaceAfterSemiColons"@[23] == 'S',
        "forInStatement.spaceAfterForKeyword"@.len() == 35
            && "forInStatement.spaceAfterForKeyword"@[0] == 'f'
            && "forInStatement.spaceAfterForKeyword"@[4] == 'n',
        "forOfStatement.spaceAfterForKeyword"@.len() == 35
            && "forOfStatement.spaceAfterForKeyword"@[0] == 'f'
            && "forOfStatement.spaceAfterForKeyword"@[4] == 'f',
        "functionDeclaration.spaceBeforeParentheses"@.len() == 42,
        "functionExpression.spaceBeforeParentheses"@.len() == 41
            && "functionExpression.spaceBeforeParentheses"@[0] == 'f',
        "functionExpression.spaceAfterFunctionKeyword"@.len() == 44,
        "getAccessor.spaceBeforeParentheses"@.len() == 34
            && "getAccessor.spaceBeforeParentheses"@[0] == 'g'
            && "getAccessor.spaceBeforeParentheses"@[18] == 'e',
        "ifStatement.spaceAfterIfKeyword"@.len() == 31
            && "ifStatement.spaceAfterIfKeyword"@[0] == 'i'
            && "ifStatement.spaceAfterIfKeyword"@[4] == 'a',
        "importDeclaration.spaceSurroundingNamedImports"@.len() == 46
            && "importDeclaration.spaceSurroundingNamedImports"@[0] == 'i',
        "jsxExpressionContainer.spaceSurroundingExpression"@.len() == 49,
        "jsxSelfClosingElement.spaceBeforeSlash"@.len() == 38
            && "jsxSelfClosingElement.spaceBeforeSlash"@[25] == 'c',
        "method.spaceBeforeParentheses"@.len() == 29
            && "method.spaceBeforeParentheses"@[11] == 'e'
            && "method.spaceBeforeParentheses"@[18] == 'P',
        "objectExpression.spaceSurroundingProperties"@.len() == 43,
        "objectPattern.spaceSurroundingProperties"@.len() == 40
            && "objectPattern.spaceSurroundingProperties"@[0] == 'o',
        "setAccessor.spaceBeforeParentheses"@.len() == 34
            && "setAccessor.spaceBeforeParentheses"@[0] == 's'
            && "setAccessor.spaceBeforeParentheses"@[18] == 'e',
        "taggedTemplate.spaceBeforeLiteral"@.len() == 33
            && "taggedTemplate.spaceBeforeLiteral"@[0] == 't'
            && "taggedTemplate.spaceBeforeLiteral"@[3] == 'g'
            && "taggedTemplate.spaceBeforeLiteral"@[23] == 'o',
        "typeAnnotation.spaceBeforeColon"@.len() == 31
            && "typeAnnotation.spaceBeforeColon"@[0] == 't'
            && "typeAnnotation.spaceBeforeColon"@[4] == 'A',
        "typeAssertion.spaceBeforeExpression"@.len() == 35
            && "typeAssertion.spaceBeforeExpression"@[0] == 't'
            && "typeAssertion.spaceBeforeExpression"@[4] == 'A',
        "typeLiteral.spaceSurroundingProperties"@.len() == 38
            && "typeLiteral.spaceSurroundingProperties"@[25] == 'i',
        "whileStatement.spaceAfterWhileKeyword"@.len() == 37
            && "whileStatement.spaceAfterWhileKeyword"@[0] == 'w',
        "arguments.spaceAround"@.len() == 21 && "arguments.spaceAround"@[6] == 'n',
        "arrayExpression.spaceAround"@.len() == 27
            && "arrayExpression.spaceAround"@[0] == 'a'
            && "arrayExpression.spaceAround"@[5] == 'E',
        "arrayPattern.spaceAround"@.len() == 24
            && "arrayPattern.spaceAround"@[0] == 'a'
            && "arrayPattern.spaceAround"@[3] == 'a',
        "catchClause.spaceAround"@.len() == 23 && "catchClause.spaceAround"@[0] == 'c',
        "doWhileStatement.spaceAround"@.len() == 28
            && "doWhileStatement.spaceAround"@[4] == 'i'
            && "doWhileStatement.spaceAround"@[15] == 't',
        "forInStatement.spaceAround"@.len() == 26
            && "forInStatement.spaceAround"@[0] == 'f'
            && "forInStatement.spaceAround"@[3] == 'I'
            && "forInStatement.spaceAround"@[13] == 't',
        "forOfStatement.spaceAround"@.len() == 26
            && "forOfStatement.spaceAround"@[0] == 'f'
            && "forOfStatement.spaceAround"@[3] == 'O'
            && "forOfStatement.spaceAround"@[13] == 't',
        "forStatement.spaceAround"@.len() == 24
            && "forStatement.spaceAround"@[0] == 'f'
            && "forStatement.spaceAround"@[3] == 'S',
        "ifStatement.spaceAround"@.len() == 23 && "ifStatement.spaceAround"@[0] == 'i',
        "parameters.spaceAround"@.len() == 22 && "parameters.spaceAround"@[0] == 'p',
        "parenExpression.spaceAround"@.len() == 27
            && "parenExpression.spaceAround"@[0] == 'p'
            && "parenExpression.spaceAround"@[5] == 'E',
        "switchStatement.spaceAround"@.len() == 27
            && "switchStatement.spaceAround"@[0] == 's'
            && "switchStatement.spaceAround"@[5] == 'h',
        "tupleType.spaceAround"@.len() == 21 && "tupleType.spaceAround"@[6] == 'y',
        "whileStatement.spaceAround"@.len() == 26
            && "whileStatement.spaceAround"@[0] == 'w'
            && "whileStatement.spaceAround"@[3] == 'l'
            && "whileStatement.spaceAround"@[13] == 't',
        "jsxElement.spaceBeforeSelfClosingTagSlash"@.len() == 41
            && "jsxElement.spaceBeforeSelfClosingTagSlash"@[0] == 'j',
        "jsx.spaceBeforeSelfClosingTagSlash"@.len() == 34
            && "jsx.spaceBeforeSelfClosingTagSlash"@[0] == 'j'
            && "jsx.spaceBeforeSelfClosingTagSlash"@[18] == 'f',
{
    reveal_strlit("deno");
    reveal_strlit("semiColons");
    reveal_strlit("bracePosition");
    reveal_strlit("nextControlFlowPosition");
    reveal_strlit("operatorPosition");
    reveal_strlit("singleBodyPosition");
    reveal_strlit("trailingCommas");
    reveal_strlit("useBraces");
    reveal_strlit("preferHanging");
    reveal_strlit("preferSingleLine");
    reveal_strlit("spaceSurroundingProperties");
    reveal_strlit("typeLiteral.separatorKind");
    reveal_strlit("quoteStyle");
    reveal_strlit("quoteProps");
    reveal_strlit("spaceAround");
    reveal_strlit("jsx.bracketPosition");
    reveal_strlit("lineWidth");
    reveal_strlit("useTabs");
    reveal_strlit("indentWidth");
    reveal_strlit("newLineKind");
    reveal_strlit("fileIndentLevel");
    reveal_strlit("arrowFunction.useParentheses");
    reveal_strlit("binaryExpression.linePerExpression");
    reveal_strlit("conditionalExpression.linePerExpression");
    reveal_strlit("jsx.quoteStyle");
    reveal_strlit("jsx.multiLineParens");
    reveal_strlit("jsx.forceNewLinesSurroundingContent");
    reveal_strlit("jsxOpeningElement.bracketPosition");
    reveal_strlit("jsxSelfClosingElement.bracketPosition");
    reveal_strlit("memberExpression.linePerExpression");
    reveal_strlit("typeLiteral.separatorKind.singleLine");
    reveal_strlit("typeLiteral.separatorKind.multiLine");
    reveal_strlit("module.sortImportDeclarations");
    reveal_strlit("module.sortExportDeclarations");
    reveal_strlit("importDeclaration.sortNamedImports");
    reveal_strlit("exportDeclaration.sortNamedExports");
    reveal_strlit("importDeclaration.sortTypeOnlyImports");
    reveal_strlit("exportDeclaration.sortTypeOnlyExports");
    reveal_strlit("ignoreNodeCommentText");
    reveal_strlit("ignoreFileCommentText");
    reveal_strlit("arrowFunction.bracePosition");
    reveal_strlit("classDeclaration.bracePosition");
    reveal_strlit("classExpression.bracePosition");
    reveal_strlit("constructor.bracePosition");
    reveal_strlit("doWhileStatement.bracePosition");
    reveal_strlit("enumDeclaration.bracePosition");
    reveal_strlit("forStatement.bracePosition");
    reveal_strlit("forInStatement.bracePosition");
    reveal_strlit("forOfStatement.bracePosition");
    reveal_strlit("getAccessor.bracePosition");
    reveal_strlit("ifStatement.bracePosition");
    reveal_strlit("interfaceDeclaration.bracePosition");
    reveal_strlit("functionDeclaration.bracePosition");
    reveal_strlit("functionExpression.bracePosition");
    reveal_strlit("method.bracePosition");
    reveal_strlit("moduleDeclaration.bracePosition");
    reveal_strlit("setAccessor.bracePosition");
    reveal_strlit("staticBlock.bracePosition");
    reveal_strlit("switchCase.bracePosition");
    reveal_strlit("switchStatement.bracePosition");
    reveal_strlit("tryStatement.bracePosition");
    reveal_strlit("whileStatement.bracePosition");
    reveal_strlit("arguments.preferHanging");
    reveal_strlit("arrayExpression.preferHanging");
    reveal_strlit("arrayPattern.preferHanging");
    reveal_strlit("doWhileStatement.preferHanging");
    reveal_strlit("exportDeclaration.preferHanging");
    reveal_strlit("extendsClause.preferHanging");
    reveal_strlit("forInStatement.preferHanging");
    reveal_strlit("forOfStatement.preferHanging");
    reveal_strlit("forStatement.preferHanging");
    reveal_strlit("ifStatement.preferHanging");
    reveal_strlit("implementsClause.preferHanging");
    reveal_strlit("importDeclaration.preferHanging");
    reveal_strlit("jsxAttributes.preferHanging");
    reveal_strlit("objectExpression.preferHanging");
    reveal_strlit("objectPattern.preferHanging");
    reveal_strlit("parameters.preferHanging");
    reveal_strlit("sequenceExpression.preferHanging");
    reveal_strlit("switchStatement.preferHanging");
    reveal_strlit("tupleType.preferHanging");
    reveal_strlit("typeLiteral.preferHanging");
    reveal_strlit("typeParameters.preferHanging");
    reveal_strlit("unionAndIntersectionType.preferHanging");
    reveal_strlit("variableStatement.preferHanging");
    reveal_strlit("whileStatement.preferHanging");
    reveal_strlit("enumDeclaration.memberSpacing");
    reveal_strlit("ifStatement.nextControlFlowPosition");
    reveal_strlit("tryStatement.nextControlFlowPosition");
    reveal_strlit("doWhileStatement.nextControlFlowPosition");
    reveal_strlit("binaryExpression.operatorPosition");
    reveal_strlit("conditionalExpression.operatorPosition");
    reveal_strlit("conditionalType.operatorPosition");
    reveal_strlit("ifStatement.singleBodyPosition");
    reveal_strlit("forStatement.singleBodyPosition");
    reveal_strlit("forInStatement.singleBodyPosition");
    reveal_strlit("forOfStatement.singleBodyPosition");
    reveal_strlit("whileStatement.singleBodyPosition");
    reveal_strlit("arguments.trailingCommas");
    reveal_strlit("parameters.trailingCommas");
    reveal_strlit("arrayExpression.trailingCommas");
    reveal_strlit("arrayPattern.trailingCommas");
    reveal_strlit("enumDeclaration.trailingCommas");
    reveal_strlit("exportDeclaration.trailingCommas");
    reveal_strlit("importDeclaration.trailingCommas");
    reveal_strlit("objectExpression.trailingCommas");
    reveal_strlit("objectPattern.trailingCommas");
    reveal_strlit("tupleType.trailingCommas");
    reveal_strlit("typeLiteral.trailingCommas");
    reveal_strlit("typeParameters.trailingCommas");
    reveal_strlit("ifStatement.useBraces");
    reveal_strlit("forStatement.useBraces");
    reveal_strlit("forInStatement.useBraces");
    reveal_strlit("forOfStatement.useBraces");
    reveal_strlit("whileStatement.useBraces");
    reveal_strlit("arrayExpression.preferSingleLine");
    reveal_strlit("arrayPattern.preferSingleLine");
    reveal_strlit("arguments.preferSingleLine");
    reveal_strlit("binaryExpression.preferSingleLine");
    reveal_strlit("computed.preferSingleLine");
    reveal_strlit("conditionalExpression.preferSingleLine");
    reveal_strlit("conditionalType.preferSingleLine");
    reveal_strlit("decorators.preferSingleLine");
    reveal_strlit("exportDeclaration.preferSingleLine");
    reveal_strlit("forStatement.preferSingleLine");
    reveal_strlit("importDeclaration.preferSingleLine");
    reveal_strlit("jsxAttributes.preferSingleLine");
    reveal_strlit("jsxElement.preferSingleLine");
    reveal_strlit("mappedType.preferSingleLine");
    reveal_strlit("memberExpression.preferSingleLine");
    reveal_strlit("objectExpression.preferSingleLine");
    reveal_strlit("objectPattern.preferSingleLine");
    reveal_strlit("parameters.preferSingleLine");
    reveal_strlit("parentheses.preferSingleLine");
    reveal_strlit("tupleType.preferSingleLine");
    reveal_strlit("typeLiteral.preferSingleLine");
    reveal_strlit("typeParameters.preferSingleLine");
    reveal_strlit("unionAndIntersectionType.preferSingleLine");
    reveal_strlit("variableStatement.preferSingleLine");
    reveal_strlit("importDeclaration.forceSingleLine");
    reveal_strlit("exportDeclaration.forceSingleLine");
    reveal_strlit("importDeclaration.forceMultiLine");
    reveal_strlit("exportDeclaration.forceMultiLine");
    reveal_strlit("binaryExpression.spaceSurroundingBitwiseAndArithmeticOperator");
    reveal_strlit("commentLine.forceSpaceAfterSlashes");
    reveal_strlit("constructSignature.spaceAfterNewKeyword");
    reveal_strlit("constructor.spaceBeforeParentheses");
    reveal_strlit("constructorType.spaceAfterNewKeyword");
    reveal_strlit("doWhileStatement.spaceAfterWhileKeyword");
    reveal_strlit("exportDeclaration.spaceSurroundingNamedExports");
    reveal_strlit("forStatement.spaceAfterForKeyword");
    reveal_strlit("forStatement.spaceAfterSemiColons");
    reveal_strlit("forInStatement.spaceAfterForKeyword");
    reveal_strlit("forOfStatement.spaceAfterForKeyword");
    reveal_strlit("functionDeclaration.spaceBeforeParentheses");
    reveal_strlit("functionExpression.spaceBeforeParentheses");
    reveal_strlit("functionExpression.spaceAfterFunctionKeyword");
    reveal_strlit("getAccessor.spaceBeforeParentheses");
    reveal_strlit("ifStatement.spaceAfterIfKeyword");
    reveal_strlit("importDeclaration.spaceSurroundingNamedImports");
    reveal_strlit("jsxExpressionContainer.spaceSurroundingExpression");
    reveal_strlit("jsxSelfClosingElement.spaceBeforeSlash");
    reveal_strlit("method.spaceBeforeParentheses");
    reveal_strlit("objectExpression.spaceSurroundingProperties");
    reveal_strlit("objectPattern.spaceSurroundingProperties");
    reveal_strlit("setAccessor.spaceBeforeParentheses");
    reveal_strlit("taggedTemplate.spaceBeforeLiteral");
    reveal_strlit("typeAnnotation.spaceBeforeColon");
    reveal_strlit("typeAssertion.spaceBeforeExpression");
    reveal_strlit("typeLiteral.spaceSurroundingProperties");
    reveal_strlit("whileStatement.spaceAfterWhileKeyword");
    reveal_strlit("arguments.spaceAround");
    reveal_strlit("arrayExpression.spaceAround");
    reveal_strlit("arrayPattern.spaceAround");
    reveal_strlit("catchClause.spaceAround");
    reveal_strlit("doWhileStatement.spaceAround");
    reveal_strlit("forInStatement.spaceAround");
    reveal_strlit("forOfStatement.spaceAround");
    reveal_strlit("forStatement.spaceAround");
    reveal_strlit("ifStatement.spaceAround");
    reveal_strlit("parameters.spaceAround");
    reveal_strlit("parenExpression.spaceAround");
    reveal_strlit("switchStatement.spaceAround");
    reveal_strlit("tupleType.spaceAround");
    reveal_strlit("whileStatement.spaceAround");
    reveal_strlit("jsxElement.spaceBeforeSelfClosingTagSlash");
    reveal_strlit("jsx.spaceBeforeSelfClosingTagSlash");
}

/// No two options have the same key, no two renamed keys are the same, and
/// no renamed key is the key of an option.
pub proof fn lemma_keys_differ()
    ensures
        forall|i: usize, j: usize|
            i < j < OPTION_COUNT ==> #[trigger] option_key(i) != #[trigger] option_key(j),
        forall|i: usize, j: usize|
            i < j < RENAMED_COUNT ==> (#[trigger] renamed_key(i)).old_key@ != (
            #[trigger] renamed_key(j)).old_key@,
        forall|i: usize, j: usize|
            i < RENAMED_COUNT && j < OPTION_COUNT ==> (#[trigger] renamed_key(i)).old_key@
                != #[trigger] option_key(j),
{
    reveal(option_rule);
    lemma_key_marks();
}

} // verus!
