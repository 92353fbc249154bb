//! From the values of all options to the configuration record.

use super::schema::ARGUMENTS_PREFER_HANGING;
use super::schema::ARGUMENTS_PREFER_SINGLE_LINE;
use super::schema::ARGUMENTS_SPACE_AROUND;
use super::schema::ARGUMENTS_TRAILING_COMMAS;
use super::schema::ARRAY_EXPRESSION_PREFER_HANGING;
use super::schema::ARRAY_EXPRESSION_PREFER_SINGLE_LINE;
use super::schema::ARRAY_EXPRESSION_SPACE_AROUND;
use super::schema::ARRAY_EXPRESSION_TRAILING_COMMAS;
use super::schema::ARRAY_PATTERN_PREFER_HANGING;
use super::schema::ARRAY_PATTERN_PREFER_SINGLE_LINE;
use super::schema::ARRAY_PATTERN_SPACE_AROUND;
use super::schema::ARRAY_PATTERN_TRAILING_COMMAS;
use super::schema::ARROW_FUNCTION_BRACE_POSITION;
use super::schema::ARROW_FUNCTION_USE_PARENTHESES;
use super::schema::BINARY_EXPRESSION_LINE_PER_EXPRESSION;
use super::schema::BINARY_EXPRESSION_OPERATOR_POSITION;
use super::schema::BINARY_EXPRESSION_PREFER_SINGLE_LINE;
use super::schema::BINARY_EXPRESSION_SPACE_SURROUNDING_BITWISE_AND_ARITHMETIC_OPERATOR;
use super::schema::CATCH_CLAUSE_SPACE_AROUND;
use super::schema::CLASS_DECLARATION_BRACE_POSITION;
use super::schema::CLASS_EXPRESSION_BRACE_POSITION;
use super::schema::COMMENT_LINE_FORCE_SPACE_AFTER_SLASHES;
use super::schema::COMPUTED_PREFER_SINGLE_LINE;
use super::schema::CONDITIONAL_EXPRESSION_LINE_PER_EXPRESSION;
use super::schema::CONDITIONAL_EXPRESSION_OPERATOR_POSITION;
use super::schema::CONDITIONAL_EXPRESSION_PREFER_SINGLE_LINE;
use super::schema::CONDITIONAL_TYPE_OPERATOR_POSITION;
use super::schema::CONDITIONAL_TYPE_PREFER_SINGLE_LINE;
use super::schema::CONSTRUCTOR_BRACE_POSITION;
use super::schema::CONSTRUCTOR_SPACE_BEFORE_PARENTHESES;
use super::schema::CONSTRUCTOR_TYPE_SPACE_AFTER_NEW_KEYWORD;
use super::schema::CONSTRUCT_SIGNATURE_SPACE_AFTER_NEW_KEYWORD;
use super::schema::DECORATORS_PREFER_SINGLE_LINE;
use super::schema::DO_WHILE_STATEMENT_BRACE_POSITION;
use super::schema::DO_WHILE_STATEMENT_NEXT_CONTROL_FLOW_POSITION;
use super::schema::DO_WHILE_STATEMENT_PREFER_HANGING;
use super::schema::DO_WHILE_STATEMENT_SPACE_AFTER_WHILE_KEYWORD;
use super::schema::DO_WHILE_STATEMENT_SPACE_AROUND;
use super::schema::ENUM_DECLARATION_BRACE_POSITION;
use super::schema::ENUM_DECLARATION_MEMBER_SPACING;
use super::schema::ENUM_DECLARATION_TRAILING_COMMAS;
use super::schema::EXPORT_DECLARATION_FORCE_MULTI_LINE;
use super::schema::EXPORT_DECLARATION_FORCE_SINGLE_LINE;
use super::schema::EXPORT_DECLARATION_PREFER_HANGING;
use super::schema::EXPORT_DECLARATION_PREFER_SINGLE_LINE;
use super::schema::EXPORT_DECLARATION_SORT_NAMED_EXPORTS;
use super::schema::EXPORT_DECLARATION_SORT_TYPE_ONLY_EXPORTS;
use super::schema::EXPORT_DECLARATION_SPACE_SURROUNDING_NAMED_EXPORTS;
use super::schema::EXPORT_DECLARATION_TRAILING_COMMAS;
use super::schema::EXTENDS_CLAUSE_PREFER_HANGING;
use super::schema::FILE_INDENT_LEVEL;
use super::schema::FOR_IN_STATEMENT_BRACE_POSITION;
use super::schema::FOR_IN_STATEMENT_PREFER_HANGING;
use super::schema::FOR_IN_STATEMENT_SINGLE_BODY_POSITION;
use super::schema::FOR_IN_STATEMENT_SPACE_AFTER_FOR_KEYWORD;
use super::schema::FOR_IN_STATEMENT_SPACE_AROUND;
use super::schema::FOR_IN_STATEMENT_USE_BRACES;
use super::schema::FOR_OF_STATEMENT_BRACE_POSITION;
use super::schema::FOR_OF_STATEMENT_PREFER_HANGING;
use super::schema::FOR_OF_STATEMENT_SINGLE_BODY_POSITION;
use super::schema::FOR_OF_STATEMENT_SPACE_AFTER_FOR_KEYWORD;
use super::schema::FOR_OF_STATEMENT_SPACE_AROUND;
use super::schema::FOR_OF_STATEMENT_USE_BRACES;
use super::schema::FOR_STATEMENT_BRACE_POSITION;
use super::schema::FOR_STATEMENT_PREFER_HANGING;
use super::schema::FOR_STATEMENT_PREFER_SINGLE_LINE;
use super::schema::FOR_STATEMENT_SINGLE_BODY_POSITION;
use super::schema::FOR_STATEMENT_SPACE_AFTER_FOR_KEYWORD;
use super::schema::FOR_STATEMENT_SPACE_AFTER_SEMI_COLONS;
use super::schema::FOR_STATEMENT_SPACE_AROUND;
use super::schema::FOR_STATEMENT_USE_BRACES;
use super::schema::FUNCTION_DECLARATION_BRACE_POSITION;
use super::schema::FUNCTION_DECLARATION_SPACE_BEFORE_PARENTHESES;
use super::schema::FUNCTION_EXPRESSION_BRACE_POSITION;
use super::schema::FUNCTION_EXPRESSION_SPACE_AFTER_FUNCTION_KEYWORD;
use super::schema::FUNCTION_EXPRESSION_SPACE_BEFORE_PARENTHESES;
use super::schema::GET_ACCESSOR_BRACE_POSITION;
use super::schema::GET_ACCESSOR_SPACE_BEFORE_PARENTHESES;
use super::schema::IF_STATEMENT_BRACE_POSITION;
use super::schema::IF_STATEMENT_NEXT_CONTROL_FLOW_POSITION;
use super::schema::IF_STATEMENT_PREFER_HANGING;
use super::schema::IF_STATEMENT_SINGLE_BODY_POSITION;
use super::schema::IF_STATEMENT_SPACE_AFTER_IF_KEYWORD;
use super::schema::IF_STATEMENT_SPACE_AROUND;
use super::schema::IF_STATEMENT_USE_BRACES;
use super::schema::IGNORE_FILE_COMMENT_TEXT;
use super::schema::IGNORE_NODE_COMMENT_TEXT;
use super::schema::IMPLEMENTS_CLAUSE_PREFER_HANGING;
use super::schema::IMPORT_DECLARATION_FORCE_MULTI_LINE;
use super::schema::IMPORT_DECLARATION_FORCE_SINGLE_LINE;
use super::schema::IMPORT_DECLARATION_PREFER_HANGING;
use super::schema::IMPORT_DECLARATION_PREFER_SINGLE_LINE;
use super::schema::IMPORT_DECLARATION_SORT_NAMED_IMPORTS;
use super::schema::IMPORT_DECLARATION_SORT_TYPE_ONLY_IMPORTS;
use super::schema::IMPORT_DECLARATION_SPACE_SURROUNDING_NAMED_IMPORTS;
use super::schema::IMPORT_DECLARATION_TRAILING_COMMAS;
use super::schema::INDENT_WIDTH;
use super::schema::INTERFACE_DECLARATION_BRACE_POSITION;
use super::schema::JSX_ATTRIBUTES_PREFER_HANGING;
use super::schema::JSX_ATTRIBUTES_PREFER_SINGLE_LINE;
use super::schema::JSX_ELEMENT_PREFER_SINGLE_LINE;
use super::schema::JSX_EXPRESSION_CONTAINER_SPACE_SURROUNDING_EXPRESSION;
use super::schema::JSX_FORCE_NEW_LINES_SURROUNDING_CONTENT;
use super::schema::JSX_MULTI_LINE_PARENS;
use super::schema::JSX_OPENING_ELEMENT_BRACKET_POSITION;
use super::schema::JSX_QUOTE_STYLE;
use super::schema::JSX_SELF_CLOSING_ELEMENT_BRACKET_POSITION;
use super::schema::JSX_SELF_CLOSING_ELEMENT_SPACE_BEFORE_SLASH;
use super::schema::LINE_WIDTH;
use super::schema::MAPPED_TYPE_PREFER_SINGLE_LINE;
use super::schema::MEMBER_EXPRESSION_LINE_PER_EXPRESSION;
use super::schema::MEMBER_EXPRESSION_PREFER_SINGLE_LINE;
use super::schema::METHOD_BRACE_POSITION;
use super::schema::METHOD_SPACE_BEFORE_PARENTHESES;
use super::schema::MODULE_DECLARATION_BRACE_POSITION;
use super::schema::MODULE_SORT_EXPORT_DECLARATIONS;
use super::schema::MODULE_SORT_IMPORT_DECLARATIONS;
use super::schema::NEW_LINE_KIND;
use super::schema::OBJECT_EXPRESSION_PREFER_HANGING;
use super::schema::OBJECT_EXPRESSION_PREFER_SINGLE_LINE;
use super::schema::OBJECT_EXPRESSION_SPACE_SURROUNDING_PROPERTIES;
use super::schema::OBJECT_EXPRESSION_TRAILING_COMMAS;
use super::schema::OBJECT_PATTERN_PREFER_HANGING;
use super::schema::OBJECT_PATTERN_PREFER_SINGLE_LINE;
use super::schema::OBJECT_PATTERN_SPACE_SURROUNDING_PROPERTIES;
use super::schema::OBJECT_PATTERN_TRAILING_COMMAS;
use super::schema::PARAMETERS_PREFER_HANGING;
use super::schema::PARAMETERS_PREFER_SINGLE_LINE;
use super::schema::PARAMETERS_SPACE_AROUND;
use super::schema::PARAMETERS_TRAILING_COMMAS;
use super::schema::PARENTHESES_PREFER_SINGLE_LINE;
use super::schema::PAREN_EXPRESSION_SPACE_AROUND;
use super::schema::QUOTE_PROPS;
use super::schema::QUOTE_STYLE;
use super::schema::SEMI_COLONS;
use super::schema::SEQUENCE_EXPRESSION_PREFER_HANGING;
use super::schema::SET_ACCESSOR_BRACE_POSITION;
use super::schema::SET_ACCESSOR_SPACE_BEFORE_PARENTHESES;
use super::schema::SPACE_SURROUNDING_PROPERTIES;
use super::schema::STATIC_BLOCK_BRACE_POSITION;
use super::schema::SWITCH_CASE_BRACE_POSITION;
use super::schema::SWITCH_STATEMENT_BRACE_POSITION;
use super::schema::SWITCH_STATEMENT_PREFER_HANGING;
use super::schema::SWITCH_STATEMENT_SPACE_AROUND;
use super::schema::TAGGED_TEMPLATE_SPACE_BEFORE_LITERAL;
use super::schema::TRY_STATEMENT_BRACE_POSITION;
use super::schema::TRY_STATEMENT_NEXT_CONTROL_FLOW_POSITION;
use super::schema::TUPLE_TYPE_PREFER_HANGING;
use super::schema::TUPLE_TYPE_PREFER_SINGLE_LINE;
use super::schema::TUPLE_TYPE_SPACE_AROUND;
use super::schema::TUPLE_TYPE_TRAILING_COMMAS;
use super::schema::TYPE_ANNOTATION_SPACE_BEFORE_COLON;
use super::schema::TYPE_ASSERTION_SPACE_BEFORE_EXPRESSION;
use super::schema::TYPE_LITERAL_PREFER_HANGING;
use super::schema::TYPE_LITERAL_PREFER_SINGLE_LINE;
use super::schema::TYPE_LITERAL_SEPARATOR_KIND_MULTI_LINE;
use super::schema::TYPE_LITERAL_SEPARATOR_KIND_SINGLE_LINE;
use super::schema::TYPE_LITERAL_SPACE_SURROUNDING_PROPERTIES;
use super::schema::TYPE_LITERAL_TRAILING_COMMAS;
use super::schema::TYPE_PARAMETERS_PREFER_HANGING;
use super::schema::TYPE_PARAMETERS_PREFER_SINGLE_LINE;
use super::schema::TYPE_PARAMETERS_TRAILING_COMMAS;
use super::schema::UNION_AND_INTERSECTION_TYPE_PREFER_HANGING;
use super::schema::UNION_AND_INTERSECTION_TYPE_PREFER_SINGLE_LINE;
use super::schema::USE_TABS;
use super::schema::VARIABLE_STATEMENT_PREFER_HANGING;
use super::schema::VARIABLE_STATEMENT_PREFER_SINGLE_LINE;
use super::schema::WHILE_STATEMENT_BRACE_POSITION;
use super::schema::WHILE_STATEMENT_PREFER_HANGING;
use super::schema::WHILE_STATEMENT_SINGLE_BODY_POSITION;
use super::schema::WHILE_STATEMENT_SPACE_AFTER_WHILE_KEYWORD;
use super::schema::WHILE_STATEMENT_SPACE_AROUND;
use super::schema::WHILE_STATEMENT_USE_BRACES;
use super::schema::option_rule;
use super::schema::OPTION_COUNT;
use super::setting::Setting;
use super::setting::SettingView;
use super::types::Configuration;
use super::types::ConfigurationView;
use vstd::prelude::*;

verus! {

/// The configuration that holds the values `settings`, one for each option
/// in the order of the options: each field has the value of its option.
#[verifier::opaque]
pub open spec fn configuration_of(settings: Seq<SettingView>) -> ConfigurationView {
    ConfigurationView {
        line_width: settings[LINE_WIDTH as int].number(),
        use_tabs: settings[USE_TABS as int].bool(),
        indent_width: settings[INDENT_WIDTH as int].byte(),
        new_line_kind: settings[NEW_LINE_KIND as int].new_line_kind(),
        quote_style: settings[QUOTE_STYLE as int].quote_style(),
        quote_props: settings[QUOTE_PROPS as int].quote_props(),
        semi_colons: settings[SEMI_COLONS as int].semi_colons(),
        file_indent_level: settings[FILE_INDENT_LEVEL as int].number(),
        arrow_function_use_parentheses: settings[ARROW_FUNCTION_USE_PARENTHESES as int]
            .use_parentheses(),
        binary_expression_line_per_expression: settings[BINARY_EXPRESSION_LINE_PER_EXPRESSION as int]
            .bool(),
        conditional_expression_line_per_expression: settings[CONDITIONAL_EXPRESSION_LINE_PER_EXPRESSION as int]
            .bool(),
        jsx_quote_style: settings[JSX_QUOTE_STYLE as int].jsx_quote_style(),
        jsx_multi_line_parens: settings[JSX_MULTI_LINE_PARENS as int].jsx_multi_line_parens(),
        jsx_force_new_lines_surrounding_content: settings[JSX_FORCE_NEW_LINES_SURROUNDING_CONTENT as int]
            .bool(),
        jsx_opening_element_bracket_position: settings[JSX_OPENING_ELEMENT_BRACKET_POSITION as int]
            .same_or_next_line_position(),
        jsx_self_closing_element_bracket_position: settings[JSX_SELF_CLOSING_ELEMENT_BRACKET_POSITION as int]
            .same_or_next_line_position(),
        member_expression_line_per_expression: settings[MEMBER_EXPRESSION_LINE_PER_EXPRESSION as int]
            .bool(),
        type_literal_separator_kind_single_line: settings[TYPE_LITERAL_SEPARATOR_KIND_SINGLE_LINE as int]
            .semi_colon_or_comma(),
        type_literal_separator_kind_multi_line: settings[TYPE_LITERAL_SEPARATOR_KIND_MULTI_LINE as int]
            .semi_colon_or_comma(),
        module_sort_import_declarations: settings[MODULE_SORT_IMPORT_DECLARATIONS as int]
            .sort_order(),
        module_sort_export_declarations: settings[MODULE_SORT_EXPORT_DECLARATIONS as int]
            .sort_order(),
        import_declaration_sort_named_imports: settings[IMPORT_DECLARATION_SORT_NAMED_IMPORTS as int]
            .sort_order(),
        export_declaration_sort_named_exports: settings[EXPORT_DECLARATION_SORT_NAMED_EXPORTS as int]
            .sort_order(),
        import_declaration_sort_type_only_imports: settings[IMPORT_DECLARATION_SORT_TYPE_ONLY_IMPORTS as int]
            .named_type_imports_exports_order(),
        export_declaration_sort_type_only_exports: settings[EXPORT_DECLARATION_SORT_TYPE_ONLY_EXPORTS as int]
            .named_type_imports_exports_order(),
        ignore_node_comment_text: settings[IGNORE_NODE_COMMENT_TEXT as int].text(),
        ignore_file_comment_text: settings[IGNORE_FILE_COMMENT_TEXT as int].text(),
        arrow_function_brace_position: settings[ARROW_FUNCTION_BRACE_POSITION as int]
            .brace_position(),
        class_declaration_brace_position: settings[CLASS_DECLARATION_BRACE_POSITION as int]
            .brace_position(),
        class_expression_brace_position: settings[CLASS_EXPRESSION_BRACE_POSITION as int]
            .brace_position(),
        constructor_brace_position: settings[CONSTRUCTOR_BRACE_POSITION as int].brace_position(),
        do_while_statement_brace_position: settings[DO_WHILE_STATEMENT_BRACE_POSITION as int]
            .brace_position(),
        enum_declaration_brace_position: settings[ENUM_DECLARATION_BRACE_POSITION as int]
            .brace_position(),
        for_statement_brace_position: settings[FOR_STATEMENT_BRACE_POSITION as int]
            .brace_position(),
        for_in_statement_brace_position: settings[FOR_IN_STATEMENT_BRACE_POSITION as int]
            .brace_position(),
        for_of_statement_brace_position: settings[FOR_OF_STATEMENT_BRACE_POSITION as int]
            .brace_position(),
        get_accessor_brace_position: settings[GET_ACCESSOR_BRACE_POSITION as int].brace_position(),
        if_statement_brace_position: settings[IF_STATEMENT_BRACE_POSITION as int].brace_position(),
        interface_declaration_brace_position: settings[INTERFACE_DECLARATION_BRACE_POSITION as int]
            .brace_position(),
        function_declaration_brace_position: settings[FUNCTION_DECLARATION_BRACE_POSITION as int]
            .brace_position(),
        function_expression_brace_position: settings[FUNCTION_EXPRESSION_BRACE_POSITION as int]
            .brace_position(),
        method_brace_position: settings[METHOD_BRACE_POSITION as int].brace_position(),
        module_declaration_brace_position: settings[MODULE_DECLARATION_BRACE_POSITION as int]
            .brace_position(),
        set_accessor_brace_position: settings[SET_ACCESSOR_BRACE_POSITION as int].brace_position(),
        static_block_brace_position: settings[STATIC_BLOCK_BRACE_POSITION as int].brace_position(),
        switch_case_brace_position: settings[SWITCH_CASE_BRACE_POSITION as int].brace_position(),
        switch_statement_brace_position: settings[SWITCH_STATEMENT_BRACE_POSITION as int]
            .brace_position(),
        try_statement_brace_position: settings[TRY_STATEMENT_BRACE_POSITION as int]
            .brace_position(),
        while_statement_brace_position: settings[WHILE_STATEMENT_BRACE_POSITION as int]
            .brace_position(),
        arguments_prefer_hanging: settings[ARGUMENTS_PREFER_HANGING as int].prefer_hanging(),
        array_expression_prefer_hanging: settings[ARRAY_EXPRESSION_PREFER_HANGING as int]
            .prefer_hanging(),
        array_pattern_prefer_hanging: settings[ARRAY_PATTERN_PREFER_HANGING as int].bool(),
        do_while_statement_prefer_hanging: settings[DO_WHILE_STATEMENT_PREFER_HANGING as int]
            .bool(),
        export_declaration_prefer_hanging: settings[EXPORT_DECLARATION_PREFER_HANGING as int]
            .bool(),
        extends_clause_prefer_hanging: settings[EXTENDS_CLAUSE_PREFER_HANGING as int].bool(),
        for_in_statement_prefer_hanging: settings[FOR_IN_STATEMENT_PREFER_HANGING as int].bool(),
        for_of_statement_prefer_hanging: settings[FOR_OF_STATEMENT_PREFER_HANGING as int].bool(),
        for_statement_prefer_hanging: settings[FOR_STATEMENT_PREFER_HANGING as int].bool(),
        if_statement_prefer_hanging: settings[IF_STATEMENT_PREFER_HANGING as int].bool(),
        implements_clause_prefer_hanging: settings[IMPLEMENTS_CLAUSE_PREFER_HANGING as int].bool(),
        import_declaration_prefer_hanging: settings[IMPORT_DECLARATION_PREFER_HANGING as int]
            .bool(),
        jsx_attributes_prefer_hanging: settings[JSX_ATTRIBUTES_PREFER_HANGING as int].bool(),
        object_expression_prefer_hanging: settings[OBJECT_EXPRESSION_PREFER_HANGING as int].bool(),
        object_pattern_prefer_hanging: settings[OBJECT_PATTERN_PREFER_HANGING as int].bool(),
        parameters_prefer_hanging: settings[PARAMETERS_PREFER_HANGING as int].prefer_hanging(),
        sequence_expression_prefer_hanging: settings[SEQUENCE_EXPRESSION_PREFER_HANGING as int]
            .bool(),
        switch_statement_prefer_hanging: settings[SWITCH_STATEMENT_PREFER_HANGING as int].bool(),
        tuple_type_prefer_hanging: settings[TUPLE_TYPE_PREFER_HANGING as int].prefer_hanging(),
        type_literal_prefer_hanging: settings[TYPE_LITERAL_PREFER_HANGING as int].bool(),
        type_parameters_prefer_hanging: settings[TYPE_PARAMETERS_PREFER_HANGING as int]
            .prefer_hanging(),
        union_and_intersection_type_prefer_hanging: settings[UNION_AND_INTERSECTION_TYPE_PREFER_HANGING as int]
            .bool(),
        variable_statement_prefer_hanging: settings[VARIABLE_STATEMENT_PREFER_HANGING as int]
            .bool(),
        while_statement_prefer_hanging: settings[WHILE_STATEMENT_PREFER_HANGING as int].bool(),
        enum_declaration_member_spacing: settings[ENUM_DECLARATION_MEMBER_SPACING as int]
            .member_spacing(),
        if_statement_next_control_flow_position: settings[IF_STATEMENT_NEXT_CONTROL_FLOW_POSITION as int]
            .next_control_flow_position(),
        try_statement_next_control_flow_position: settings[TRY_STATEMENT_NEXT_CONTROL_FLOW_POSITION as int]
            .next_control_flow_position(),
        do_while_statement_next_control_flow_position: settings[DO_WHILE_STATEMENT_NEXT_CONTROL_FLOW_POSITION as int]
            .next_control_flow_position(),
        binary_expression_operator_position: settings[BINARY_EXPRESSION_OPERATOR_POSITION as int]
            .operator_position(),
        conditional_expression_operator_position: settings[CONDITIONAL_EXPRESSION_OPERATOR_POSITION as int]
            .operator_position(),
        conditional_type_operator_position: settings[CONDITIONAL_TYPE_OPERATOR_POSITION as int]
            .operator_position(),
        if_statement_single_body_position: settings[IF_STATEMENT_SINGLE_BODY_POSITION as int]
            .same_or_next_line_position(),
        for_statement_single_body_position: settings[FOR_STATEMENT_SINGLE_BODY_POSITION as int]
            .same_or_next_line_position(),
        for_in_statement_single_body_position: settings[FOR_IN_STATEMENT_SINGLE_BODY_POSITION as int]
            .same_or_next_line_position(),
        for_of_statement_single_body_position: settings[FOR_OF_STATEMENT_SINGLE_BODY_POSITION as int]
            .same_or_next_line_position(),
        while_statement_single_body_position: settings[WHILE_STATEMENT_SINGLE_BODY_POSITION as int]
            .same_or_next_line_position(),
        arguments_trailing_commas: settings[ARGUMENTS_TRAILING_COMMAS as int].trailing_commas(),
        parameters_trailing_commas: settings[PARAMETERS_TRAILING_COMMAS as int].trailing_commas(),
        array_expression_trailing_commas: settings[ARRAY_EXPRESSION_TRAILING_COMMAS as int]
            .trailing_commas(),
        array_pattern_trailing_commas: settings[ARRAY_PATTERN_TRAILING_COMMAS as int]
            .trailing_commas(),
        enum_declaration_trailing_commas: settings[ENUM_DECLARATION_TRAILING_COMMAS as int]
            .trailing_commas(),
        export_declaration_trailing_commas: settings[EXPORT_DECLARATION_TRAILING_COMMAS as int]
            .trailing_commas(),
        import_declaration_trailing_commas: settings[IMPORT_DECLARATION_TRAILING_COMMAS as int]
            .trailing_commas(),
        object_expression_trailing_commas: settings[OBJECT_EXPRESSION_TRAILING_COMMAS as int]
            .trailing_commas(),
        object_pattern_trailing_commas: settings[OBJECT_PATTERN_TRAILING_COMMAS as int]
            .trailing_commas(),
        tuple_type_trailing_commas: settings[TUPLE_TYPE_TRAILING_COMMAS as int].trailing_commas(),
        type_literal_trailing_commas: settings[TYPE_LITERAL_TRAILING_COMMAS as int]
            .trailing_commas(),
        type_parameters_trailing_commas: settings[TYPE_PARAMETERS_TRAILING_COMMAS as int]
            .trailing_commas(),
        if_statement_use_braces: settings[IF_STATEMENT_USE_BRACES as int].use_braces(),
        for_statement_use_braces: settings[FOR_STATEMENT_USE_BRACES as int].use_braces(),
        for_in_statement_use_braces: settings[FOR_IN_STATEMENT_USE_BRACES as int].use_braces(),
        for_of_statement_use_braces: settings[FOR_OF_STATEMENT_USE_BRACES as int].use_braces(),
        while_statement_use_braces: settings[WHILE_STATEMENT_USE_BRACES as int].use_braces(),
        array_expression_prefer_single_line: settings[ARRAY_EXPRESSION_PREFER_SINGLE_LINE as int]
            .bool(),
        array_pattern_prefer_single_line: settings[ARRAY_PATTERN_PREFER_SINGLE_LINE as int].bool(),
        arguments_prefer_single_line: settings[ARGUMENTS_PREFER_SINGLE_LINE as int].bool(),
        binary_expression_prefer_single_line: settings[BINARY_EXPRESSION_PREFER_SINGLE_LINE as int]
            .bool(),
        computed_prefer_single_line: settings[COMPUTED_PREFER_SINGLE_LINE as int].bool(),
        conditional_expression_prefer_single_line: settings[CONDITIONAL_EXPRESSION_PREFER_SINGLE_LINE as int]
            .bool(),
        conditional_type_prefer_single_line: settings[CONDITIONAL_TYPE_PREFER_SINGLE_LINE as int]
            .bool(),
        decorators_prefer_single_line: settings[DECORATORS_PREFER_SINGLE_LINE as int].bool(),
        export_declaration_prefer_single_line: settings[EXPORT_DECLARATION_PREFER_SINGLE_LINE as int]
            .bool(),
        for_statement_prefer_single_line: settings[FOR_STATEMENT_PREFER_SINGLE_LINE as int].bool(),
        import_declaration_prefer_single_line: settings[IMPORT_DECLARATION_PREFER_SINGLE_LINE as int]
            .bool(),
        jsx_attributes_prefer_single_line: settings[JSX_ATTRIBUTES_PREFER_SINGLE_LINE as int]
            .bool(),
        jsx_element_prefer_single_line: settings[JSX_ELEMENT_PREFER_SINGLE_LINE as int].bool(),
        mapped_type_prefer_single_line: settings[MAPPED_TYPE_PREFER_SINGLE_LINE as int].bool(),
        member_expression_prefer_single_line: settings[MEMBER_EXPRESSION_PREFER_SINGLE_LINE as int]
            .bool(),
        object_expression_prefer_single_line: settings[OBJECT_EXPRESSION_PREFER_SINGLE_LINE as int]
            .bool(),
        object_pattern_prefer_single_line: settings[OBJECT_PATTERN_PREFER_SINGLE_LINE as int]
            .bool(),
        parameters_prefer_single_line: settings[PARAMETERS_PREFER_SINGLE_LINE as int].bool(),
        parentheses_prefer_single_line: settings[PARENTHESES_PREFER_SINGLE_LINE as int].bool(),
        tuple_type_prefer_single_line: settings[TUPLE_TYPE_PREFER_SINGLE_LINE as int].bool(),
        type_literal_prefer_single_line: settings[TYPE_LITERAL_PREFER_SINGLE_LINE as int].bool(),
        type_parameters_prefer_single_line: settings[TYPE_PARAMETERS_PREFER_SINGLE_LINE as int]
            .bool(),
        union_and_intersection_type_prefer_single_line: settings[UNION_AND_INTERSECTION_TYPE_PREFER_SINGLE_LINE as int]
            .bool(),
        variable_statement_prefer_single_line: settings[VARIABLE_STATEMENT_PREFER_SINGLE_LINE as int]
            .bool(),
        import_declaration_force_single_line: settings[IMPORT_DECLARATION_FORCE_SINGLE_LINE as int]
            .bool(),
        export_declaration_force_single_line: settings[EXPORT_DECLARATION_FORCE_SINGLE_LINE as int]
            .bool(),
        import_declaration_force_multi_line: settings[IMPORT_DECLARATION_FORCE_MULTI_LINE as int]
            .force_multi_line(),
        export_declaration_force_multi_line: settings[EXPORT_DECLARATION_FORCE_MULTI_LINE as int]
            .force_multi_line(),
        binary_expression_space_surrounding_bitwise_and_arithmetic_operator: settings[BINARY_EXPRESSION_SPACE_SURROUNDING_BITWISE_AND_ARITHMETIC_OPERATOR as int]
            .bool(),
        comment_line_force_space_after_slashes: settings[COMMENT_LINE_FORCE_SPACE_AFTER_SLASHES as int]
            .bool(),
        construct_signature_space_after_new_keyword: settings[CONSTRUCT_SIGNATURE_SPACE_AFTER_NEW_KEYWORD as int]
            .bool(),
        constructor_space_before_parentheses: settings[CONSTRUCTOR_SPACE_BEFORE_PARENTHESES as int]
            .bool(),
        constructor_type_space_after_new_keyword: settings[CONSTRUCTOR_TYPE_SPACE_AFTER_NEW_KEYWORD as int]
            .bool(),
        do_while_statement_space_after_while_keyword: settings[DO_WHILE_STATEMENT_SPACE_AFTER_WHILE_KEYWORD as int]
            .bool(),
        export_declaration_space_surrounding_named_exports: settings[EXPORT_DECLARATION_SPACE_SURROUNDING_NAMED_EXPORTS as int]
            .bool(),
        for_statement_space_after_for_keyword: settings[FOR_STATEMENT_SPACE_AFTER_FOR_KEYWORD as int]
            .bool(),
        for_statement_space_after_semi_colons: settings[FOR_STATEMENT_SPACE_AFTER_SEMI_COLONS as int]
            .bool(),
        for_in_statement_space_after_for_keyword: settings[FOR_IN_STATEMENT_SPACE_AFTER_FOR_KEYWORD as int]
            .bool(),
        for_of_statement_space_after_for_keyword: settings[FOR_OF_STATEMENT_SPACE_AFTER_FOR_KEYWORD as int]
            .bool(),
        function_declaration_space_before_parentheses: settings[FUNCTION_DECLARATION_SPACE_BEFORE_PARENTHESES as int]
            .bool(),
        function_expression_space_before_parentheses: settings[FUNCTION_EXPRESSION_SPACE_BEFORE_PARENTHESES as int]
            .bool(),
        function_expression_space_after_function_keyword: settings[FUNCTION_EXPRESSION_SPACE_AFTER_FUNCTION_KEYWORD as int]
            .bool(),
        get_accessor_space_before_parentheses: settings[GET_ACCESSOR_SPACE_BEFORE_PARENTHESES as int]
            .bool(),
        if_statement_space_after_if_keyword: settings[IF_STATEMENT_SPACE_AFTER_IF_KEYWORD as int]
            .bool(),
        import_declaration_space_surrounding_named_imports: settings[IMPORT_DECLARATION_SPACE_SURROUNDING_NAMED_IMPORTS as int]
            .bool(),
        jsx_expression_container_space_surrounding_expression: settings[JSX_EXPRESSION_CONTAINER_SPACE_SURROUNDING_EXPRESSION as int]
            .bool(),
        jsx_self_closing_element_space_before_slash: settings[JSX_SELF_CLOSING_ELEMENT_SPACE_BEFORE_SLASH as int]
            .bool(),
        method_space_before_parentheses: settings[METHOD_SPACE_BEFORE_PARENTHESES as int].bool(),
        object_expression_space_surrounding_properties: settings[OBJECT_EXPRESSION_SPACE_SURROUNDING_PROPERTIES as int]
            .bool(),
        object_pattern_space_surrounding_properties: settings[OBJECT_PATTERN_SPACE_SURROUNDING_PROPERTIES as int]
            .bool(),
        set_accessor_space_before_parentheses: settings[SET_ACCESSOR_SPACE_BEFORE_PARENTHESES as int]
            .bool(),
        space_surrounding_properties: settings[SPACE_SURROUNDING_PROPERTIES as int].bool(),
        tagged_template_space_before_literal: settings[TAGGED_TEMPLATE_SPACE_BEFORE_LITERAL as int]
            .bool(),
        type_annotation_space_before_colon: settings[TYPE_ANNOTATION_SPACE_BEFORE_COLON as int]
            .bool(),
        type_assertion_space_before_expression: settings[TYPE_ASSERTION_SPACE_BEFORE_EXPRESSION as int]
            .bool(),
        type_literal_space_surrounding_properties: settings[TYPE_LITERAL_SPACE_SURROUNDING_PROPERTIES as int]
            .bool(),
        while_statement_space_after_while_keyword: settings[WHILE_STATEMENT_SPACE_AFTER_WHILE_KEYWORD as int]
            .bool(),
        arguments_space_around: settings[ARGUMENTS_SPACE_AROUND as int].bool(),
        array_expression_space_around: settings[ARRAY_EXPRESSION_SPACE_AROUND as int].bool(),
        array_pattern_space_around: settings[ARRAY_PATTERN_SPACE_AROUND as int].bool(),
        catch_clause_space_around: settings[CATCH_CLAUSE_SPACE_AROUND as int].bool(),
        do_while_statement_space_around: settings[DO_WHILE_STATEMENT_SPACE_AROUND as int].bool(),
        for_in_statement_space_around: settings[FOR_IN_STATEMENT_SPACE_AROUND as int].bool(),
        for_of_statement_space_around: settings[FOR_OF_STATEMENT_SPACE_AROUND as int].bool(),
        for_statement_space_around: settings[FOR_STATEMENT_SPACE_AROUND as int].bool(),
        if_statement_space_around: settings[IF_STATEMENT_SPACE_AROUND as int].bool(),
        parameters_space_around: settings[PARAMETERS_SPACE_AROUND as int].bool(),
        paren_expression_space_around: settings[PAREN_EXPRESSION_SPACE_AROUND as int].bool(),
        switch_statement_space_around: settings[SWITCH_STATEMENT_SPACE_AROUND as int].bool(),
        tuple_type_space_around: settings[TUPLE_TYPE_SPACE_AROUND as int].bool(),
        while_statement_space_around: settings[WHILE_STATEMENT_SPACE_AROUND as int].bool(),
    }
}

/// Whether `settings` has a value for each option, of the kind of the
/// option.
pub open spec fn settings_fit(settings: Seq<SettingView>) -> bool {
    &&& settings.len() == OPTION_COUNT
    &&& forall|i: usize|
        i < OPTION_COUNT ==> (#[trigger] settings[i as int]).kind() == option_rule(i).kind
}

/// Puts the values of the options into the record.
pub fn assemble(settings: &Vec<Setting>) -> (config: Configuration)
    requires
        settings_fit(settings.deep_view()),
    ensures
        config@ == configuration_of(settings.deep_view()),
{
    proof {
        reveal(option_rule);
        reveal(configuration_of);
        assert forall|i: usize| i < OPTION_COUNT implies (#[trigger] settings[i as int])@.kind()
            == option_rule(i).kind by {
            assert(settings.deep_view()[i as int] == settings[i as int]@);
        }
    }
    Configuration {
        line_width: settings[LINE_WIDTH].to_number(),
        use_tabs: settings[USE_TABS].to_bool(),
        indent_width: settings[INDENT_WIDTH].to_byte(),
        new_line_kind: settings[NEW_LINE_KIND].to_new_line_kind(),
        quote_style: settings[QUOTE_STYLE].to_quote_style(),
        quote_props: settings[QUOTE_PROPS].to_quote_props(),
        semi_colons: settings[SEMI_COLONS].to_semi_colons(),
        file_indent_level: settings[FILE_INDENT_LEVEL].to_number(),
        arrow_function_use_parentheses: settings[ARROW_FUNCTION_USE_PARENTHESES]
            .to_use_parentheses(),
        binary_expression_line_per_expression: settings[BINARY_EXPRESSION_LINE_PER_EXPRESSION]
            .to_bool(),
        conditional_expression_line_per_expression: settings[CONDITIONAL_EXPRESSION_LINE_PER_EXPRESSION]
            .to_bool(),
        jsx_quote_style: settings[JSX_QUOTE_STYLE].to_jsx_quote_style(),
        jsx_multi_line_parens: settings[JSX_MULTI_LINE_PARENS].to_jsx_multi_line_parens(),
        jsx_force_new_lines_surrounding_content: settings[JSX_FORCE_NEW_LINES_SURROUNDING_CONTENT]
            .to_bool(),
        jsx_opening_element_bracket_position: settings[JSX_OPENING_ELEMENT_BRACKET_POSITION]
            .to_same_or_next_line_position(),
        jsx_self_closing_element_bracket_position: settings[JSX_SELF_CLOSING_ELEMENT_BRACKET_POSITION]
            .to_same_or_next_line_position(),
        member_expression_line_per_expression: settings[MEMBER_EXPRESSION_LINE_PER_EXPRESSION]
            .to_bool(),
        type_literal_separator_kind_single_line: settings[TYPE_LITERAL_SEPARATOR_KIND_SINGLE_LINE]
            .to_semi_colon_or_comma(),
        type_literal_separator_kind_multi_line: settings[TYPE_LITERAL_SEPARATOR_KIND_MULTI_LINE]
            .to_semi_colon_or_comma(),
        module_sort_import_declarations: settings[MODULE_SORT_IMPORT_DECLARATIONS].to_sort_order(),
        module_sort_export_declarations: settings[MODULE_SORT_EXPORT_DECLARATIONS].to_sort_order(),
        import_declaration_sort_named_imports: settings[IMPORT_DECLARATION_SORT_NAMED_IMPORTS]
            .to_sort_order(),
        export_declaration_sort_named_exports: settings[EXPORT_DECLARATION_SORT_NAMED_EXPORTS]
            .to_sort_order(),
        import_declaration_sort_type_only_imports: settings[IMPORT_DECLARATION_SORT_TYPE_ONLY_IMPORTS]
            .to_named_type_imports_exports_order(),
        export_declaration_sort_type_only_exports: settings[EXPORT_DECLARATION_SORT_TYPE_ONLY_EXPORTS]
            .to_named_type_imports_exports_order(),
        ignore_node_comment_text: settings[IGNORE_NODE_COMMENT_TEXT].to_text(),
        ignore_file_comment_text: settings[IGNORE_FILE_COMMENT_TEXT].to_text(),
        arrow_function_brace_position: settings[ARROW_FUNCTION_BRACE_POSITION].to_brace_position(),
        class_declaration_brace_position: settings[CLASS_DECLARATION_BRACE_POSITION]
            .to_brace_position(),
        class_expression_brace_position: settings[CLASS_EXPRESSION_BRACE_POSITION]
            .to_brace_position(),
        constructor_brace_position: settings[CONSTRUCTOR_BRACE_POSITION].to_brace_position(),
        do_while_statement_brace_position: settings[DO_WHILE_STATEMENT_BRACE_POSITION]
            .to_brace_position(),
        enum_declaration_brace_position: settings[ENUM_DECLARATION_BRACE_POSITION]
            .to_brace_position(),
        for_statement_brace_position: settings[FOR_STATEMENT_BRACE_POSITION].to_brace_position(),
        for_in_statement_brace_position: settings[FOR_IN_STATEMENT_BRACE_POSITION]
            .to_brace_position(),
        for_of_statement_brace_position: settings[FOR_OF_STATEMENT_BRACE_POSITION]
            .to_brace_position(),
        get_accessor_brace_position: settings[GET_ACCESSOR_BRACE_POSITION].to_brace_position(),
        if_statement_brace_position: settings[IF_STATEMENT_BRACE_POSITION].to_brace_position(),
        interface_declaration_brace_position: settings[INTERFACE_DECLARATION_BRACE_POSITION]
            .to_brace_position(),
        function_declaration_brace_position: settings[FUNCTION_DECLARATION_BRACE_POSITION]
            .to_brace_position(),
        function_expression_brace_position: settings[FUNCTION_EXPRESSION_BRACE_POSITION]
            .to_brace_position(),
        method_brace_position: settings[METHOD_BRACE_POSITION].to_brace_position(),
        module_declaration_brace_position: settings[MODULE_DECLARATION_BRACE_POSITION]
            .to_brace_position(),
        set_accessor_brace_position: settings[SET_ACCESSOR_BRACE_POSITION].to_brace_position(),
        static_block_brace_position: settings[STATIC_BLOCK_BRACE_POSITION].to_brace_position(),
        switch_case_brace_position: settings[SWITCH_CASE_BRACE_POSITION].to_brace_position(),
        switch_statement_brace_position: settings[SWITCH_STATEMENT_BRACE_POSITION]
            .to_brace_position(),
        try_statement_brace_position: settings[TRY_STATEMENT_BRACE_POSITION].to_brace_position(),
        while_statement_brace_position: settings[WHILE_STATEMENT_BRACE_POSITION]
            .to_brace_position(),
        arguments_prefer_hanging: settings[ARGUMENTS_PREFER_HANGING].to_prefer_hanging(),
        array_expression_prefer_hanging: settings[ARRAY_EXPRESSION_PREFER_HANGING]
            .to_prefer_hanging(),
        array_pattern_prefer_hanging: settings[ARRAY_PATTERN_PREFER_HANGING].to_bool(),
        do_while_statement_prefer_hanging: settings[DO_WHILE_STATEMENT_PREFER_HANGING].to_bool(),
        export_declaration_prefer_hanging: settings[EXPORT_DECLARATION_PREFER_HANGING].to_bool(),
        extends_clause_prefer_hanging: settings[EXTENDS_CLAUSE_PREFER_HANGING].to_bool(),
        for_in_statement_prefer_hanging: settings[FOR_IN_STATEMENT_PREFER_HANGING].to_bool(),
        for_of_statement_prefer_hanging: settings[FOR_OF_STATEMENT_PREFER_HANGING].to_bool(),
        for_statement_prefer_hanging: settings[FOR_STATEMENT_PREFER_HANGING].to_bool(),
        if_statement_prefer_hanging: settings[IF_STATEMENT_PREFER_HANGING].to_bool(),
        implements_clause_prefer_hanging: settings[IMPLEMENTS_CLAUSE_PREFER_HANGING].to_bool(),
        import_declaration_prefer_hanging: settings[IMPORT_DECLARATION_PREFER_HANGING].to_bool(),
        jsx_attributes_prefer_hanging: settings[JSX_ATTRIBUTES_PREFER_HANGING].to_bool(),
        object_expression_prefer_hanging: settings[OBJECT_EXPRESSION_PREFER_HANGING].to_bool(),
        object_pattern_prefer_hanging: settings[OBJECT_PATTERN_PREFER_HANGING].to_bool(),
        parameters_prefer_hanging: settings[PARAMETERS_PREFER_HANGING].to_prefer_hanging(),
        sequence_expression_prefer_hanging: settings[SEQUENCE_EXPRESSION_PREFER_HANGING].to_bool(),
        switch_statement_prefer_hanging: settings[SWITCH_STATEMENT_PREFER_HANGING].to_bool(),
        tuple_type_prefer_hanging: settings[TUPLE_TYPE_PREFER_HANGING].to_prefer_hanging(),
        type_literal_prefer_hanging: settings[TYPE_LITERAL_PREFER_HANGING].to_bool(),
        type_parameters_prefer_hanging: settings[TYPE_PARAMETERS_PREFER_HANGING]
            .to_prefer_hanging(),
        union_and_intersection_type_prefer_hanging: settings[UNION_AND_INTERSECTION_TYPE_PREFER_HANGING]
            .to_bool(),
        variable_statement_prefer_hanging: settings[VARIABLE_STATEMENT_PREFER_HANGING].to_bool(),
        while_statement_prefer_hanging: settings[WHILE_STATEMENT_PREFER_HANGING].to_bool(),
        enum_declaration_member_spacing: settings[ENUM_DECLARATION_MEMBER_SPACING]
            .to_member_spacing(),
        if_statement_next_control_flow_position: settings[IF_STATEMENT_NEXT_CONTROL_FLOW_POSITION]
            .to_next_control_flow_position(),
        try_statement_next_control_flow_position: settings[TRY_STATEMENT_NEXT_CONTROL_FLOW_POSITION]
            .to_next_control_flow_position(),
        do_while_statement_next_control_flow_position: settings[DO_WHILE_STATEMENT_NEXT_CONTROL_FLOW_POSITION]
            .to_next_control_flow_position(),
        binary_expression_operator_position: settings[BINARY_EXPRESSION_OPERATOR_POSITION]
            .to_operator_position(),
        conditional_expression_operator_position: settings[CONDITIONAL_EXPRESSION_OPERATOR_POSITION]
            .to_operator_position(),
        conditional_type_operator_position: settings[CONDITIONAL_TYPE_OPERATOR_POSITION]
            .to_operator_position(),
        if_statement_single_body_position: settings[IF_STATEMENT_SINGLE_BODY_POSITION]
            .to_same_or_next_line_position(),
        for_statement_single_body_position: settings[FOR_STATEMENT_SINGLE_BODY_POSITION]
            .to_same_or_next_line_position(),
        for_in_statement_single_body_position: settings[FOR_IN_STATEMENT_SINGLE_BODY_POSITION]
            .to_same_or_next_line_position(),
        for_of_statement_single_body_position: settings[FOR_OF_STATEMENT_SINGLE_BODY_POSITION]
            .to_same_or_next_line_position(),
        while_statement_single_body_position: settings[WHILE_STATEMENT_SINGLE_BODY_POSITION]
            .to_same_or_next_line_position(),
        arguments_trailing_commas: settings[ARGUMENTS_TRAILING_COMMAS].to_trailing_commas(),
        parameters_trailing_commas: settings[PARAMETERS_TRAILING_COMMAS].to_trailing_commas(),
        array_expression_trailing_commas: settings[ARRAY_EXPRESSION_TRAILING_COMMAS]
            .to_trailing_commas(),
        array_pattern_trailing_commas: settings[ARRAY_PATTERN_TRAILING_COMMAS].to_trailing_commas(),
        enum_declaration_trailing_commas: settings[ENUM_DECLARATION_TRAILING_COMMAS]
            .to_trailing_commas(),
        export_declaration_trailing_commas: settings[EXPORT_DECLARATION_TRAILING_COMMAS]
            .to_trailing_commas(),
        import_declaration_trailing_commas: settings[IMPORT_DECLARATION_TRAILING_COMMAS]
            .to_trailing_commas(),
        object_expression_trailing_commas: settings[OBJECT_EXPRESSION_TRAILING_COMMAS]
            .to_trailing_commas(),
        object_pattern_trailing_commas: settings[OBJECT_PATTERN_TRAILING_COMMAS]
            .to_trailing_commas(),
        tuple_type_trailing_commas: settings[TUPLE_TYPE_TRAILING_COMMAS].to_trailing_commas(),
        type_literal_trailing_commas: settings[TYPE_LITERAL_TRAILING_COMMAS].to_trailing_commas(),
        type_parameters_trailing_commas: settings[TYPE_PARAMETERS_TRAILING_COMMAS]
            .to_trailing_commas(),
        if_statement_use_braces: settings[IF_STATEMENT_USE_BRACES].to_use_braces(),
        for_statement_use_braces: settings[FOR_STATEMENT_USE_BRACES].to_use_braces(),
        for_in_statement_use_braces: settings[FOR_IN_STATEMENT_USE_BRACES].to_use_braces(),
        for_of_statement_use_braces: settings[FOR_OF_STATEMENT_USE_BRACES].to_use_braces(),
        while_statement_use_braces: settings[WHILE_STATEMENT_USE_BRACES].to_use_braces(),
        array_expression_prefer_single_line: settings[ARRAY_EXPRESSION_PREFER_SINGLE_LINE]
            .to_bool(),
        array_pattern_prefer_single_line: settings[ARRAY_PATTERN_PREFER_SINGLE_LINE].to_bool(),
        arguments_prefer_single_line: settings[ARGUMENTS_PREFER_SINGLE_LINE].to_bool(),
        binary_expression_prefer_single_line: settings[BINARY_EXPRESSION_PREFER_SINGLE_LINE]
            .to_bool(),
        computed_prefer_single_line: settings[COMPUTED_PREFER_SINGLE_LINE].to_bool(),
        conditional_expression_prefer_single_line: settings[CONDITIONAL_EXPRESSION_PREFER_SINGLE_LINE]
            .to_bool(),
        conditional_type_prefer_single_line: settings[CONDITIONAL_TYPE_PREFER_SINGLE_LINE]
            .to_bool(),
        decorators_prefer_single_line: settings[DECORATORS_PREFER_SINGLE_LINE].to_bool(),
        export_declaration_prefer_single_line: settings[EXPORT_DECLARATION_PREFER_SINGLE_LINE]
            .to_bool(),
        for_statement_prefer_single_line: settings[FOR_STATEMENT_PREFER_SINGLE_LINE].to_bool(),
        import_declaration_prefer_single_line: settings[IMPORT_DECLARATION_PREFER_SINGLE_LINE]
            .to_bool(),
        jsx_attributes_prefer_single_line: settings[JSX_ATTRIBUTES_PREFER_SINGLE_LINE].to_bool(),
        jsx_element_prefer_single_line: settings[JSX_ELEMENT_PREFER_SINGLE_LINE].to_bool(),
        mapped_type_prefer_single_line: settings[MAPPED_TYPE_PREFER_SINGLE_LINE].to_bool(),
        member_expression_prefer_single_line: settings[MEMBER_EXPRESSION_PREFER_SINGLE_LINE]
            .to_bool(),
        object_expression_prefer_single_line: settings[OBJECT_EXPRESSION_PREFER_SINGLE_LINE]
            .to_bool(),
        object_pattern_prefer_single_line: settings[OBJECT_PATTERN_PREFER_SINGLE_LINE].to_bool(),
        parameters_prefer_single_line: settings[PARAMETERS_PREFER_SINGLE_LINE].to_bool(),
        parentheses_prefer_single_line: settings[PARENTHESES_PREFER_SINGLE_LINE].to_bool(),
        tuple_type_prefer_single_line: settings[TUPLE_TYPE_PREFER_SINGLE_LINE].to_bool(),
        type_literal_prefer_single_line: settings[TYPE_LITERAL_PREFER_SINGLE_LINE].to_bool(),
        type_parameters_prefer_single_line: settings[TYPE_PARAMETERS_PREFER_SINGLE_LINE].to_bool(),
        union_and_intersection_type_prefer_single_line: settings[UNION_AND_INTERSECTION_TYPE_PREFER_SINGLE_LINE]
            .to_bool(),
        variable_statement_prefer_single_line: settings[VARIABLE_STATEMENT_PREFER_SINGLE_LINE]
            .to_bool(),
        import_declaration_force_single_line: settings[IMPORT_DECLARATION_FORCE_SINGLE_LINE]
            .to_bool(),
        export_declaration_force_single_line: settings[EXPORT_DECLARATION_FORCE_SINGLE_LINE]
            .to_bool(),
        import_declaration_force_multi_line: settings[IMPORT_DECLARATION_FORCE_MULTI_LINE]
            .to_force_multi_line(),
        export_declaration_force_multi_line: settings[EXPORT_DECLARATION_FORCE_MULTI_LINE]
            .to_force_multi_line(),
        binary_expression_space_surrounding_bitwise_and_arithmetic_operator: settings[BINARY_EXPRESSION_SPACE_SURROUNDING_BITWISE_AND_ARITHMETIC_OPERATOR]
            .to_bool(),
        comment_line_force_space_after_slashes: settings[COMMENT_LINE_FORCE_SPACE_AFTER_SLASHES]
            .to_bool(),
        construct_signature_space_after_new_keyword: settings[CONSTRUCT_SIGNATURE_SPACE_AFTER_NEW_KEYWORD]
            .to_bool(),
        constructor_space_before_parentheses: settings[CONSTRUCTOR_SPACE_BEFORE_PARENTHESES]
            .to_bool(),
        constructor_type_space_after_new_keyword: settings[CONSTRUCTOR_TYPE_SPACE_AFTER_NEW_KEYWORD]
            .to_bool(),
        do_while_statement_space_after_while_keyword: settings[DO_WHILE_STATEMENT_SPACE_AFTER_WHILE_KEYWORD]
            .to_bool(),
        export_declaration_space_surrounding_named_exports: settings[EXPORT_DECLARATION_SPACE_SURROUNDING_NAMED_EXPORTS]
            .to_bool(),
        for_statement_space_after_for_keyword: settings[FOR_STATEMENT_SPACE_AFTER_FOR_KEYWORD]
            .to_bool(),
        for_statement_space_after_semi_colons: settings[FOR_STATEMENT_SPACE_AFTER_SEMI_COLONS]
            .to_bool(),
        for_in_statement_space_after_for_keyword: settings[FOR_IN_STATEMENT_SPACE_AFTER_FOR_KEYWORD]
            .to_bool(),
        for_of_statement_space_after_for_keyword: settings[FOR_OF_STATEMENT_SPACE_AFTER_FOR_KEYWORD]
            .to_bool(),
        function_declaration_space_before_parentheses: settings[FUNCTION_DECLARATION_SPACE_BEFORE_PARENTHESES]
            .to_bool(),
        function_expression_space_before_parentheses: settings[FUNCTION_EXPRESSION_SPACE_BEFORE_PARENTHESES]
            .to_bool(),
        function_expression_space_after_function_keyword: settings[FUNCTION_EXPRESSION_SPACE_AFTER_FUNCTION_KEYWORD]
            .to_bool(),
        get_accessor_space_before_parentheses: settings[GET_ACCESSOR_SPACE_BEFORE_PARENTHESES]
            .to_bool(),
        if_statement_space_after_if_keyword: settings[IF_STATEMENT_SPACE_AFTER_IF_KEYWORD]
            .to_bool(),
        import_declaration_space_surrounding_named_imports: settings[IMPORT_DECLARATION_SPACE_SURROUNDING_NAMED_IMPORTS]
            .to_bool(),
        jsx_expression_container_space_surrounding_expression: settings[JSX_EXPRESSION_CONTAINER_SPACE_SURROUNDING_EXPRESSION]
            .to_bool(),
        jsx_self_closing_element_space_before_slash: settings[JSX_SELF_CLOSING_ELEMENT_SPACE_BEFORE_SLASH]
            .to_bool(),
        method_space_before_parentheses: settings[METHOD_SPACE_BEFORE_PARENTHESES].to_bool(),
        object_expression_space_surrounding_properties: settings[OBJECT_EXPRESSION_SPACE_SURROUNDING_PROPERTIES]
            .to_bool(),
        object_pattern_space_surrounding_properties: settings[OBJECT_PATTERN_SPACE_SURROUNDING_PROPERTIES]
            .to_bool(),
        set_accessor_space_before_parentheses: settings[SET_ACCESSOR_SPACE_BEFORE_PARENTHESES]
            .to_bool(),
        space_surrounding_properties: settings[SPACE_SURROUNDING_PROPERTIES].to_bool(),
        tagged_template_space_before_literal: settings[TAGGED_TEMPLATE_SPACE_BEFORE_LITERAL]
            .to_bool(),
        type_annotation_space_before_colon: settings[TYPE_ANNOTATION_SPACE_BEFORE_COLON].to_bool(),
        type_assertion_space_before_expression: settings[TYPE_ASSERTION_SPACE_BEFORE_EXPRESSION]
            .to_bool(),
        type_literal_space_surrounding_properties: settings[TYPE_LITERAL_SPACE_SURROUNDING_PROPERTIES]
            .to_bool(),
        while_statement_space_after_while_keyword: settings[WHILE_STATEMENT_SPACE_AFTER_WHILE_KEYWORD]
            .to_bool(),
        arguments_space_around: settings[ARGUMENTS_SPACE_AROUND].to_bool(),
        array_expression_space_around: settings[ARRAY_EXPRESSION_SPACE_AROUND].to_bool(),
        array_pattern_space_around: settings[ARRAY_PATTERN_SPACE_AROUND].to_bool(),
        catch_clause_space_around: settings[CATCH_CLAUSE_SPACE_AROUND].to_bool(),
        do_while_statement_space_around: settings[DO_WHILE_STATEMENT_SPACE_AROUND].to_bool(),
        for_in_statement_space_around: settings[FOR_IN_STATEMENT_SPACE_AROUND].to_bool(),
        for_of_statement_space_around: settings[FOR_OF_STATEMENT_SPACE_AROUND].to_bool(),
        for_statement_space_around: settings[FOR_STATEMENT_SPACE_AROUND].to_bool(),
        if_statement_space_around: settings[IF_STATEMENT_SPACE_AROUND].to_bool(),
        parameters_space_around: settings[PARAMETERS_SPACE_AROUND].to_bool(),
        paren_expression_space_around: settings[PAREN_EXPRESSION_SPACE_AROUND].to_bool(),
        switch_statement_space_around: settings[SWITCH_STATEMENT_SPACE_AROUND].to_bool(),
        tuple_type_space_around: settings[TUPLE_TYPE_SPACE_AROUND].to_bool(),
        while_statement_space_around: settings[WHILE_STATEMENT_SPACE_AROUND].to_bool(),
    }
}

} // verus!
