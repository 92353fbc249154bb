use dprint_core::configuration::resolve_global_config;
use dprint_core::configuration::ConfigKeyMap;
use dprint_core::configuration::ConfigKeyValue;
use dprint_plugin_typescript::configuration::resolve_config;
use dprint_plugin_typescript::configuration::BracePosition;
use dprint_plugin_typescript::configuration::Configuration;
use dprint_plugin_typescript::configuration::ConfigurationBuilder;
use dprint_plugin_typescript::configuration::ConfigurationDiagnostic;
use dprint_plugin_typescript::configuration::GlobalConfiguration;
use dprint_plugin_typescript::configuration::JsxMultiLineParens;
use dprint_plugin_typescript::configuration::JsxQuoteStyle;
use dprint_plugin_typescript::configuration::NamedTypeImportsExportsOrder;
use dprint_plugin_typescript::configuration::NewLineKind;
use dprint_plugin_typescript::configuration::NextControlFlowPosition;
use dprint_plugin_typescript::configuration::OperatorPosition;
use dprint_plugin_typescript::configuration::PreferHanging;
use dprint_plugin_typescript::configuration::QuoteProps;
use dprint_plugin_typescript::configuration::QuoteStyle;
use dprint_plugin_typescript::configuration::SameOrNextLinePosition;
use dprint_plugin_typescript::configuration::SemiColonOrComma;
use dprint_plugin_typescript::configuration::SemiColons;
use dprint_plugin_typescript::configuration::SortOrder;
use dprint_plugin_typescript::configuration::TrailingCommas;
use dprint_plugin_typescript::configuration::UseBraces;
use dprint_plugin_typescript::configuration::UseParentheses;

fn new_line_kind(kind: dprint_core::configuration::NewLineKind) -> NewLineKind {
    match kind {
        dprint_core::configuration::NewLineKind::Auto => NewLineKind::Auto,
        dprint_core::configuration::NewLineKind::LineFeed => NewLineKind::LineFeed,
        dprint_core::configuration::NewLineKind::CarriageReturnLineFeed => NewLineKind::CarriageReturnLineFeed,
    }
}

fn global(config: dprint_core::configuration::GlobalConfiguration) -> GlobalConfiguration {
    GlobalConfiguration {
        line_width: config.line_width,
        use_tabs: config.use_tabs,
        indent_width: config.indent_width,
        new_line_kind: config.new_line_kind.map(new_line_kind),
    }
}

fn map(entries: Vec<(&str, ConfigKeyValue)>) -> ConfigKeyMap {
    let mut config = ConfigKeyMap::new();
    for (key, value) in entries {
        config.insert(String::from(key), value);
    }
    config
}

fn text(value: &str) -> ConfigKeyValue {
    ConfigKeyValue::from_str(value)
}

fn number(value: i32) -> ConfigKeyValue {
    ConfigKeyValue::from_i32(value)
}

fn switch(value: bool) -> ConfigKeyValue {
    ConfigKeyValue::from_bool(value)
}

fn resolve(entries: Vec<(&str, ConfigKeyValue)>) -> (Configuration, Vec<ConfigurationDiagnostic>) {
    let result = resolve_config(map(entries), &GlobalConfiguration::default());
    (result.config, result.diagnostics)
}

fn note(key: &str, message: &str) -> ConfigurationDiagnostic {
    ConfigurationDiagnostic { property_name: String::from(key), message: String::from(message) }
}

const RENAMED: &str = "The configuration key was renamed to 'jsxSelfClosingElement.spaceBeforeSlash'";
const UNKNOWN: &str = "Unknown property in configuration";
const NOT_A_SWITCH: &str = "provided string was not `true` or `false`";

#[test]
fn handle_global_config_default() {
    let config_builder = ConfigurationBuilder::new();
    let config = config_builder.build();
    assert_eq!(config.line_width, 120);
    assert_eq!(config.indent_width, 2);
    assert_eq!(config.new_line_kind, NewLineKind::LineFeed);
    assert!(!config.use_tabs);
}

#[test]
fn handle_global_config() {
    let mut global_config = ConfigKeyMap::new();
    global_config.insert(String::from("lineWidth"), ConfigKeyValue::from_i32(80));
    global_config.insert(String::from("indentWidth"), ConfigKeyValue::from_i32(8));
    global_config.insert(String::from("newLineKind"), ConfigKeyValue::from_str("crlf"));
    global_config.insert(String::from("useTabs"), ConfigKeyValue::from_bool(true));
    let global_config = global(resolve_global_config(&mut global_config).config);
    let mut config_builder = ConfigurationBuilder::new();
    let config = config_builder.global_config(global_config).build();
    assert_eq!(config.line_width, 80);
    assert_eq!(config.indent_width, 8);
    assert_eq!(config.new_line_kind, NewLineKind::CarriageReturnLineFeed);
    assert!(config.use_tabs);
}

#[test]
fn handle_deno_config() {
    let mut config = ConfigKeyMap::new();
    config.insert(String::from("deno"), ConfigKeyValue::from_bool(true));
    let global_config = GlobalConfiguration::default();
    let result = resolve_config(config, &global_config);
    let expected_config = ConfigurationBuilder::new().deno().build();
    assert_eq!(result.config.indent_width, expected_config.indent_width);
    assert_eq!(result.config.line_width, expected_config.line_width);
    assert_eq!(result.diagnostics.len(), 0);
}

#[test]
fn handle_deno_config_with_overwrites() {
    let mut config = ConfigKeyMap::new();
    config.insert(String::from("deno"), ConfigKeyValue::from_bool(true));
    config.insert(String::from("indentWidth"), ConfigKeyValue::from_i32(8));
    let global_config = GlobalConfiguration::default();
    let result = resolve_config(config, &global_config);
    let expected_config = ConfigurationBuilder::new().deno().build();
    assert_eq!(result.config.indent_width, 8);
    assert_eq!(result.config.line_width, expected_config.line_width);
    assert_eq!(result.diagnostics.len(), 0);
}

#[test]
fn empty_map_resolves_to_the_baseline_twice() {
    let (first, first_notes) = resolve(vec![]);
    let (second, second_notes) = resolve(vec![]);
    assert_eq!(first, second);
    assert!(first_notes.is_empty());
    assert!(second_notes.is_empty());
    assert_eq!(first.line_width, 120);
    assert_eq!(first.indent_width, 2);
    assert!(!first.use_tabs);
    assert_eq!(first.new_line_kind, NewLineKind::LineFeed);
    assert_eq!(first.file_indent_level, 0);
    assert_eq!(first.semi_colons, SemiColons::Prefer);
    assert_eq!(first.quote_style, QuoteStyle::AlwaysDouble);
    assert_eq!(first.jsx_quote_style, JsxQuoteStyle::PreferDouble);
    assert_eq!(first.quote_props, QuoteProps::Preserve);
    assert_eq!(first.if_statement_brace_position, BracePosition::SameLineUnlessHanging);
    assert_eq!(first.arguments_prefer_hanging, PreferHanging::Never);
    assert!(!first.array_pattern_prefer_hanging);
    assert_eq!(first.arguments_trailing_commas, TrailingCommas::OnlyMultiLine);
    assert_eq!(first.if_statement_use_braces, UseBraces::WhenNotSingleLine);
    assert_eq!(first.binary_expression_operator_position, OperatorPosition::NextLine);
    assert_eq!(first.if_statement_next_control_flow_position, NextControlFlowPosition::SameLine);
    assert_eq!(first.if_statement_single_body_position, SameOrNextLinePosition::Maintain);
    assert_eq!(first.jsx_opening_element_bracket_position, SameOrNextLinePosition::NextLine);
    assert_eq!(first.type_literal_separator_kind_single_line, SemiColonOrComma::SemiColon);
    assert_eq!(first.module_sort_import_declarations, SortOrder::CaseInsensitive);
    assert_eq!(first.import_declaration_sort_type_only_imports, NamedTypeImportsExportsOrder::Unsorted);
    assert_eq!(first.arrow_function_use_parentheses, UseParentheses::Maintain);
    assert_eq!(first.jsx_multi_line_parens, JsxMultiLineParens::Prefer);
    assert_eq!(first.ignore_node_comment_text, "dprint-ignore");
    assert_eq!(first.ignore_file_comment_text, "dprint-ignore-file");
    assert!(first.conditional_expression_line_per_expression);
    assert!(first.space_surrounding_properties);
    assert!(first.jsx_self_closing_element_space_before_slash);
    assert!(!first.arguments_space_around);
}

#[test]
fn global_defaults_give_way_to_options() {
    let globals = GlobalConfiguration {
        line_width: Some(100),
        use_tabs: Some(true),
        indent_width: Some(4),
        new_line_kind: Some(NewLineKind::Auto),
    };
    let result = resolve_config(map(vec![]), &globals);
    assert_eq!(result.config.line_width, 100);
    assert!(result.config.use_tabs);
    assert_eq!(result.config.indent_width, 4);
    assert_eq!(result.config.new_line_kind, NewLineKind::Auto);
    let result = resolve_config(
        map(vec![("lineWidth", number(60)), ("useTabs", switch(false)), ("newLineKind", text("crlf"))]),
        &globals,
    );
    assert_eq!(result.config.line_width, 60);
    assert!(!result.config.use_tabs);
    assert_eq!(result.config.indent_width, 4);
    assert_eq!(result.config.new_line_kind, NewLineKind::CarriageReturnLineFeed);
    assert!(result.diagnostics.is_empty());
}

#[test]
fn semi_colons_always_is_read_and_consumed() {
    let (config, notes) = resolve(vec![("semiColons", text("always"))]);
    assert_eq!(config.semi_colons, SemiColons::Always);
    assert!(notes.is_empty());
    let (config, _) = resolve(vec![("semiColons", text("absent"))]);
    assert_eq!(config.semi_colons, SemiColons::Absent);
}

#[test]
fn leaf_takes_the_value_of_its_category() {
    let (config, notes) = resolve(vec![("bracePosition", text("nextLine"))]);
    assert_eq!(config.if_statement_brace_position, BracePosition::NextLine);
    assert_eq!(config.while_statement_brace_position, BracePosition::NextLine);
    assert_eq!(config.arrow_function_brace_position, BracePosition::NextLine);
    assert!(notes.is_empty());
}

#[test]
fn leaf_wins_over_its_category() {
    let (config, notes) = resolve(vec![
        ("ifStatement.bracePosition", text("maintain")),
        ("bracePosition", text("nextLine")),
    ]);
    assert_eq!(config.if_statement_brace_position, BracePosition::Maintain);
    assert_eq!(config.while_statement_brace_position, BracePosition::NextLine);
    assert!(notes.is_empty());
}

#[test]
fn situational_defaults_follow_their_sibling() {
    let (config, _) = resolve(vec![("quoteStyle", text("preferSingle"))]);
    assert_eq!(config.jsx_quote_style, JsxQuoteStyle::PreferSingle);
    let (config, _) = resolve(vec![("quoteStyle", text("alwaysSingle")), ("jsx.quoteStyle", text("preferDouble"))]);
    assert_eq!(config.jsx_quote_style, JsxQuoteStyle::PreferDouble);
    let (config, _) = resolve(vec![("preferHanging", switch(true))]);
    assert_eq!(config.arguments_prefer_hanging, PreferHanging::Always);
    assert_eq!(config.type_parameters_prefer_hanging, PreferHanging::Always);
    assert!(config.array_pattern_prefer_hanging);
    let (config, _) = resolve(vec![("preferHanging", switch(true)), ("arguments.preferHanging", text("onlySingleItem"))]);
    assert_eq!(config.arguments_prefer_hanging, PreferHanging::OnlySingleItem);
    let (config, _) = resolve(vec![("typeLiteral.separatorKind", text("comma"))]);
    assert_eq!(config.type_literal_separator_kind_single_line, SemiColonOrComma::Comma);
    assert_eq!(config.type_literal_separator_kind_multi_line, SemiColonOrComma::Comma);
    let (config, _) = resolve(vec![("jsx.bracketPosition", text("sameLine"))]);
    assert_eq!(config.jsx_opening_element_bracket_position, SameOrNextLinePosition::SameLine);
    assert_eq!(config.jsx_self_closing_element_bracket_position, SameOrNextLinePosition::SameLine);
}

#[test]
fn prefer_single_line_falls_back_differently_for_imports_and_exports() {
    let (config, _) = resolve(vec![]);
    assert!(!config.arguments_prefer_single_line);
    assert!(config.export_declaration_prefer_single_line);
    assert!(config.import_declaration_prefer_single_line);
    let (config, _) = resolve(vec![("preferSingleLine", switch(false))]);
    assert!(!config.arguments_prefer_single_line);
    assert!(!config.export_declaration_prefer_single_line);
    assert!(!config.import_declaration_prefer_single_line);
    let (config, _) = resolve(vec![("preferSingleLine", switch(true))]);
    assert!(config.arguments_prefer_single_line);
    assert!(config.export_declaration_prefer_single_line);
    // a value that cannot be read counts as not given
    let (config, notes) = resolve(vec![("preferSingleLine", text("yes"))]);
    assert!(!config.arguments_prefer_single_line);
    assert!(config.import_declaration_prefer_single_line);
    assert_eq!(notes, vec![note("preferSingleLine", NOT_A_SWITCH)]);
}

#[test]
fn old_key_is_forwarded() {
    let (config, notes) = resolve(vec![("jsxElement.spaceBeforeSelfClosingTagSlash", switch(false))]);
    assert!(!config.jsx_self_closing_element_space_before_slash);
    assert_eq!(notes, vec![note("jsxElement.spaceBeforeSelfClosingTagSlash", RENAMED)]);
    let (config, notes) = resolve(vec![("jsx.spaceBeforeSelfClosingTagSlash", switch(false))]);
    assert!(!config.jsx_self_closing_element_space_before_slash);
    assert_eq!(notes, vec![note("jsx.spaceBeforeSelfClosingTagSlash", RENAMED)]);
}

#[test]
fn new_key_wins_over_old_key() {
    let (config, notes) = resolve(vec![
        ("jsxElement.spaceBeforeSelfClosingTagSlash", switch(false)),
        ("jsxSelfClosingElement.spaceBeforeSlash", switch(true)),
    ]);
    assert!(config.jsx_self_closing_element_space_before_slash);
    assert_eq!(notes, vec![note("jsxElement.spaceBeforeSelfClosingTagSlash", RENAMED)]);
    // of two old keys the first one that is looked at gives the value
    let (config, notes) = resolve(vec![
        ("jsx.spaceBeforeSelfClosingTagSlash", switch(true)),
        ("jsxElement.spaceBeforeSelfClosingTagSlash", switch(false)),
    ]);
    assert!(!config.jsx_self_closing_element_space_before_slash);
    assert_eq!(
        notes,
        vec![
            note("jsxElement.spaceBeforeSelfClosingTagSlash", RENAMED),
            note("jsx.spaceBeforeSelfClosingTagSlash", RENAMED),
        ]
    );
}

#[test]
fn unknown_key_is_reported_alone() {
    let (config, notes) = resolve(vec![("lineWidth", number(90)), ("colour", text("blue"))]);
    assert_eq!(config.line_width, 90);
    assert_eq!(notes, vec![note("colour", UNKNOWN)]);
}

#[test]
fn unknown_keys_are_reported_in_the_order_of_the_map() {
    let (_, notes) = resolve(vec![
        ("zeta", number(1)),
        ("useTabs", switch(true)),
        ("alpha", ConfigKeyValue::Null),
        ("Deno", switch(true)),
        ("mid", ConfigKeyValue::Array(vec![])),
    ]);
    assert_eq!(
        notes,
        vec![note("zeta", UNKNOWN), note("alpha", UNKNOWN), note("Deno", UNKNOWN), note("mid", UNKNOWN)]
    );
}

#[test]
fn text_for_a_switch_falls_back_to_the_default() {
    let (config, notes) = resolve(vec![("useTabs", text("yes"))]);
    assert!(!config.use_tabs);
    assert_eq!(notes, vec![note("useTabs", NOT_A_SWITCH)]);
    let (config, notes) = resolve(vec![("spaceSurroundingProperties", text(""))]);
    assert!(config.space_surrounding_properties);
    assert!(config.object_expression_space_surrounding_properties);
    assert_eq!(notes, vec![note("spaceSurroundingProperties", NOT_A_SWITCH)]);
    // the text of a switch is read as the switch
    let (config, notes) = resolve(vec![("useTabs", text("true"))]);
    assert!(config.use_tabs);
    assert!(notes.is_empty());
}

#[test]
fn every_kind_of_bad_value_is_reported() {
    let (config, notes) = resolve(vec![
        ("semiColons", text("sometimes")),
        ("bracePosition", number(3)),
        ("lineWidth", text("wide")),
        ("indentWidth", number(256)),
        ("fileIndentLevel", number(-1)),
        ("useTabs", number(1)),
        ("newLineKind", text("system")),
        ("quoteProps", ConfigKeyValue::Array(vec![])),
        ("quoteStyle", ConfigKeyValue::Object(ConfigKeyMap::new())),
        ("trailingCommas", ConfigKeyValue::Null),
        ("ignoreNodeCommentText", switch(true)),
        ("ignoreFileCommentText", number(-7)),
    ]);
    assert_eq!(config.semi_colons, SemiColons::Prefer);
    assert_eq!(config.if_statement_brace_position, BracePosition::SameLineUnlessHanging);
    assert_eq!(config.line_width, 120);
    assert_eq!(config.indent_width, 2);
    assert_eq!(config.file_indent_level, 0);
    assert!(!config.use_tabs);
    assert_eq!(config.new_line_kind, NewLineKind::LineFeed);
    assert_eq!(config.quote_props, QuoteProps::Preserve);
    assert_eq!(config.quote_style, QuoteStyle::AlwaysDouble);
    assert_eq!(config.arguments_trailing_commas, TrailingCommas::OnlyMultiLine);
    assert_eq!(config.ignore_node_comment_text, "true");
    assert_eq!(config.ignore_file_comment_text, "-7");
    assert_eq!(
        notes,
        vec![
            note("semiColons", "Found invalid value 'sometimes'."),
            note("bracePosition", "Found invalid value '3'."),
            note("quoteStyle", "Arrays and objects are not supported for this value"),
            note("quoteProps", "Arrays and objects are not supported for this value"),
            note("lineWidth", "invalid digit found in string"),
            note("useTabs", NOT_A_SWITCH),
            note("indentWidth", "number too large to fit in target type"),
            note("newLineKind", "Found invalid value 'system'."),
            note("fileIndentLevel", "invalid digit found in string"),
        ]
    );
}

#[test]
fn numbers_are_read_from_text_too() {
    let (config, notes) = resolve(vec![("lineWidth", text("+0080")), ("indentWidth", text("255"))]);
    assert_eq!(config.line_width, 80);
    assert_eq!(config.indent_width, 255);
    assert!(notes.is_empty());
    let (config, notes) = resolve(vec![("lineWidth", text("4294967295")), ("fileIndentLevel", number(i32::MAX))]);
    assert_eq!(config.line_width, u32::MAX);
    assert_eq!(config.file_indent_level, 2147483647);
    assert!(notes.is_empty());
    let (config, notes) = resolve(vec![("lineWidth", text("4294967296")), ("indentWidth", text(""))]);
    assert_eq!(config.line_width, 120);
    assert_eq!(
        notes,
        vec![
            note("lineWidth", "number too large to fit in target type"),
            note("indentWidth", "cannot parse integer from empty string"),
        ]
    );
    let (_, notes) = resolve(vec![("lineWidth", text("+")), ("indentWidth", text("-")), ("fileIndentLevel", text("1 "))]);
    assert_eq!(
        notes,
        vec![
            note("lineWidth", "invalid digit found in string"),
            note("indentWidth", "invalid digit found in string"),
            note("fileIndentLevel", "invalid digit found in string"),
        ]
    );
}

fn same_as_get_value_u32(value: ConfigKeyValue) {
    let mut config = map(vec![("lineWidth", value.clone())]);
    let mut expected_notes = Vec::new();
    let expected = dprint_core::configuration::get_value(&mut config, "lineWidth", 120u32, &mut expected_notes);
    let (config, notes) = resolve(vec![("lineWidth", value)]);
    assert_eq!(config.line_width, expected);
    assert_eq!(notes.len(), expected_notes.len());
    for (note, expected) in notes.iter().zip(expected_notes.iter()) {
        assert_eq!(note.property_name, expected.property_name);
        assert_eq!(note.message, expected.message);
    }
}

fn same_as_get_value_u8(value: ConfigKeyValue) {
    let mut config = map(vec![("indentWidth", value.clone())]);
    let mut expected_notes = Vec::new();
    let expected = dprint_core::configuration::get_value(&mut config, "indentWidth", 2u8, &mut expected_notes);
    let (config, notes) = resolve(vec![("indentWidth", value)]);
    assert_eq!(config.indent_width, expected);
    assert_eq!(notes.len(), expected_notes.len());
    for (note, expected) in notes.iter().zip(expected_notes.iter()) {
        assert_eq!(note.property_name, expected.property_name);
        assert_eq!(note.message, expected.message);
    }
}

fn same_as_get_value_bool(value: ConfigKeyValue) {
    let mut config = map(vec![("useTabs", value.clone())]);
    let mut expected_notes = Vec::new();
    let expected = dprint_core::configuration::get_value(&mut config, "useTabs", false, &mut expected_notes);
    let (config, notes) = resolve(vec![("useTabs", value)]);
    assert_eq!(config.use_tabs, expected);
    assert_eq!(notes.len(), expected_notes.len());
    for (note, expected) in notes.iter().zip(expected_notes.iter()) {
        assert_eq!(note.property_name, expected.property_name);
        assert_eq!(note.message, expected.message);
    }
}

#[test]
fn primitive_options_are_read_as_get_value_reads_them() {
    let values = vec![
        number(0),
        number(7),
        number(255),
        number(256),
        number(-1),
        number(i32::MAX),
        number(i32::MIN),
        text(""),
        text("+"),
        text("-"),
        text("+12"),
        text("-12"),
        text("++1"),
        text("0012"),
        text("12a"),
        text("a12"),
        text(" 12"),
        text("1_000"),
        text("255"),
        text("256"),
        text("4294967295"),
        text("4294967296"),
        text("99999999999999999999x"),
        text("9999999999x9999999999"),
        text("x99999999999999999999"),
        text("\u{663}"),
        text("true"),
        text("false"),
        text("True"),
        text("1"),
        switch(true),
        switch(false),
        ConfigKeyValue::Null,
        ConfigKeyValue::Array(vec![number(1)]),
        ConfigKeyValue::Object(ConfigKeyMap::new()),
    ];
    for value in values {
        same_as_get_value_u32(value.clone());
        same_as_get_value_u8(value.clone());
        same_as_get_value_bool(value);
    }
}

#[test]
fn preset_fills_only_what_is_unset() {
    let (config, notes) = resolve(vec![
        ("deno", switch(true)),
        ("bracePosition", text("nextLine")),
        ("quoteStyle", text("alwaysSingle")),
    ]);
    assert!(notes.is_empty());
    // what the caller set stays
    assert_eq!(config.if_statement_brace_position, BracePosition::NextLine);
    assert_eq!(config.quote_style, QuoteStyle::AlwaysSingle);
    assert_eq!(config.jsx_quote_style, JsxQuoteStyle::PreferSingle);
    // the rest is the preset
    assert_eq!(config.line_width, 80);
    assert_eq!(config.indent_width, 2);
    assert_eq!(config.new_line_kind, NewLineKind::LineFeed);
    assert_eq!(config.if_statement_next_control_flow_position, NextControlFlowPosition::SameLine);
    assert_eq!(config.binary_expression_operator_position, OperatorPosition::SameLine);
    assert_eq!(config.conditional_expression_operator_position, OperatorPosition::NextLine);
    assert_eq!(config.conditional_type_operator_position, OperatorPosition::NextLine);
    assert!(!config.comment_line_force_space_after_slashes);
    assert!(config.construct_signature_space_after_new_keyword);
    assert!(config.constructor_type_space_after_new_keyword);
    assert_eq!(config.arrow_function_use_parentheses, UseParentheses::Force);
    assert!(config.function_expression_space_after_function_keyword);
    assert!(!config.tagged_template_space_before_literal);
    assert!(config.conditional_expression_prefer_single_line);
    assert_eq!(config.jsx_multi_line_parens, JsxMultiLineParens::Never);
    assert_eq!(config.ignore_node_comment_text, "deno-fmt-ignore");
    assert_eq!(config.ignore_file_comment_text, "deno-fmt-ignore-file");
    assert_eq!(config.module_sort_import_declarations, SortOrder::Maintain);
    assert_eq!(config.module_sort_export_declarations, SortOrder::Maintain);
    assert_eq!(config.export_declaration_sort_type_only_exports, NamedTypeImportsExportsOrder::Unsorted);
    assert_eq!(config.import_declaration_sort_type_only_imports, NamedTypeImportsExportsOrder::Unsorted);
}

#[test]
fn preset_is_off_unless_switched_on() {
    let (config, notes) = resolve(vec![("deno", switch(false))]);
    assert_eq!(config.line_width, 120);
    assert!(notes.is_empty());
    let (config, notes) = resolve(vec![("deno", text("on"))]);
    assert_eq!(config.line_width, 120);
    assert_eq!(notes, vec![note("deno", NOT_A_SWITCH)]);
    let (config, notes) = resolve(vec![("deno", text("true"))]);
    assert_eq!(config.line_width, 80);
    assert_eq!(config.if_statement_brace_position, BracePosition::SameLine);
    assert!(notes.is_empty());
}

#[test]
fn renamed_keys_are_reported_before_the_preset_switch() {
    let (_, notes) = resolve(vec![
        ("extra", number(1)),
        ("deno", number(1)),
        ("semiColons", text("no")),
        ("jsx.spaceBeforeSelfClosingTagSlash", text("no")),
    ]);
    assert_eq!(
        notes,
        vec![
            note("jsx.spaceBeforeSelfClosingTagSlash", RENAMED),
            note("deno", NOT_A_SWITCH),
            note("semiColons", "Found invalid value 'no'."),
            note("jsxSelfClosingElement.spaceBeforeSlash", NOT_A_SWITCH),
            note("extra", UNKNOWN),
        ]
    );
}

#[test]
fn keys_are_case_sensitive() {
    let (config, notes) = resolve(vec![("linewidth", number(10)), ("LineWidth", number(20))]);
    assert_eq!(config.line_width, 120);
    assert_eq!(notes, vec![note("linewidth", UNKNOWN), note("LineWidth", UNKNOWN)]);
}

#[test]
fn builder_with_preset_and_global_defaults() {
    let mut builder = ConfigurationBuilder::new();
    let config = builder
        .global_config(GlobalConfiguration {
            line_width: Some(100),
            use_tabs: Some(true),
            indent_width: None,
            new_line_kind: None,
        })
        .deno()
        .build();
    assert_eq!(config.line_width, 80);
    assert!(config.use_tabs);
    assert_eq!(config.quote_style, QuoteStyle::PreferDouble);
    assert_eq!(config.jsx_quote_style, JsxQuoteStyle::PreferDouble);
    assert_eq!(config.while_statement_brace_position, BracePosition::SameLine);
    // building twice gives the same record
    assert_eq!(builder.build(), config);
}

#[test]
fn quote_style_knows_its_jsx_quotes() {
    assert_eq!(QuoteStyle::AlwaysDouble.to_jsx_quote_style(), JsxQuoteStyle::PreferDouble);
    assert_eq!(QuoteStyle::PreferDouble.to_jsx_quote_style(), JsxQuoteStyle::PreferDouble);
    assert_eq!(QuoteStyle::AlwaysSingle.to_jsx_quote_style(), JsxQuoteStyle::PreferSingle);
    assert_eq!(QuoteStyle::PreferSingle.to_jsx_quote_style(), JsxQuoteStyle::PreferSingle);
}
