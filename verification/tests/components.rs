use dprint_core::configuration::ConfigKeyMap;
use dprint_core::configuration::ConfigKeyValue;
use dprint_plugin_typescript::configuration::number::parse_number;
use dprint_plugin_typescript::configuration::number::NumberError;
use dprint_plugin_typescript::configuration::preset::fill_deno_config;
use dprint_plugin_typescript::configuration::preset::preset_at;
use dprint_plugin_typescript::configuration::preset::PRESET_COUNT;
use dprint_plugin_typescript::configuration::resolve_config::get_nullable_value;
use dprint_plugin_typescript::configuration::resolve_config::get_value;
use dprint_plugin_typescript::configuration::resolve_config::redirect;
use dprint_plugin_typescript::configuration::schema::renamed_at;
use dprint_plugin_typescript::configuration::schema::rule_at;
use dprint_plugin_typescript::configuration::schema::OPTION_COUNT;
use dprint_plugin_typescript::configuration::schema::RENAMED_COUNT;
use dprint_plugin_typescript::configuration::setting::decode_text;
use dprint_plugin_typescript::configuration::setting::Kind;
use dprint_plugin_typescript::configuration::setting::Scalar;
use dprint_plugin_typescript::configuration::setting::Setting;
use dprint_plugin_typescript::configuration::BracePosition;
use dprint_plugin_typescript::configuration::ConfigurationDiagnostic;
use dprint_plugin_typescript::configuration::PreferHanging;
use dprint_plugin_typescript::configuration::SemiColons;
use dprint_plugin_typescript::utils::char_iterator::chars_of;
use dprint_plugin_typescript::utils::char_iterator::CharClass;
use dprint_plugin_typescript::utils::CharIterator;

fn keys(config: &ConfigKeyMap) -> Vec<&str> {
    config.keys().map(|key| key.as_str()).collect()
}

#[test]
fn parse_number_reads_digits() {
    assert_eq!(parse_number("0", 255), Ok(0));
    assert_eq!(parse_number("007", 255), Ok(7));
    assert_eq!(parse_number("+255", 255), Ok(255));
    assert_eq!(parse_number("4294967295", u32::MAX), Ok(4294967295));
    assert_eq!(parse_number("120", 119), Err(NumberError::TooLarge));
    assert_eq!(parse_number("256", 255), Err(NumberError::TooLarge));
    assert_eq!(parse_number("", 255), Err(NumberError::Empty));
    assert_eq!(parse_number("+", 255), Err(NumberError::InvalidDigit));
    assert_eq!(parse_number("-", 255), Err(NumberError::InvalidDigit));
    assert_eq!(parse_number("-0", 255), Err(NumberError::InvalidDigit));
    assert_eq!(parse_number("1+", 255), Err(NumberError::InvalidDigit));
    assert_eq!(parse_number("12x", 255), Err(NumberError::InvalidDigit));
    // the first fault from the left decides
    assert_eq!(parse_number("999x", 255), Err(NumberError::TooLarge));
    assert_eq!(parse_number("9x99", 255), Err(NumberError::InvalidDigit));
}

#[test]
fn number_errors_have_their_words() {
    assert_eq!(NumberError::Empty.message(), "cannot parse integer from empty string");
    assert_eq!(NumberError::InvalidDigit.message(), "invalid digit found in string");
    assert_eq!(NumberError::TooLarge.message(), "number too large to fit in target type");
}

#[test]
fn decode_text_reads_each_kind() {
    assert_eq!(decode_text(Kind::Bool, String::from("true")), Ok(Setting::Scalar(Scalar::Bool(true))));
    assert_eq!(decode_text(Kind::Bool, String::from("false")), Ok(Setting::Scalar(Scalar::Bool(false))));
    assert_eq!(
        decode_text(Kind::Bool, String::from("TRUE")),
        Err(String::from("provided string was not `true` or `false`"))
    );
    assert_eq!(decode_text(Kind::Number, String::from("70000")), Ok(Setting::Scalar(Scalar::Number(70000))));
    assert_eq!(decode_text(Kind::Byte, String::from("200")), Ok(Setting::Scalar(Scalar::Byte(200))));
    assert_eq!(
        decode_text(Kind::Byte, String::from("70000")),
        Err(String::from("number too large to fit in target type"))
    );
    assert_eq!(decode_text(Kind::Text, String::from("any text")), Ok(Setting::Text(String::from("any text"))));
    assert_eq!(
        decode_text(Kind::SemiColons, String::from("prefer")),
        Ok(Setting::Scalar(Scalar::SemiColons(SemiColons::Prefer)))
    );
    assert_eq!(
        decode_text(Kind::BracePosition, String::from("sameLineUnlessHanging")),
        Ok(Setting::Scalar(Scalar::BracePosition(BracePosition::SameLineUnlessHanging)))
    );
    assert_eq!(
        decode_text(Kind::PreferHanging, String::from("true")),
        Err(String::from("Found invalid value 'true'."))
    );
    assert_eq!(
        decode_text(Kind::BracePosition, String::from("SameLine")),
        Err(String::from("Found invalid value 'SameLine'."))
    );
}

#[test]
fn every_enum_reads_its_names_only() {
    let names: Vec<(Kind, Vec<&str>)> = vec![
        (Kind::NewLineKind, vec!["auto", "lf", "crlf"]),
        (Kind::SemiColons, vec!["always", "prefer", "absent"]),
        (Kind::BracePosition, vec!["maintain", "sameLine", "nextLine", "sameLineUnlessHanging"]),
        (Kind::MemberSpacing, vec!["maintain", "newLine", "blankLine"]),
        (Kind::NextControlFlowPosition, vec!["maintain", "sameLine", "nextLine"]),
        (Kind::OperatorPosition, vec!["maintain", "sameLine", "nextLine"]),
        (Kind::SameOrNextLinePosition, vec!["maintain", "sameLine", "nextLine"]),
        (Kind::TrailingCommas, vec!["never", "always", "onlyMultiLine"]),
        (Kind::ForceMultiLine, vec!["never", "always", "whenMultiple"]),
        (Kind::UseBraces, vec!["maintain", "whenNotSingleLine", "always", "preferNone"]),
        (Kind::UseParentheses, vec!["maintain", "force", "preferNone"]),
        (Kind::PreferHanging, vec!["never", "onlySingleItem", "always"]),
        (Kind::QuoteStyle, vec!["alwaysDouble", "alwaysSingle", "preferDouble", "preferSingle"]),
        (Kind::JsxQuoteStyle, vec!["preferDouble", "preferSingle"]),
        (Kind::QuoteProps, vec!["preserve", "asNeeded", "consistent"]),
        (Kind::JsxMultiLineParens, vec!["never", "prefer", "always"]),
        (Kind::SemiColonOrComma, vec!["semiColon", "comma"]),
        (Kind::SortOrder, vec!["maintain", "caseSensitive", "caseInsensitive"]),
        (Kind::NamedTypeImportsExportsOrder, vec!["first", "last", "none"]),
    ];
    for (kind, names) in names {
        let mut seen: Vec<Setting> = Vec::new();
        for name in names {
            let value = decode_text(kind, String::from(name)).unwrap();
            assert!(!seen.contains(&value));
            seen.push(value);
        }
        assert_eq!(decode_text(kind, String::from("other")), Err(String::from("Found invalid value 'other'.")));
        assert_eq!(decode_text(kind, String::new()), Err(String::from("Found invalid value ''.")));
    }
}

#[test]
fn prefer_hanging_follows_the_switch() {
    assert_eq!(PreferHanging::from_switch(true), PreferHanging::Always);
    assert_eq!(PreferHanging::from_switch(false), PreferHanging::Never);
}

#[test]
fn get_nullable_value_takes_the_entry_out() {
    let mut config = ConfigKeyMap::new();
    config.insert(String::from("a"), ConfigKeyValue::from_str("x"));
    config.insert(String::from("useTabs"), ConfigKeyValue::from_bool(true));
    config.insert(String::from("b"), ConfigKeyValue::from_i32(3));
    let mut diagnostics = Vec::new();
    let found = get_nullable_value(&mut config, "useTabs", Kind::Bool, &mut diagnostics);
    assert_eq!(found, Some(Setting::Scalar(Scalar::Bool(true))));
    assert_eq!(keys(&config), vec!["a", "b"]);
    assert!(diagnostics.is_empty());
    // a key that is not set
    let found = get_nullable_value(&mut config, "useTabs", Kind::Bool, &mut diagnostics);
    assert_eq!(found, None);
    assert_eq!(keys(&config), vec!["a", "b"]);
    assert!(diagnostics.is_empty());
    // a value that cannot be read is taken out too
    let found = get_nullable_value(&mut config, "a", Kind::Number, &mut diagnostics);
    assert_eq!(found, None);
    assert_eq!(keys(&config), vec!["b"]);
    assert_eq!(
        diagnostics,
        vec![ConfigurationDiagnostic {
            property_name: String::from("a"),
            message: String::from("invalid digit found in string"),
        }]
    );
    let found = get_nullable_value(&mut config, "b", Kind::Text, &mut diagnostics);
    assert_eq!(found, Some(Setting::Text(String::from("3"))));
    assert!(config.is_empty());
    assert_eq!(diagnostics.len(), 1);
}

#[test]
fn get_nullable_value_is_silent_about_null() {
    let mut config = ConfigKeyMap::new();
    config.insert(String::from("n"), ConfigKeyValue::Null);
    config.insert(String::from("o"), ConfigKeyValue::Object(ConfigKeyMap::new()));
    let mut diagnostics = Vec::new();
    assert_eq!(get_nullable_value(&mut config, "n", Kind::Text, &mut diagnostics), None);
    assert!(diagnostics.is_empty());
    assert_eq!(get_nullable_value(&mut config, "o", Kind::Text, &mut diagnostics), None);
    assert_eq!(
        diagnostics,
        vec![ConfigurationDiagnostic {
            property_name: String::from("o"),
            message: String::from("Arrays and objects are not supported for this value"),
        }]
    );
    assert!(config.is_empty());
}

#[test]
fn get_value_falls_back_to_the_default() {
    let mut config = ConfigKeyMap::new();
    config.insert(String::from("semiColons"), ConfigKeyValue::from_str("always"));
    config.insert(String::from("quoteStyle"), ConfigKeyValue::from_str("curly"));
    let mut diagnostics = Vec::new();
    let default = Setting::Scalar(Scalar::SemiColons(SemiColons::Prefer));
    let value = get_value(&mut config, "semiColons", Kind::SemiColons, default.clone(), &mut diagnostics);
    assert_eq!(value, Setting::Scalar(Scalar::SemiColons(SemiColons::Always)));
    let value = get_value(&mut config, "semiColons", Kind::SemiColons, default.clone(), &mut diagnostics);
    assert_eq!(value, default);
    assert!(diagnostics.is_empty());
    let value = get_value(&mut config, "quoteStyle", Kind::QuoteStyle, default.clone(), &mut diagnostics);
    assert_eq!(value, default);
    assert_eq!(
        diagnostics,
        vec![ConfigurationDiagnostic {
            property_name: String::from("quoteStyle"),
            message: String::from("Found invalid value 'curly'."),
        }]
    );
    assert!(config.is_empty());
}

#[test]
fn redirect_moves_values_to_the_new_key() {
    let mut config = ConfigKeyMap::new();
    config.insert(String::from("jsx.spaceBeforeSelfClosingTagSlash"), ConfigKeyValue::from_bool(false));
    config.insert(String::from("lineWidth"), ConfigKeyValue::from_i32(5));
    let mut diagnostics = Vec::new();
    redirect(&mut config, &mut diagnostics);
    assert_eq!(keys(&config), vec!["lineWidth", "jsxSelfClosingElement.spaceBeforeSlash"]);
    assert_eq!(config.get("jsxSelfClosingElement.spaceBeforeSlash"), Some(&ConfigKeyValue::from_bool(false)));
    assert_eq!(diagnostics.len(), 1);
    assert_eq!(diagnostics[0].property_name, "jsx.spaceBeforeSelfClosingTagSlash");
    // nothing to do the second time
    redirect(&mut config, &mut diagnostics);
    assert_eq!(keys(&config), vec!["lineWidth", "jsxSelfClosingElement.spaceBeforeSlash"]);
    assert_eq!(diagnostics.len(), 1);
}

#[test]
fn fill_deno_config_keeps_what_is_set() {
    let mut config = ConfigKeyMap::new();
    config.insert(String::from("quoteStyle"), ConfigKeyValue::from_str("alwaysSingle"));
    config.insert(String::from("other"), ConfigKeyValue::from_i32(1));
    fill_deno_config(&mut config);
    assert_eq!(config.len(), PRESET_COUNT + 1);
    assert_eq!(config.get("quoteStyle"), Some(&ConfigKeyValue::from_str("alwaysSingle")));
    assert_eq!(config.get("lineWidth"), Some(&ConfigKeyValue::from_i32(80)));
    assert_eq!(config.get("bracePosition"), Some(&ConfigKeyValue::from_str("sameLine")));
    assert_eq!(config.get("taggedTemplate.spaceBeforeLiteral"), Some(&ConfigKeyValue::from_bool(false)));
    assert_eq!(keys(&config)[..3], ["quoteStyle", "other", "lineWidth"]);
    // filling twice changes nothing
    let once = config.clone();
    fill_deno_config(&mut config);
    assert_eq!(config, once);
}

#[test]
fn options_have_distinct_keys_and_earlier_sources() {
    let mut seen: Vec<&str> = Vec::new();
    for i in 0..OPTION_COUNT {
        let rule = rule_at(i);
        assert!(!rule.key.is_empty());
        assert!(!seen.contains(&rule.key));
        seen.push(rule.key);
    }
    assert_eq!(seen[0], "deno");
    for r in 0..RENAMED_COUNT {
        let renamed = renamed_at(r);
        assert!(!seen.contains(&renamed.old_key));
        assert_eq!(rule_at(renamed.option).key, "jsxSelfClosingElement.spaceBeforeSlash");
    }
    for p in 0..PRESET_COUNT {
        let entry = preset_at(p);
        assert!(0 < entry.option && entry.option < OPTION_COUNT);
    }
}

#[test]
fn char_iterator_walks_and_skips() {
    let mut iterator = CharIterator::new(" \t x  y\nz");
    assert_eq!(iterator.peek_next(), Some(' '));
    assert_eq!(iterator.peek_second(), Some('\t'));
    iterator.skip_spaces();
    assert_eq!(iterator.peek_next(), Some('\t'));
    iterator.skip_whitespace();
    assert_eq!(iterator.move_next(), Some('x'));
    iterator.skip_all(CharClass::Space);
    assert_eq!(iterator.peek_next(), Some('y'));
    iterator.skip_all_until_new_line();
    assert_eq!(iterator.move_next(), Some('\n'));
    assert!(!iterator.check_text(&chars_of("zz")));
    assert_eq!(iterator.peek_next(), None);
    assert_eq!(iterator.peek_second(), None);
    assert_eq!(iterator.move_next(), None);
    assert!(iterator.check_text(&chars_of("")));
}

#[test]
fn char_classes_hold_what_they_say() {
    for c in ['\t', '\n', '\u{b}', '\u{c}', '\r', ' ', '\u{85}', '\u{a0}', '\u{1680}', '\u{2000}', '\u{200a}', '\u{2028}', '\u{2029}', '\u{202f}', '\u{205f}', '\u{3000}'] {
        assert!(CharClass::Whitespace.contains(c));
    }
    for c in ['a', '\u{8}', '\u{e}', '\u{200b}', '\u{180e}', '\u{feff}', '\u{1f}'] {
        assert!(!CharClass::Whitespace.contains(c));
    }
    // as std has it for every character
    let mut code = 0u32;
    while code <= 0x10ffff {
        if let Some(c) = char::from_u32(code) {
            assert_eq!(CharClass::Whitespace.contains(c), c.is_whitespace());
        }
        code += 1;
    }
    assert!(CharClass::Space.contains(' '));
    assert!(!CharClass::Space.contains('\t'));
    assert!(CharClass::NotNewLine.contains('\r'));
    assert!(!CharClass::NotNewLine.contains('\n'));
}
