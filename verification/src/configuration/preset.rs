//! The preset for Deno: the values that it gives to options that the
//! caller has left unset.

use super::number::lemma_decimal_text_reads_back;
use super::option_map::contains_key;
use super::option_map::given_text;
use super::option_map::has_key;
use super::option_map::insert;
use super::option_map::lemma_lookup_push;
use super::option_map::lemma_lookup_without_key;
use super::option_map::lemma_without_key_push;
use super::option_map::lookup;
use super::option_map::option_entries;
use super::option_map::without_key;
use super::option_map::Entry;
use super::option_map::OptionValue;
use super::option_map::RawValue;
use super::schema::lemma_keys_differ;
use super::schema::option_key;
use super::schema::option_rule;
use super::schema::rule_at;
use super::schema::ARROW_FUNCTION_USE_PARENTHESES;
use super::schema::BINARY_EXPRESSION_OPERATOR_POSITION;
use super::schema::BRACE_POSITION;
use super::schema::COMMENT_LINE_FORCE_SPACE_AFTER_SLASHES;
use super::schema::CONDITIONAL_EXPRESSION_OPERATOR_POSITION;
use super::schema::CONDITIONAL_EXPRESSION_PREFER_SINGLE_LINE;
use super::schema::CONDITIONAL_TYPE_OPERATOR_POSITION;
use super::schema::CONSTRUCTOR_TYPE_SPACE_AFTER_NEW_KEYWORD;
use super::schema::CONSTRUCT_SIGNATURE_SPACE_AFTER_NEW_KEYWORD;
use super::schema::EXPORT_DECLARATION_SORT_TYPE_ONLY_EXPORTS;
use super::schema::FUNCTION_EXPRESSION_SPACE_AFTER_FUNCTION_KEYWORD;
use super::schema::IGNORE_FILE_COMMENT_TEXT;
use super::schema::IGNORE_NODE_COMMENT_TEXT;
use super::schema::IMPORT_DECLARATION_SORT_TYPE_ONLY_IMPORTS;
use super::schema::INDENT_WIDTH;
use super::schema::JSX_MULTI_LINE_PARENS;
use super::schema::LINE_WIDTH;
use super::schema::MODULE_SORT_EXPORT_DECLARATIONS;
use super::schema::MODULE_SORT_IMPORT_DECLARATIONS;
use super::schema::NEW_LINE_KIND;
use super::schema::NEXT_CONTROL_FLOW_POSITION;
use super::schema::QUOTE_STYLE;
use super::schema::TAGGED_TEMPLATE_SPACE_BEFORE_LITERAL;
use super::schema::OPTION_COUNT;
use super::setting::decode;
use dprint_core::configuration::ConfigKeyMap;
use vstd::prelude::*;

verus! {

/// How many options the preset gives a value.
pub const PRESET_COUNT: usize = 23;

/// A value that the preset gives to an option.
#[derive(Clone, Copy, Debug)]
pub struct PresetEntry {
    /// The number of the option.
    pub option: usize,
    /// Its value, as it is put into the map.
    pub value: OptionValue,
}

/// The entry of the preset with the number `i`.
pub open spec fn preset_entry(i: usize) -> PresetEntry {
    match i {
        0 => PresetEntry { option: LINE_WIDTH, value: OptionValue::Number(80) },
        1 => PresetEntry { option: INDENT_WIDTH, value: OptionValue::Number(2) },
        2 => PresetEntry {
            option: NEXT_CONTROL_FLOW_POSITION,
            value: OptionValue::Text("sameLine"),
        },
        3 => PresetEntry {
            option: BINARY_EXPRESSION_OPERATOR_POSITION,
            value: OptionValue::Text("sameLine"),
        },
        4 => PresetEntry {
            option: CONDITIONAL_EXPRESSION_OPERATOR_POSITION,
            value: OptionValue::Text("nextLine"),
        },
        5 => PresetEntry {
            option: CONDITIONAL_TYPE_OPERATOR_POSITION,
            value: OptionValue::Text("nextLine"),
        },
        6 => PresetEntry { option: BRACE_POSITION, value: OptionValue::Text("sameLine") },
        7 => PresetEntry {
            option: COMMENT_LINE_FORCE_SPACE_AFTER_SLASHES,
            value: OptionValue::Bool(false),
        },
        8 => PresetEntry {
            option: CONSTRUCT_SIGNATURE_SPACE_AFTER_NEW_KEYWORD,
            value: OptionValue::Bool(true),
        },
        9 => PresetEntry {
            option: CONSTRUCTOR_TYPE_SPACE_AFTER_NEW_KEYWORD,
            value: OptionValue::Bool(true),
        },
        10 => PresetEntry {
            option: ARROW_FUNCTION_USE_PARENTHESES,
            value: OptionValue::Text("force"),
        },
        11 => PresetEntry { option: NEW_LINE_KIND, value: OptionValue::Text("lf") },
        12 => PresetEntry {
            option: FUNCTION_EXPRESSION_SPACE_AFTER_FUNCTION_KEYWORD,
            value: OptionValue::Bool(true),
        },
        13 => PresetEntry {
            option: TAGGED_TEMPLATE_SPACE_BEFORE_LITERAL,
            value: OptionValue::Bool(false),
        },
        14 => PresetEntry {
            option: CONDITIONAL_EXPRESSION_PREFER_SINGLE_LINE,
            value: OptionValue::Bool(true),
        },
        15 => PresetEntry { option: QUOTE_STYLE, value: OptionValue::Text("preferDouble") },
        16 => PresetEntry { option: JSX_MULTI_LINE_PARENS, value: OptionValue::Text("never") },
        17 => PresetEntry {
            option: IGNORE_NODE_COMMENT_TEXT,
            value: OptionValue::Text("deno-fmt-ignore"),
        },
        18 => PresetEntry {
            option: IGNORE_FILE_COMMENT_TEXT,
            value: OptionValue::Text("deno-fmt-ignore-file"),
        },
        19 => PresetEntry {
            option: MODULE_SORT_IMPORT_DECLARATIONS,
            value: OptionValue::Text("maintain"),
        },
        20 => PresetEntry {
            option: MODULE_SORT_EXPORT_DECLARATIONS,
            value: OptionValue::Text("maintain"),
        },
        21 => PresetEntry {
            option: EXPORT_DECLARATION_SORT_TYPE_ONLY_EXPORTS,
            value: OptionValue::Text("none"),
        },
        22 => PresetEntry {
            option: IMPORT_DECLARATION_SORT_TYPE_ONLY_IMPORTS,
            value: OptionValue::Text("none"),
        },
        _ => PresetEntry { option: 0, value: OptionValue::Bool(false) },
    }
}

/// The entry of the preset with the number `i`.
pub fn preset_at(i: usize) -> (r: PresetEntry)
    requires
        i < PRESET_COUNT,
    ensures
        r == preset_entry(i),
{
    match i {
        0 => PresetEntry { option: LINE_WIDTH, value: OptionValue::Number(80) },
        1 => PresetEntry { option: INDENT_WIDTH, value: OptionValue::Number(2) },
        2 => PresetEntry {
            option: NEXT_CONTROL_FLOW_POSITION,
            value: OptionValue::Text("sameLine"),
        },
        3 => PresetEntry {
            option: BINARY_EXPRESSION_OPERATOR_POSITION,
            value: OptionValue::Text("sameLine"),
        },
        4 => PresetEntry {
            option: CONDITIONAL_EXPRESSION_OPERATOR_POSITION,
            value: OptionValue::Text("nextLine"),
        },
        5 => PresetEntry {
            option: CONDITIONAL_TYPE_OPERATOR_POSITION,
            value: OptionValue::Text("nextLine"),
        },
        6 => PresetEntry { option: BRACE_POSITION, value: OptionValue::Text("sameLine") },
        7 => PresetEntry {
            option: COMMENT_LINE_FORCE_SPACE_AFTER_SLASHES,
            value: OptionValue::Bool(false),
        },
        8 => PresetEntry {
            option: CONSTRUCT_SIGNATURE_SPACE_AFTER_NEW_KEYWORD,
            value: OptionValue::Bool(true),
        },
        9 => PresetEntry {
            option: CONSTRUCTOR_TYPE_SPACE_AFTER_NEW_KEYWORD,
            value: OptionValue::Bool(true),
        },
        10 => PresetEntry {
            option: ARROW_FUNCTION_USE_PARENTHESES,
            value: OptionValue::Text("force"),
        },
        11 => PresetEntry { option: NEW_LINE_KIND, value: OptionValue::Text("lf") },
        12 => PresetEntry {
            option: FUNCTION_EXPRESSION_SPACE_AFTER_FUNCTION_KEYWORD,
            value: OptionValue::Bool(true),
        },
        13 => PresetEntry {
            option: TAGGED_TEMPLATE_SPACE_BEFORE_LITERAL,
            value: OptionValue::Bool(false),
        },
        14 => PresetEntry {
            option: CONDITIONAL_EXPRESSION_PREFER_SINGLE_LINE,
            value: OptionValue::Bool(true),
        },
        15 => PresetEntry { option: QUOTE_STYLE, value: OptionValue::Text("preferDouble") },
        16 => PresetEntry { option: JSX_MULTI_LINE_PARENS, value: OptionValue::Text("never") },
        17 => PresetEntry {
            option: IGNORE_NODE_COMMENT_TEXT,
            value: OptionValue::Text("deno-fmt-ignore"),
        },
        18 => PresetEntry {
            option: IGNORE_FILE_COMMENT_TEXT,
            value: OptionValue::Text("deno-fmt-ignore-file"),
        },
        19 => PresetEntry {
            option: MODULE_SORT_IMPORT_DECLARATIONS,
            value: OptionValue::Text("maintain"),
        },
        20 => PresetEntry {
            option: MODULE_SORT_EXPORT_DECLARATIONS,
            value: OptionValue::Text("maintain"),
        },
        21 => PresetEntry {
            option: EXPORT_DECLARATION_SORT_TYPE_ONLY_EXPORTS,
            value: OptionValue::Text("none"),
        },
        22 => PresetEntry {
            option: IMPORT_DECLARATION_SORT_TYPE_ONLY_IMPORTS,
            value: OptionValue::Text("none"),
        },
        _ => PresetEntry { option: 0, value: OptionValue::Bool(false) },
    }
}

/// The key that the entry `i` of the preset gives a value.
pub open spec fn preset_key(i: usize) -> Seq<char> {
    option_key(preset_entry(i).option)
}

/// The entries after the first `n` entries of the preset were filled in:
/// each under its key, behind the entries that are there, unless the key has
/// a value already.
pub open spec fn filled(entries: Seq<Entry>, n: nat) -> Seq<Entry>
    decreases n,
{
    if n == 0 {
        entries
    } else {
        let before = filled(entries, (n - 1) as nat);
        let i = (n - 1) as usize;
        if has_key(before, preset_key(i)) {
            before
        } else {
            before.push(Entry { key: preset_key(i), value: preset_entry(i).value.raw() })
        }
    }
}

/// The value that the first `n` entries of the preset give to `key`.
pub open spec fn preset_value(key: Seq<char>, n: nat) -> Option<RawValue>
    decreases n,
{
    if n == 0 {
        None
    } else {
        match preset_value(key, (n - 1) as nat) {
            Some(value) => Some(value),
            None => if preset_key((n - 1) as usize) == key {
                Some(preset_entry((n - 1) as usize).value.raw())
            } else {
                None
            },
        }
    }
}

/// What tells the names of values apart.
proof fn lemma_name_marks()
    ensures
        "always"@.len() == 6 && "always"@[0] == 'a',
        "alwaysDouble"@.len() == 12 && "alwaysDouble"@[0] == 'a' && "alwaysDouble"@[6] == 'D',
        "alwaysSingle"@.len() == 12 && "alwaysSingle"@[0] == 'a' && "alwaysSingle"@[6] == 'S',
        "auto"@.len() == 4 && "auto"@[0] == 'a',
        "caseInsensitive"@.len() == 15,
        "caseSensitive"@.len() == 13,
        "crlf"@.len() == 4 && "crlf"@[0] == 'c',
        "false"@.len() == 5 && "false"@[1] == 'a',
        "first"@.len() == 5 && "first"@[1] == 'i',
        "force"@.len() == 5 && "force"@[1] == 'o',
        "last"@.len() == 4 && "last"@[0] == 'l',
        "lf"@.len() == 2,
        "maintain"@.len() == 8 && "maintain"@[0] == 'm',
        "never"@.len() == 5 && "never"@[1] == 'e',
        "nextLine"@.len() == 8 && "nextLine"@[0] == 'n',
        "none"@.len() == 4 && "none"@[0] == 'n',
        "prefer"@.len() == 6 && "prefer"@[0] == 'p',
        "preferDouble"@.len() == 12 && "preferDouble"@[0] == 'p' && "preferDouble"@[6] == 'D',
        "preferNone"@.len() == 10,
        "preferSingle"@.len() == 12 && "preferSingle"@[0] == 'p' && "preferSingle"@[6] == 'S',
        "sameLine"@.len() == 8 && "sameLine"@[0] == 's',
        "sameLineUnlessHanging"@.len() == 21,
        "true"@.len() == 4 && "true"@[0] == 't',
{
    reveal_strlit("always");
    reveal_strlit("alwaysDouble");
    reveal_strlit("alwaysSingle");
    reveal_strlit("auto");
    reveal_strlit("caseInsensitive");
    reveal_strlit("caseSensitive");
    reveal_strlit("crlf");
    reveal_strlit("false");
    reveal_strlit("first");
    reveal_strlit("force");
    reveal_strlit("last");
    reveal_strlit("lf");
    reveal_strlit("maintain");
    reveal_strlit("never");
    reveal_strlit("nextLine");
    reveal_strlit("none");
    reveal_strlit("prefer");
    reveal_strlit("preferDouble");
    reveal_strlit("preferNone");
    reveal_strlit("preferSingle");
    reveal_strlit("sameLine");
    reveal_strlit("sameLineUnlessHanging");
    reveal_strlit("true");
}

/// Every entry of the preset is for an option other than the switch of the
/// preset, no two are for the same option, and each value is one that its
/// option reads without a complaint.
pub proof fn lemma_preset_fits()
    ensures
        forall|i: usize|
            i < PRESET_COUNT ==> 0 < (#[trigger] preset_entry(i)).option < OPTION_COUNT,
        forall|i: usize, j: usize|
            i < j < PRESET_COUNT ==> (#[trigger] preset_entry(i)).option != (
            #[trigger] preset_entry(j)).option,
        forall|i: usize|
            i < PRESET_COUNT ==> (given_text(Some((#[trigger] preset_entry(i)).value.raw()))
                matches Some(text) && decode(option_rule(preset_entry(i).option).kind, text) is Ok),
{
    reveal(option_rule);
    lemma_name_marks();
    lemma_decimal_text_reads_back(80, u32::MAX as nat);
    lemma_decimal_text_reads_back(2, u8::MAX as nat);
}

/// No entry of the preset is for the key `key`, where `key` is the key of
/// an option that the preset leaves alone.
pub proof fn lemma_preset_leaves_alone(option: usize, n: nat)
    requires
        option < OPTION_COUNT,
        n <= PRESET_COUNT,
        forall|i: usize| i < PRESET_COUNT ==> (#[trigger] preset_entry(i)).option != option,
    ensures
        preset_value(option_key(option), n) is None,
    decreases n,
{
    if n > 0 {
        lemma_preset_leaves_alone(option, (n - 1) as nat);
        lemma_preset_fits();
        lemma_keys_differ();
        let other = preset_entry((n - 1) as usize).option;
        assert(option_key(other) != option_key(option)) by {
            if other < option {
                assert(option_key(other) != option_key(option));
            } else {
                assert(option_key(option) != option_key(other));
            }
        }
    }
}

/// What a key has after the preset was filled in: the value that it had,
/// or else the value that the preset gives it.
pub proof fn lemma_lookup_filled(entries: Seq<Entry>, n: nat, key: Seq<char>)
    ensures
        lookup(filled(entries, n), key) == match lookup(entries, key) {
            Some(value) => Some(value),
            None => preset_value(key, n),
        },
    decreases n,
{
    if n > 0 {
        lemma_lookup_filled(entries, (n - 1) as nat, key);
        let before = filled(entries, (n - 1) as nat);
        let i = (n - 1) as usize;
        if !has_key(before, preset_key(i)) {
            lemma_lookup_push(
                before,
                Entry { key: preset_key(i), value: preset_entry(i).value.raw() },
                key,
            );
            lemma_lookup_filled(entries, (n - 1) as nat, preset_key(i));
        } else {
            lemma_lookup_filled(entries, (n - 1) as nat, preset_key(i));
        }
    }
}

/// A key that the preset leaves alone can be taken out before the preset is
/// filled in or after.
pub proof fn lemma_filled_without_key(entries: Seq<Entry>, n: nat, key: Seq<char>)
    requires
        preset_value(key, n) is None,
    ensures
        filled(without_key(entries, key), n) == without_key(filled(entries, n), key),
    decreases n,
{
    if n > 0 {
        lemma_filled_without_key(entries, (n - 1) as nat, key);
        let before = filled(entries, (n - 1) as nat);
        let i = (n - 1) as usize;
        lemma_lookup_without_key(before, key, preset_key(i));
        if !has_key(before, preset_key(i)) {
            lemma_without_key_push(
                before,
                Entry { key: preset_key(i), value: preset_entry(i).value.raw() },
                key,
            );
        }
    }
}

/// Fills the preset in: each of its values goes under its key, unless the
/// key has a value already.
pub fn fill_deno_config(config: &mut ConfigKeyMap)
    ensures
        option_entries(*final(config)) == filled(option_entries(*old(config)), PRESET_COUNT as nat),
{
    let mut i: usize = 0;
    while i < PRESET_COUNT
        invariant
            i <= PRESET_COUNT,
            option_entries(*config) == filled(option_entries(*old(config)), i as nat),
        decreases PRESET_COUNT - i,
    {
        let entry = preset_at(i);
        proof {
            lemma_preset_fits();
        }
        let key = rule_at(entry.option).key;
        if !contains_key(config, key) {
            insert(config, key, entry.value);
        }
        i = i + 1;
    }
}

} // verus!
