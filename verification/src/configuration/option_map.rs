//! The map of option overrides: what it holds, and the operations of
//! `dprint_core` and `indexmap` on it that a resolution uses.

use super::number::decimal_text;
use super::types::ConfigurationDiagnostic;
use super::types::ConfigurationDiagnosticView;
use dprint_core::configuration::ConfigKeyMap;
use dprint_core::configuration::ConfigKeyValue;
use vstd::prelude::*;

verus! {

/// `dprint_core::configuration::ConfigKeyValue`, the value of an entry.
/// Verified code never looks into one.
#[verifier::external_type_specification]
#[verifier::external_body]
pub struct ExConfigKeyValue(ConfigKeyValue);

/// `indexmap::IndexMap`, the map that keeps its entries in the order in
/// which their keys were first put in. `ConfigKeyMap` is such a map from
/// `String` to `ConfigKeyValue`; what it holds is `option_entries`.
#[verifier::external_type_specification]
#[verifier::external_body]
#[verifier::reject_recursive_types(K)]
#[verifier::reject_recursive_types(V)]
#[verifier::reject_recursive_types(S)]
pub struct ExIndexMap<K, V, S>(indexmap::IndexMap<K, V, S>);

/// The value of an entry, as far as a resolution tells values apart.
pub enum RawValue {
    /// A string.
    Text(Seq<char>),
    /// A number.
    Number(i32),
    /// A boolean.
    Bool(bool),
    /// An array or an object.
    Composite,
    /// The null value.
    Null,
}

/// An entry of the map.
pub struct Entry {
    pub key: Seq<char>,
    pub value: RawValue,
}

/// The entries of a map, in its order. No two entries of a map have the
/// same key.
pub uninterp spec fn option_entries(config: ConfigKeyMap) -> Seq<Entry>;

/// A value that verified code puts into a map.
#[derive(Clone, Copy, PartialEq, Eq, Debug)]
pub enum OptionValue {
    Text(&'static str),
    Number(i32),
    Bool(bool),
}

impl OptionValue {
    /// The value as the map holds it.
    pub open spec fn raw(self) -> RawValue {
        match self {
            OptionValue::Text(text) => RawValue::Text(text@),
            OptionValue::Number(number) => RawValue::Number(number),
            OptionValue::Bool(on) => RawValue::Bool(on),
        }
    }
}

/// The value of the first entry with the key `key`.
pub open spec fn lookup(entries: Seq<Entry>, key: Seq<char>) -> Option<RawValue>
    decreases entries.len(),
{
    if entries.len() == 0 {
        None
    } else {
        match lookup(entries.drop_last(), key) {
            Some(value) => Some(value),
            None => if entries.last().key == key {
                Some(entries.last().value)
            } else {
                None
            },
        }
    }
}

/// Whether an entry has the key `key`.
pub open spec fn has_key(entries: Seq<Entry>, key: Seq<char>) -> bool {
    lookup(entries, key) is Some
}

/// The entries without those that have the key `key`, in their order.
pub open spec fn without_key(entries: Seq<Entry>, key: Seq<char>) -> Seq<Entry>
    decreases entries.len(),
{
    if entries.len() == 0 {
        entries
    } else if entries.last().key == key {
        without_key(entries.drop_last(), key)
    } else {
        without_key(entries.drop_last(), key).push(entries.last())
    }
}

/// The entries with `value` under `key`: in the place of the entry that had
/// the key, or behind all the others where none had it.
pub open spec fn with_entry(entries: Seq<Entry>, key: Seq<char>, value: RawValue) -> Seq<Entry> {
    if has_key(entries, key) {
        Seq::new(
            entries.len(),
            |i: int|
                if entries[i].key == key {
                    Entry { key, value }
                } else {
                    entries[i]
                },
        )
    } else {
        entries.push(Entry { key, value })
    }
}

/// The text that a value is read as: a string as it is, a number in
/// decimal, a boolean as `true` or `false`. An array, an object and the null
/// value are read as no text.
pub open spec fn given_text(value: Option<RawValue>) -> Option<Seq<char>> {
    match value {
        Some(RawValue::Text(text)) => Some(text),
        Some(RawValue::Number(number)) => Some(decimal_text(number as int)),
        Some(RawValue::Bool(on)) => Some(
            if on {
                "true"@
            } else {
                "false"@
            },
        ),
        _ => None,
    }
}

/// The diagnostic about the option `key` that says `message`.
pub open spec fn diagnostic(key: Seq<char>, message: Seq<char>) -> ConfigurationDiagnosticView {
    ConfigurationDiagnosticView { property_name: key, message }
}

/// What is reported of a value that cannot be read as a text: an array or an
/// object is reported, every other value is not.
pub open spec fn unreadable_notes(key: Seq<char>, value: Option<RawValue>) -> Seq<
    ConfigurationDiagnosticView,
> {
    if value == Some(RawValue::Composite) {
        seq![diagnostic(key, "Arrays and objects are not supported for this value"@)]
    } else {
        Seq::empty()
    }
}

/// The entries after the option `old_key` got the name `new_key`: the entry
/// under the old key is gone, and its value stands under the new key, behind
/// all the others, unless the new key had a value already.
pub open spec fn renamed(entries: Seq<Entry>, old_key: Seq<char>, new_key: Seq<char>) -> Seq<
    Entry,
> {
    match lookup(entries, old_key) {
        Some(value) => {
            let rest = without_key(entries, old_key);
            if has_key(rest, new_key) {
                rest
            } else {
                rest.push(Entry { key: new_key, value })
            }
        },
        None => entries,
    }
}

/// What is reported of an old key: that it was renamed, where it is in use.
pub open spec fn renamed_notes(entries: Seq<Entry>, old_key: Seq<char>, new_key: Seq<char>) -> Seq<
    ConfigurationDiagnosticView,
> {
    if has_key(entries, old_key) {
        seq![
            diagnostic(old_key, "The configuration key was renamed to '"@ + new_key + "'"@),
        ]
    } else {
        Seq::empty()
    }
}

/// One diagnostic for each entry, in their order: that the key is unknown.
pub open spec fn unknown_notes(entries: Seq<Entry>) -> Seq<ConfigurationDiagnosticView> {
    Seq::new(
        entries.len(),
        |i: int| diagnostic(entries[i].key, "Unknown property in configuration"@),
    )
}

/// A map without entries: `IndexMap::new`.
#[verifier::external_body]
pub(crate) fn new_map() -> (config: ConfigKeyMap)
    ensures
        option_entries(config) == Seq::<Entry>::empty(),
{
    ConfigKeyMap::new()
}

/// A map with the same entries in the same order: `IndexMap::clone`.
#[verifier::external_body]
pub(crate) fn copy_map(config: &ConfigKeyMap) -> (copy: ConfigKeyMap)
    ensures
        option_entries(copy) == option_entries(*config),
{
    config.clone()
}

/// `IndexMap::contains_key`: whether an entry has the key.
#[verifier::external_body]
pub(crate) fn contains_key(config: &ConfigKeyMap, key: &str) -> (r: bool)
    ensures
        r == has_key(option_entries(*config), key@),
{
    config.contains_key(key)
}

/// `IndexMap::insert`: where the key is in the map, its entry keeps its
/// place and gets the value; where it is not, a new entry comes last.
#[verifier::external_body]
pub(crate) fn insert(config: &mut ConfigKeyMap, key: &str, value: OptionValue)
    ensures
        option_entries(*final(config)) == with_entry(option_entries(*old(config)), key@, value.raw()),
{
    let value = match value {
        OptionValue::Text(text) => ConfigKeyValue::from_str(text),
        OptionValue::Number(number) => ConfigKeyValue::from_i32(number),
        OptionValue::Bool(on) => ConfigKeyValue::from_bool(on),
    };
    config.insert(key.to_string(), value);
}

/// `dprint_core::configuration::get_nullable_value`, for a `String`: takes
/// the entry under `key` out of the map and hands its value out as text.
/// A string is handed out as it is, a number and a boolean as `to_string`
/// writes them. Of an array or an object a diagnostic is added and nothing
/// is handed out; nor is anything for the null value or where the key is not
/// in the map.
#[verifier::external_body]
pub(crate) fn take_text(
    config: &mut ConfigKeyMap,
    key: &str,
    diagnostics: &mut Vec<ConfigurationDiagnostic>,
) -> (text: Option<String>)
    ensures
        option_entries(*final(config)) == without_key(option_entries(*old(config)), key@),
        match text {
            Some(text) => given_text(lookup(option_entries(*old(config)), key@)) == Some(text@),
            None => given_text(lookup(option_entries(*old(config)), key@)) is None,
        },
        final(diagnostics).deep_view() == old(diagnostics).deep_view() + unreadable_notes(
            key@,
            lookup(option_entries(*old(config)), key@),
        ),
{
    let mut found = Vec::new();
    let text = dprint_core::configuration::get_nullable_value::<String>(config, key, &mut found);
    diagnostics.extend(
        found.into_iter().map(
            |d| ConfigurationDiagnostic { property_name: d.property_name, message: d.message },
        ),
    );
    text
}

/// `dprint_core::configuration::handle_renamed_config_property`: where the
/// old key is in the map, its entry is taken out, its value is put under the
/// new key unless that key has a value, and a diagnostic under the old key
/// names the new one.
#[verifier::external_body]
pub(crate) fn handle_renamed_config_property(
    config: &mut ConfigKeyMap,
    old_key: &str,
    new_key: &str,
    diagnostics: &mut Vec<ConfigurationDiagnostic>,
)
    ensures
        option_entries(*final(config)) == renamed(option_entries(*old(config)), old_key@, new_key@),
        final(diagnostics).deep_view() == old(diagnostics).deep_view() + renamed_notes(
            option_entries(*old(config)),
            old_key@,
            new_key@,
        ),
{
    let mut found = Vec::new();
    dprint_core::configuration::handle_renamed_config_property(config, old_key, new_key, &mut found);
    diagnostics.extend(
        found.into_iter().map(
            |d| ConfigurationDiagnostic { property_name: d.property_name, message: d.message },
        ),
    );
}

/// `dprint_core::configuration::get_unknown_property_diagnostics`: one
/// diagnostic for each entry of the map, in the map's order.
#[verifier::external_body]
pub(crate) fn get_unknown_property_diagnostics(config: ConfigKeyMap) -> (found: Vec<
    ConfigurationDiagnostic,
>)
    ensures
        found.deep_view() == unknown_notes(option_entries(config)),
{
    dprint_core::configuration::get_unknown_property_diagnostics(config).into_iter().map(
        |d| ConfigurationDiagnostic { property_name: d.property_name, message: d.message },
    ).collect()
}

/// An entry that comes last is found where no earlier entry has its key.
pub proof fn lemma_lookup_push(entries: Seq<Entry>, entry: Entry, key: Seq<char>)
    ensures
        lookup(entries.push(entry), key) == match lookup(entries, key) {
            Some(value) => Some(value),
            None => if entry.key == key {
                Some(entry.value)
            } else {
                None
            },
        },
{
    assert(entries.push(entry).drop_last() =~= entries);
}

/// Taking a key out goes through an entry that comes last.
pub proof fn lemma_without_key_push(entries: Seq<Entry>, entry: Entry, key: Seq<char>)
    ensures
        without_key(entries.push(entry), key) == if entry.key == key {
            without_key(entries, key)
        } else {
            without_key(entries, key).push(entry)
        },
{
    assert(entries.push(entry).drop_last() =~= entries);
}

/// Taking a key out leaves every other key with its value, and the key
/// itself with none.
pub proof fn lemma_lookup_without_key(entries: Seq<Entry>, taken: Seq<char>, key: Seq<char>)
    ensures
        lookup(without_key(entries, taken), key) == if taken == key {
            None
        } else {
            lookup(entries, key)
        },
    decreases entries.len(),
{
    if entries.len() > 0 {
        lemma_lookup_without_key(entries.drop_last(), taken, key);
        if entries.last().key != taken {
            lemma_lookup_push(without_key(entries.drop_last(), taken), entries.last(), key);
        }
    }
}

/// Taking out a key that no entry has changes nothing.
pub proof fn lemma_without_absent_key(entries: Seq<Entry>, key: Seq<char>)
    requires
        !has_key(entries, key),
    ensures
        without_key(entries, key) == entries,
    decreases entries.len(),
{
    if entries.len() > 0 {
        lemma_without_absent_key(entries.drop_last(), key);
        assert(entries.drop_last().push(entries.last()) =~= entries);
    }
}

/// What a key has after an old key got its new name: the old key has no
/// value, the new key keeps its value or else gets that of the old key, and
/// every other key keeps what it has.
pub proof fn lemma_lookup_renamed(
    entries: Seq<Entry>,
    old_key: Seq<char>,
    new_key: Seq<char>,
    key: Seq<char>,
)
    requires
        old_key != new_key,
    ensures
        lookup(renamed(entries, old_key, new_key), key) == if !has_key(entries, old_key) {
            lookup(entries, key)
        } else if key == old_key {
            None
        } else if key == new_key && !has_key(entries, new_key) {
            lookup(entries, old_key)
        } else {
            lookup(entries, key)
        },
{
    match lookup(entries, old_key) {
        Some(value) => {
            let rest = without_key(entries, old_key);
            lemma_lookup_without_key(entries, old_key, key);
            lemma_lookup_without_key(entries, old_key, new_key);
            lemma_lookup_push(rest, Entry { key: new_key, value }, key);
        },
        None => {},
    }
}

} // verus!
