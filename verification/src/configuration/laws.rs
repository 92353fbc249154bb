//! What holds of every resolution.

use super::option_map::diagnostic;
use super::option_map::given_text;
use super::option_map::has_key;
use super::option_map::lemma_lookup_push;
use super::option_map::lemma_lookup_renamed;
use super::option_map::lemma_without_absent_key;
use super::option_map::renamed_notes;
use super::option_map::lemma_lookup_without_key;
use super::option_map::lemma_without_key_push;
use super::option_map::lookup;
use super::option_map::renamed;
use super::option_map::unknown_notes;
use super::option_map::without_key;
use super::option_map::Entry;
use super::option_map::RawValue;
use super::preset::filled;
use super::preset::lemma_lookup_filled;
use super::preset::lemma_preset_fits;
use super::preset::preset_entry;
use super::preset::preset_key;
use super::preset::preset_value;
use super::preset::PRESET_COUNT;
use super::resolve_config::all_notes;
use super::resolve_config::expanded;
use super::resolve_config::explicit;
use super::resolve_config::extracted;
use super::resolve_config::option_notes;
use super::resolve_config::prepared;
use super::resolve_config::preset_requested;
use super::resolve_config::redirect_notes;
use super::resolve_config::redirected;
use super::resolve_config::resolution_notes;
use super::resolve_config::resolved_configuration;
use super::resolve_config::resolved_settings;
use super::resolve_config::setting;
use super::resolve_config::unknown_entries;
use super::schema::is_early_option_key;
use super::schema::is_option_key;
use super::schema::lemma_keys_differ;
use super::schema::lemma_renamed_keys_lead_to_options;
use super::schema::lemma_sources_fit;
use super::schema::option_key;
use super::schema::option_rule;
use super::schema::renamed_key;
use super::schema::source_fits;
use super::schema::Source;
use super::schema::DENO;
use super::schema::OPTION_COUNT;
use super::schema::RENAMED_COUNT;
use super::setting::decode;
use super::setting::Kind;
use super::setting::SettingView;
use super::text::invalid_switch_words;
use super::types::ConfigurationDiagnosticView;
use super::types::GlobalConfiguration;
use super::types::ResolveConfigurationResult;
use vstd::prelude::*;

verus! {

/// The value that the option `i` reads from a raw value, where it can read
/// it.
pub open spec fn read_as(i: usize, value: RawValue) -> Option<SettingView> {
    extracted(option_rule(i).kind, Some(value))
}

/// Two keys of options are the same only where the options are.
pub proof fn lemma_option_keys_differ(i: usize, j: usize)
    requires
        i < OPTION_COUNT,
        j < OPTION_COUNT,
        i != j,
    ensures
        option_key(i) != option_key(j),
{
    lemma_keys_differ();
    if i < j {
        assert(option_key(i) != option_key(j));
    } else {
        assert(option_key(j) != option_key(i));
    }
}

/// The key of an option is the key of an option.
pub proof fn lemma_is_option_key(i: usize)
    requires
        i < OPTION_COUNT,
    ensures
        is_option_key(option_key(i)),
{
    assert(i < OPTION_COUNT as nat && option_key(i) == option_key(i));
}

/// The value of an option depends on the entries only through what they
/// give to the option itself and to the options before it.
pub proof fn lemma_settings_agree(
    first: Seq<Entry>,
    second: Seq<Entry>,
    global_config: GlobalConfiguration,
    i: usize,
)
    requires
        i < OPTION_COUNT,
        forall|j: usize| j <= i ==> #[trigger] explicit(first, j) == explicit(second, j),
    ensures
        setting(first, global_config, i) == setting(second, global_config, i),
    decreases i,
{
    lemma_sources_fit();
    assert(source_fits(i));
    assert(explicit(first, i) == explicit(second, i));
    match option_rule(i).source {
        Source::Inherit(from) => {
            lemma_settings_agree(first, second, global_config, from);
        },
        Source::Hanging(from) => {
            lemma_settings_agree(first, second, global_config, from);
        },
        Source::JsxQuotes(from) => {
            lemma_settings_agree(first, second, global_config, from);
        },
        Source::Given(from, _) => {
            assert(explicit(first, from) == explicit(second, from));
        },
        _ => {},
    }
}

/// Where no entry has the key `key`, the key has no value.
pub proof fn lemma_lookup_absent(entries: Seq<Entry>, key: Seq<char>)
    requires
        forall|k: int| 0 <= k < entries.len() ==> (#[trigger] entries[k]).key != key,
    ensures
        lookup(entries, key) is None,
    decreases entries.len(),
{
    if entries.len() > 0 {
        lemma_lookup_absent(entries.drop_last(), key);
    }
}

/// Entries that use no renamed key stay as they are when renamed keys get
/// their new names, and nothing is reported of them.
pub proof fn lemma_redirect_nothing(entries: Seq<Entry>, n: nat)
    requires
        n <= RENAMED_COUNT,
        forall|r: usize| r < n ==> !has_key(entries, (#[trigger] renamed_key(r)).old_key@),
    ensures
        redirected(entries, n) == entries,
        redirect_notes(entries, n) == Seq::<ConfigurationDiagnosticView>::empty(),
    decreases n,
{
    if n > 0 {
        lemma_redirect_nothing(entries, (n - 1) as nat);
        assert(!has_key(entries, renamed_key((n - 1) as usize).old_key@));
    }
}

/// Entries that use no renamed key and do not set the switch of the preset
/// are read as they are.
pub proof fn lemma_plain_entries_stay(entries: Seq<Entry>)
    requires
        forall|r: usize| r < RENAMED_COUNT ==> !has_key(entries, (#[trigger] renamed_key(r)).old_key@),
        !has_key(entries, option_key(DENO)),
    ensures
        prepared(entries) == entries,
        redirect_notes(entries, RENAMED_COUNT as nat) == Seq::<ConfigurationDiagnosticView>::empty(),
{
    lemma_redirect_nothing(entries, RENAMED_COUNT as nat);
}

/// Where at most the option `only` has its key among the entries, at most
/// that option has something reported.
pub proof fn lemma_notes_of_one(entries: Seq<Entry>, n: nat, only: usize)
    requires
        n <= OPTION_COUNT,
        forall|j: usize| j < n && j != only ==> lookup(entries, #[trigger] option_key(j)) is None,
    ensures
        all_notes(entries, n) == if only < n {
            option_notes(entries, only)
        } else {
            Seq::<ConfigurationDiagnosticView>::empty()
        },
    decreases n,
{
    if n > 0 {
        lemma_notes_of_one(entries, (n - 1) as nat, only);
        let last = (n - 1) as usize;
        if last != only {
            assert(lookup(entries, option_key(last)) is None);
            assert(option_notes(entries, last) =~= Seq::<ConfigurationDiagnosticView>::empty());
            assert(all_notes(entries, n) =~= all_notes(entries, (n - 1) as nat));
        } else {
            assert(all_notes(entries, n) =~= option_notes(entries, only));
        }
    }
}

/// Resolving the same entries against the same global defaults gives the
/// same configuration and the same diagnostics each time, and resolving no
/// entries gives no diagnostics: `first` and `second` stand for the results
/// of two calls of `resolve_config`.
pub proof fn lemma_resolving_twice(
    first: ResolveConfigurationResult,
    second: ResolveConfigurationResult,
    supplied: Seq<Entry>,
    global_config: GlobalConfiguration,
)
    requires
        first.config@ == resolved_configuration(supplied, global_config),
        first.diagnostics.deep_view() == resolution_notes(supplied),
        second.config@ == resolved_configuration(supplied, global_config),
        second.diagnostics.deep_view() == resolution_notes(supplied),
    ensures
        first.config@ == second.config@,
        first.diagnostics.deep_view() == second.diagnostics.deep_view(),
        supplied.len() == 0 ==> first.diagnostics.len() == 0 && second.diagnostics.len() == 0,
{
    if supplied.len() == 0 {
        lemma_no_entries_no_notes();
        assert(supplied =~= Seq::<Entry>::empty());
        assert(first.diagnostics.deep_view().len() == 0);
        assert(second.diagnostics.deep_view().len() == 0);
    }
}

/// Where no option is set, nothing is reported, and every option has its
/// default.
pub proof fn lemma_no_entries_no_notes()
    ensures
        prepared(Seq::<Entry>::empty()) == Seq::<Entry>::empty(),
        resolution_notes(Seq::<Entry>::empty()) == Seq::<ConfigurationDiagnosticView>::empty(),
        forall|i: usize| #[trigger] explicit(Seq::<Entry>::empty(), i) is None,
{
    let none = Seq::<Entry>::empty();
    lemma_plain_entries_stay(none);
    lemma_notes_of_one(none, OPTION_COUNT as nat, OPTION_COUNT);
    assert(unknown_notes(unknown_entries(none)) =~= Seq::<ConfigurationDiagnosticView>::empty());
}

/// An option whose default is the value of another option has the value of
/// that option where the entries give it none of its own, and else the
/// value that the entries give it. `entries` are the entries that the
/// options are read from.
pub proof fn lemma_cascade_precedence(
    entries: Seq<Entry>,
    global_config: GlobalConfiguration,
    category: usize,
    leaf: usize,
)
    requires
        leaf < OPTION_COUNT,
        option_rule(leaf).source == Source::Inherit(category),
    ensures
        0 < category < leaf,
        option_rule(category).kind == option_rule(leaf).kind,
        explicit(entries, leaf) is None ==> setting(entries, global_config, leaf) == setting(
            entries,
            global_config,
            category,
        ),
        explicit(entries, leaf) matches Some(value) ==> setting(entries, global_config, leaf)
            == value,
        explicit(entries, category) matches Some(value) ==> setting(entries, global_config, category)
            == value,
{
    lemma_sources_fit();
    assert(source_fits(leaf));
}

/// Where the entries set a category of options and nothing else, every
/// option that takes its default from the category has the value of the
/// category: the value that the entry gives, where the category can read it.
pub proof fn lemma_category_feeds_leaf(
    global_config: GlobalConfiguration,
    category: usize,
    leaf: usize,
    value: RawValue,
)
    requires
        leaf < OPTION_COUNT,
        option_rule(leaf).source == Source::Inherit(category),
    ensures
        ({
            let supplied = seq![Entry { key: option_key(category), value }];
            let settings = resolved_settings(supplied, global_config);
            &&& settings[leaf as int] == settings[category as int]
            &&& read_as(category, value) matches Some(read) ==> settings[leaf as int] == read
        }),
{
    let supplied = seq![Entry { key: option_key(category), value }];
    lemma_cascade_precedence(supplied, global_config, category, leaf);
    lemma_one_option_set(category, value);
    lemma_option_keys_differ(category, leaf);
    lemma_lookup_absent(supplied, option_key(leaf));
}

/// Where the entries set a category of options and one option that takes
/// its default from the category, in either order, that option has the value
/// that its own entry gives, where the option can read it.
pub proof fn lemma_leaf_overrides_category(
    global_config: GlobalConfiguration,
    category: usize,
    leaf: usize,
    category_value: RawValue,
    leaf_value: RawValue,
)
    requires
        leaf < OPTION_COUNT,
        option_rule(leaf).source == Source::Inherit(category),
    ensures
        ({
            let category_entry = Entry { key: option_key(category), value: category_value };
            let leaf_entry = Entry { key: option_key(leaf), value: leaf_value };
            &&& read_as(leaf, leaf_value) matches Some(read) ==> resolved_settings(
                seq![category_entry, leaf_entry],
                global_config,
            )[leaf as int] == read && resolved_settings(
                seq![leaf_entry, category_entry],
                global_config,
            )[leaf as int] == read
        }),
{
    let category_entry = Entry { key: option_key(category), value: category_value };
    let leaf_entry = Entry { key: option_key(leaf), value: leaf_value };
    lemma_sources_fit();
    assert(source_fits(leaf));
    lemma_option_keys_differ(category, leaf);
    lemma_two_options_set(category, category_value, leaf, leaf_value);
    lemma_two_options_set(leaf, leaf_value, category, category_value);
}

/// The entries that set one option, and not the switch of the preset, are
/// read as they are, and the option reads the value of its entry.
pub proof fn lemma_one_option_set(i: usize, value: RawValue)
    requires
        0 < i < OPTION_COUNT,
    ensures
        ({
            let supplied = seq![Entry { key: option_key(i), value }];
            &&& prepared(supplied) == supplied
            &&& redirect_notes(supplied, RENAMED_COUNT as nat) == Seq::<
                ConfigurationDiagnosticView,
            >::empty()
            &&& lookup(supplied, option_key(i)) == Some(value)
            &&& explicit(supplied, i) == read_as(i, value)
        }),
{
    let entry = Entry { key: option_key(i), value };
    let supplied = seq![entry];
    let none = Seq::<Entry>::empty();
    assert(supplied =~= none.push(entry));
    lemma_keys_differ();
    lemma_option_keys_differ(DENO, i);
    lemma_lookup_push(none, entry, option_key(i));
    lemma_lookup_push(none, entry, option_key(DENO));
    assert forall|r: usize| r < RENAMED_COUNT implies !has_key(
        supplied,
        (#[trigger] renamed_key(r)).old_key@,
    ) by {
        lemma_lookup_push(none, entry, renamed_key(r).old_key@);
        assert(renamed_key(r).old_key@ != option_key(i));
    }
    lemma_plain_entries_stay(supplied);
}

/// The entries that set two options, and not the switch of the preset, are
/// read as they are, and each option reads the value of its entry.
pub proof fn lemma_two_options_set(i: usize, value: RawValue, j: usize, other: RawValue)
    requires
        0 < i < OPTION_COUNT,
        0 < j < OPTION_COUNT,
        i != j,
    ensures
        ({
            let supplied = seq![Entry { key: option_key(i), value }, Entry { key: option_key(j), value: other }];
            &&& prepared(supplied) == supplied
            &&& redirect_notes(supplied, RENAMED_COUNT as nat) == Seq::<
                ConfigurationDiagnosticView,
            >::empty()
            &&& explicit(supplied, i) == read_as(i, value)
            &&& explicit(supplied, j) == read_as(j, other)
            &&& forall|global_config: GlobalConfiguration|
                explicit(supplied, i) matches Some(read) ==> #[trigger] resolved_settings(
                    supplied,
                    global_config,
                )[i as int] == read
        }),
{
    let first = Entry { key: option_key(i), value };
    let second = Entry { key: option_key(j), value: other };
    let supplied = seq![first, second];
    let none = Seq::<Entry>::empty();
    assert(supplied =~= none.push(first).push(second));
    lemma_keys_differ();
    lemma_option_keys_differ(DENO, i);
    lemma_option_keys_differ(DENO, j);
    lemma_option_keys_differ(i, j);
    lemma_lookup_push(none, first, option_key(i));
    lemma_lookup_push(none.push(first), second, option_key(i));
    lemma_lookup_push(none, first, option_key(j));
    lemma_lookup_push(none.push(first), second, option_key(j));
    lemma_lookup_push(none, first, option_key(DENO));
    lemma_lookup_push(none.push(first), second, option_key(DENO));
    assert forall|r: usize| r < RENAMED_COUNT implies !has_key(
        supplied,
        (#[trigger] renamed_key(r)).old_key@,
    ) by {
        lemma_lookup_push(none, first, renamed_key(r).old_key@);
        lemma_lookup_push(none.push(first), second, renamed_key(r).old_key@);
        assert(renamed_key(r).old_key@ != option_key(i));
        assert(renamed_key(r).old_key@ != option_key(j));
    }
    lemma_plain_entries_stay(supplied);
}

/// An entry that comes last is an unknown entry where its key is the key
/// of no option.
pub proof fn lemma_unknown_entries_push(entries: Seq<Entry>, entry: Entry)
    ensures
        unknown_entries(entries.push(entry)) == if is_option_key(entry.key) {
            unknown_entries(entries)
        } else {
            unknown_entries(entries).push(entry)
        },
        unknown_entries(Seq::<Entry>::empty()) == Seq::<Entry>::empty(),
{
    assert(entries.push(entry).drop_last() =~= entries);
}

/// An entry under the key of an option is not among the unknown entries;
/// every other entry keeps its value there.
pub proof fn lemma_lookup_unknown_entries(entries: Seq<Entry>, key: Seq<char>)
    ensures
        lookup(unknown_entries(entries), key) == if is_option_key(key) {
            None
        } else {
            lookup(entries, key)
        },
    decreases entries.len(),
{
    if entries.len() > 0 {
        lemma_lookup_unknown_entries(entries.drop_last(), key);
        if !is_option_key(entries.last().key) {
            lemma_lookup_push(unknown_entries(entries.drop_last()), entries.last(), key);
        }
    }
}

/// A value that its option cannot read gives way to the default: the option
/// has the value that it would have without the entry, one diagnostic under
/// its key says why the value was not read, and the key is not reported as
/// unknown. `entries` are the entries that the options are read from.
pub proof fn lemma_unreadable_value_falls_back(
    entries: Seq<Entry>,
    global_config: GlobalConfiguration,
    i: usize,
    text: Seq<char>,
    message: Seq<char>,
)
    requires
        i < OPTION_COUNT,
        given_text(lookup(entries, option_key(i))) == Some(text),
        decode(option_rule(i).kind, text) == Err::<SettingView, Seq<char>>(message),
    ensures
        explicit(entries, i) is None,
        setting(entries, global_config, i) == setting(
            without_key(entries, option_key(i)),
            global_config,
            i,
        ),
        option_notes(entries, i) == seq![diagnostic(option_key(i), message)],
        lookup(unknown_entries(entries), option_key(i)) is None,
{
    let rest = without_key(entries, option_key(i));
    assert forall|j: usize| j <= i implies #[trigger] explicit(entries, j) == explicit(rest, j) by {
        lemma_lookup_without_key(entries, option_key(i), option_key(j));
        if j != i {
            lemma_option_keys_differ(i, j);
        }
    }
    lemma_settings_agree(entries, rest, global_config, i);
    lemma_is_option_key(i);
    lemma_lookup_unknown_entries(entries, option_key(i));
}

/// A text other than `true` and `false` for an option that is a switch
/// gives way to the default of the switch, with one diagnostic under the key
/// of the switch; the key is not reported as unknown.
pub proof fn lemma_text_for_a_switch_falls_back(
    entries: Seq<Entry>,
    global_config: GlobalConfiguration,
    i: usize,
    text: Seq<char>,
)
    requires
        i < OPTION_COUNT,
        option_rule(i).kind == Kind::Bool,
        lookup(entries, option_key(i)) == Some(RawValue::Text(text)),
        text != "true"@,
        text != "false"@,
    ensures
        setting(entries, global_config, i) == setting(
            without_key(entries, option_key(i)),
            global_config,
            i,
        ),
        option_notes(entries, i) == seq![diagnostic(option_key(i), invalid_switch_words())],
        lookup(unknown_entries(entries), option_key(i)) is None,
{
    lemma_unreadable_value_falls_back(entries, global_config, i, text, invalid_switch_words());
}

/// The preset gives each of its keys the value of its own entry.
pub proof fn lemma_preset_value(p: usize, n: nat)
    requires
        p < PRESET_COUNT,
        n <= PRESET_COUNT,
    ensures
        preset_value(preset_key(p), n) == if p < n {
            Some(preset_entry(p).value.raw())
        } else {
            None
        },
    decreases n,
{
    if n > 0 {
        lemma_preset_value(p, (n - 1) as nat);
        let last = (n - 1) as usize;
        if last != p {
            lemma_preset_fits();
            if last < p {
                assert(preset_entry(last).option != preset_entry(p).option);
            } else {
                assert(preset_entry(p).option != preset_entry(last).option);
            }
            lemma_option_keys_differ(preset_entry(last).option, preset_entry(p).option);
        }
    }
}

/// Where the preset is switched on, it fills in what is not set and leaves
/// alone what is: an option of the preset whose key has a value keeps what
/// the entries give it, and one whose key has none has the value of the
/// preset. `supplied` are the entries that the caller supplied.
pub proof fn lemma_preset_fills_gaps(
    supplied: Seq<Entry>,
    global_config: GlobalConfiguration,
    p: usize,
)
    requires
        preset_requested(redirected(supplied, RENAMED_COUNT as nat)),
        p < PRESET_COUNT,
    ensures
        ({
            let named = redirected(supplied, RENAMED_COUNT as nat);
            let option = preset_entry(p).option;
            let settings = resolved_settings(supplied, global_config);
            &&& option < OPTION_COUNT
            &&& has_key(named, option_key(option)) ==> explicit(prepared(supplied), option)
                == explicit(named, option)
            &&& explicit(named, option) matches Some(read) ==> settings[option as int] == read
            &&& !has_key(named, option_key(option)) ==> read_as(option, preset_entry(p).value.raw())
                == Some(settings[option as int])
        }),
{
    let named = redirected(supplied, RENAMED_COUNT as nat);
    let option = preset_entry(p).option;
    lemma_preset_fits();
    lemma_lookup_filled(named, PRESET_COUNT as nat, option_key(option));
    lemma_preset_value(p, PRESET_COUNT as nat);
}

/// A key that the preset does not name has the same value with the preset
/// filled in as without.
pub proof fn lemma_preset_keeps_other_keys(entries: Seq<Entry>, key: Seq<char>)
    requires
        forall|p: usize| p < PRESET_COUNT ==> #[trigger] preset_key(p) != key,
    ensures
        lookup(expanded(entries), key) == lookup(entries, key),
{
    lemma_preset_names_not(key, PRESET_COUNT as nat);
    lemma_lookup_filled(entries, PRESET_COUNT as nat, key);
}

/// The preset gives no value to a key that it does not name.
pub proof fn lemma_preset_names_not(key: Seq<char>, n: nat)
    requires
        n <= PRESET_COUNT,
        forall|p: usize| p < PRESET_COUNT ==> #[trigger] preset_key(p) != key,
    ensures
        preset_value(key, n) is None,
    decreases n,
{
    if n > 0 {
        lemma_preset_names_not(key, (n - 1) as nat);
        assert(preset_key((n - 1) as usize) != key);
    }
}

/// The diagnostic that tells of the renamed key `r` that it was renamed.
pub open spec fn renamed_note(r: usize) -> ConfigurationDiagnosticView {
    diagnostic(
        renamed_key(r).old_key@,
        "The configuration key was renamed to '"@ + option_key(renamed_key(r).option) + "'"@,
    )
}

/// What the entries `supplied` come to where they hold a renamed key and
/// perhaps its new name, and are read as the one entry `entry` under the new
/// name.
proof fn lemma_renamed_to_one_entry(supplied: Seq<Entry>, r: usize, entry: Entry)
    requires
        r < RENAMED_COUNT,
        entry.key == option_key(renamed_key(r).option),
        has_key(supplied, renamed_key(r).old_key@),
        forall|q: usize| q < RENAMED_COUNT && q != r ==> !has_key(supplied, (#[trigger] renamed_key(q)).old_key@),
        renamed(supplied, renamed_key(r).old_key@, entry.key) == seq![entry],
    ensures
        prepared(supplied) == seq![entry],
        resolution_notes(supplied) == seq![renamed_note(r)] + option_notes(
            seq![entry],
            renamed_key(r).option,
        ),
        explicit(seq![entry], renamed_key(r).option) == read_as(renamed_key(r).option, entry.value),
        forall|global_config: GlobalConfiguration|
            read_as(renamed_key(r).option, entry.value) matches Some(read) ==> (
            #[trigger] resolved_settings(supplied, global_config))[renamed_key(r).option as int]
                == read,
        read_as(renamed_key(r).option, entry.value) is Some ==> resolution_notes(supplied) == seq![
            renamed_note(r),
        ],
{
    let target = renamed_key(r).option;
    let one = seq![entry];
    let none = Seq::<Entry>::empty();
    lemma_renamed_keys_lead_to_options();
    lemma_keys_differ();
    assert(one =~= none.push(entry));
    assert forall|key: Seq<char>| key != entry.key implies lookup(one, key) is None by {
        lemma_lookup_push(none, entry, key);
    }
    lemma_lookup_push(none, entry, entry.key);
    assert(redirected(supplied, 0) == supplied);
    assert(redirect_notes(supplied, 0) =~= Seq::<ConfigurationDiagnosticView>::empty());
    if r == 0 {
        assert(redirected(supplied, 1) == one);
        assert(renamed_key(1).old_key@ != entry.key);
        assert(redirected(supplied, 2) == one);
        assert(redirect_notes(supplied, 1) =~= seq![renamed_note(r)]);
        assert(redirect_notes(supplied, 2) =~= seq![renamed_note(r)]);
    } else {
        assert(!has_key(supplied, renamed_key(0).old_key@));
        assert(redirected(supplied, 1) == supplied);
        assert(redirected(supplied, 2) == one);
        assert(redirect_notes(supplied, 1) =~= Seq::<ConfigurationDiagnosticView>::empty());
        assert(redirect_notes(supplied, 2) =~= seq![renamed_note(r)]);
    }
    lemma_option_keys_differ(DENO, target);
    assert(lookup(one, option_key(DENO)) is None);
    assert(prepared(supplied) == one);
    assert forall|j: usize| j < OPTION_COUNT && j != target implies lookup(
        one,
        #[trigger] option_key(j),
    ) is None by {
        lemma_option_keys_differ(j, target);
    }
    lemma_notes_of_one(one, OPTION_COUNT as nat, target);
    lemma_is_option_key(target);
    lemma_unknown_entries_push(none, entry);
    assert(unknown_entries(one) =~= none);
    assert(unknown_notes(none) =~= Seq::<ConfigurationDiagnosticView>::empty());
    assert(resolution_notes(supplied) =~= seq![renamed_note(r)] + option_notes(one, target));
    if read_as(target, entry.value) is Some {
        assert(option_notes(one, target) =~= Seq::<ConfigurationDiagnosticView>::empty());
        assert(resolution_notes(supplied) =~= seq![renamed_note(r)]);
    }
}

/// A value under a renamed key, with nothing else set, is the value of the
/// option under its new name: the entries are read as one entry under the
/// new name, and the one diagnostic, where the option can read the value,
/// says that the key was renamed.
pub proof fn lemma_old_key_is_forwarded(r: usize, value: RawValue)
    requires
        r < RENAMED_COUNT,
    ensures
        ({
            let target = renamed_key(r).option;
            let supplied = seq![Entry { key: renamed_key(r).old_key@, value }];
            let entry = Entry { key: option_key(target), value };
            &&& prepared(supplied) == seq![entry]
            &&& resolution_notes(supplied) == seq![renamed_note(r)] + option_notes(seq![entry], target)
            &&& explicit(seq![entry], target) == read_as(target, value)
            &&& forall|global_config: GlobalConfiguration|
                read_as(target, value) matches Some(read) ==> (#[trigger] resolved_settings(
                    supplied,
                    global_config,
                ))[target as int] == read
            &&& read_as(target, value) is Some ==> resolution_notes(supplied) == seq![renamed_note(r)]
        }),
{
    let target = renamed_key(r).option;
    let old = Entry { key: renamed_key(r).old_key@, value };
    let supplied = seq![old];
    let entry = Entry { key: option_key(target), value };
    let none = Seq::<Entry>::empty();
    lemma_renamed_keys_lead_to_options();
    lemma_keys_differ();
    assert(supplied =~= none.push(old));
    lemma_lookup_push(none, old, old.key);
    lemma_without_key_push(none, old, old.key);
    lemma_lookup_push(none, old, entry.key);
    assert forall|q: usize| q < RENAMED_COUNT && q != r implies !has_key(
        supplied,
        (#[trigger] renamed_key(q)).old_key@,
    ) by {
        lemma_lookup_push(none, old, renamed_key(q).old_key@);
        if q < r {
            assert(renamed_key(q).old_key@ != renamed_key(r).old_key@);
        } else {
            assert(renamed_key(r).old_key@ != renamed_key(q).old_key@);
        }
    }
    assert(renamed(supplied, old.key, entry.key) =~= seq![entry]);
    lemma_renamed_to_one_entry(supplied, r, entry);
}

/// Where a renamed key and its new name are both set, in either order, the
/// value under the new name is the value of the option and the value under
/// the old key is dropped; the one diagnostic, where the option can read
/// the value, says that the key was renamed.
pub proof fn lemma_new_key_wins(r: usize, old_value: RawValue, new_value: RawValue, old_first: bool)
    requires
        r < RENAMED_COUNT,
    ensures
        ({
            let target = renamed_key(r).option;
            let old = Entry { key: renamed_key(r).old_key@, value: old_value };
            let entry = Entry { key: option_key(target), value: new_value };
            let supplied = if old_first {
                seq![old, entry]
            } else {
                seq![entry, old]
            };
            &&& prepared(supplied) == seq![entry]
            &&& resolution_notes(supplied) == seq![renamed_note(r)] + option_notes(seq![entry], target)
            &&& explicit(seq![entry], target) == read_as(target, new_value)
            &&& forall|global_config: GlobalConfiguration|
                read_as(target, new_value) matches Some(read) ==> (#[trigger] resolved_settings(
                    supplied,
                    global_config,
                ))[target as int] == read
            &&& read_as(target, new_value) is Some ==> resolution_notes(supplied) == seq![
                renamed_note(r),
            ]
        }),
{
    let target = renamed_key(r).option;
    let old = Entry { key: renamed_key(r).old_key@, value: old_value };
    let entry = Entry { key: option_key(target), value: new_value };
    let none = Seq::<Entry>::empty();
    let supplied = if old_first {
        seq![old, entry]
    } else {
        seq![entry, old]
    };
    let head = if old_first {
        old
    } else {
        entry
    };
    let tail = if old_first {
        entry
    } else {
        old
    };
    lemma_renamed_keys_lead_to_options();
    lemma_keys_differ();
    assert(old.key != entry.key);
    assert(supplied =~= none.push(head).push(tail));
    lemma_lookup_push(none, head, old.key);
    lemma_lookup_push(none.push(head), tail, old.key);
    lemma_without_key_push(none, head, old.key);
    lemma_without_key_push(none.push(head), tail, old.key);
    assert(without_key(supplied, old.key) =~= seq![entry]);
    assert(seq![entry] =~= none.push(entry));
    lemma_lookup_push(none, entry, entry.key);
    assert forall|q: usize| q < RENAMED_COUNT && q != r implies !has_key(
        supplied,
        (#[trigger] renamed_key(q)).old_key@,
    ) by {
        lemma_lookup_push(none, head, renamed_key(q).old_key@);
        lemma_lookup_push(none.push(head), tail, renamed_key(q).old_key@);
        if q < r {
            assert(renamed_key(q).old_key@ != renamed_key(r).old_key@);
        } else {
            assert(renamed_key(r).old_key@ != renamed_key(q).old_key@);
        }
    }
    assert(renamed(supplied, old.key, entry.key) =~= seq![entry]);
    lemma_renamed_to_one_entry(supplied, r, entry);
}

/// The diagnostic that tells of `key` that it is the key of no option.
pub open spec fn unknown_note(key: Seq<char>) -> ConfigurationDiagnosticView {
    diagnostic(key, "Unknown property in configuration"@)
}

/// An entry under an unknown key beside an entry for an option, in either
/// order, changes the value of no option, and adds one diagnostic, which
/// comes last and names the unknown key.
pub proof fn lemma_unknown_key_is_isolated(
    i: usize,
    value: RawValue,
    unknown_key: Seq<char>,
    unknown_value: RawValue,
    known_first: bool,
    global_config: GlobalConfiguration,
)
    requires
        0 < i < OPTION_COUNT,
        !is_option_key(unknown_key),
        forall|r: usize| r < RENAMED_COUNT ==> (#[trigger] renamed_key(r)).old_key@ != unknown_key,
    ensures
        ({
            let known = Entry { key: option_key(i), value };
            let unknown = Entry { key: unknown_key, value: unknown_value };
            let supplied = if known_first {
                seq![known, unknown]
            } else {
                seq![unknown, known]
            };
            &&& resolved_settings(supplied, global_config) == resolved_settings(
                seq![known],
                global_config,
            )
            &&& explicit(prepared(supplied), i) == read_as(i, value)
            &&& resolution_notes(supplied) == resolution_notes(seq![known]).push(
                unknown_note(unknown_key),
            )
            &&& resolution_notes(seq![known]) == option_notes(seq![known], i)
            &&& read_as(i, value) is Some ==> resolution_notes(supplied) == seq![
                unknown_note(unknown_key),
            ]
        }),
{
    let known = Entry { key: option_key(i), value };
    let unknown = Entry { key: unknown_key, value: unknown_value };
    let none = Seq::<Entry>::empty();
    let supplied = if known_first {
        seq![known, unknown]
    } else {
        seq![unknown, known]
    };
    let head = if known_first {
        known
    } else {
        unknown
    };
    let tail = if known_first {
        unknown
    } else {
        known
    };
    let one = seq![known];
    lemma_one_option_set(i, value);
    lemma_keys_differ();
    lemma_is_option_key(i);
    assert(supplied =~= none.push(head).push(tail));
    assert(one =~= none.push(known));
    assert forall|key: Seq<char>| key != unknown_key implies lookup(supplied, key) == lookup(
        one,
        key,
    ) by {
        lemma_lookup_push(none, head, key);
        lemma_lookup_push(none.push(head), tail, key);
        lemma_lookup_push(none, known, key);
    }
    assert forall|j: usize| j < OPTION_COUNT implies #[trigger] option_key(j) != unknown_key by {
        if option_key(j) == unknown_key {
            assert(is_early_option_key(unknown_key, OPTION_COUNT as nat));
        }
    }
    lemma_option_keys_differ(DENO, i);
    lemma_lookup_push(none, known, option_key(DENO));
    assert(lookup(supplied, option_key(DENO)) == lookup(one, option_key(DENO)));
    assert forall|r: usize| r < RENAMED_COUNT implies !has_key(
        supplied,
        (#[trigger] renamed_key(r)).old_key@,
    ) by {
        assert(lookup(supplied, renamed_key(r).old_key@) == lookup(one, renamed_key(r).old_key@));
        lemma_lookup_push(none, known, renamed_key(r).old_key@);
    }
    lemma_plain_entries_stay(supplied);
    assert forall|j: usize| j < OPTION_COUNT implies #[trigger] explicit(supplied, j) == explicit(
        one,
        j,
    ) && option_notes(supplied, j) == option_notes(one, j) by {
        assert(option_key(j) != unknown_key);
    }
    assert(resolved_settings(supplied, global_config) =~= resolved_settings(one, global_config)) by {
        assert forall|j: usize| j < OPTION_COUNT implies setting(supplied, global_config, j)
            == setting(one, global_config, j) by {
            lemma_settings_agree(supplied, one, global_config, j);
        }
    }
    assert forall|j: usize| j < OPTION_COUNT && j != i implies lookup(
        one,
        #[trigger] option_key(j),
    ) is None by {
        lemma_option_keys_differ(j, i);
        lemma_lookup_push(none, known, option_key(j));
    }
    assert forall|j: usize| j < OPTION_COUNT && j != i implies lookup(
        supplied,
        #[trigger] option_key(j),
    ) is None by {
        assert(lookup(one, option_key(j)) is None);
        assert(option_key(j) != unknown_key);
    }
    lemma_notes_of_one(one, OPTION_COUNT as nat, i);
    lemma_notes_of_one(supplied, OPTION_COUNT as nat, i);
    lemma_unknown_entries_push(none, head);
    lemma_unknown_entries_push(none.push(head), tail);
    lemma_unknown_entries_push(none, known);
    assert(unknown_entries(one) =~= none);
    assert(unknown_entries(supplied) =~= seq![unknown]);
    assert(unknown_notes(none) =~= Seq::<ConfigurationDiagnosticView>::empty());
    assert(unknown_notes(seq![unknown]) =~= seq![unknown_note(unknown_key)]);
    assert(resolution_notes(one) =~= option_notes(one, i));
    assert(resolution_notes(supplied) =~= resolution_notes(one).push(unknown_note(unknown_key)));
    if read_as(i, value) is Some {
        assert(option_notes(one, i) =~= Seq::<ConfigurationDiagnosticView>::empty());
        assert(resolution_notes(supplied) =~= seq![unknown_note(unknown_key)]);
    }
}

/// Taking a key out before or after the unknown entries are picked gives
/// the same entries.
pub proof fn lemma_unknown_entries_without_key(entries: Seq<Entry>, key: Seq<char>)
    ensures
        unknown_entries(without_key(entries, key)) == without_key(unknown_entries(entries), key),
    decreases entries.len(),
{
    if entries.len() > 0 {
        let last = entries.last();
        lemma_unknown_entries_without_key(entries.drop_last(), key);
        if last.key != key {
            lemma_unknown_entries_push(without_key(entries.drop_last(), key), last);
        }
        if !is_option_key(last.key) {
            lemma_without_key_push(unknown_entries(entries.drop_last()), last, key);
        }
    }
}

/// Filling the preset in adds no unknown entry.
pub proof fn lemma_unknown_entries_filled(entries: Seq<Entry>, n: nat)
    requires
        n <= PRESET_COUNT,
    ensures
        unknown_entries(filled(entries, n)) == unknown_entries(entries),
    decreases n,
{
    if n > 0 {
        let i = (n - 1) as usize;
        lemma_unknown_entries_filled(entries, (n - 1) as nat);
        lemma_preset_fits();
        lemma_is_option_key(preset_entry(i).option);
        lemma_unknown_entries_push(
            filled(entries, (n - 1) as nat),
            Entry { key: preset_key(i), value: preset_entry(i).value.raw() },
        );
    }
}

/// The entries without those under the first `n` renamed keys.
pub open spec fn without_renamed_keys(entries: Seq<Entry>, n: nat) -> Seq<Entry>
    decreases n,
{
    if n == 0 {
        entries
    } else {
        without_key(without_renamed_keys(entries, (n - 1) as nat), renamed_key((n - 1) as usize).old_key@)
    }
}

/// Giving renamed keys their new names takes the entries under the old keys
/// out of the unknown entries and adds none.
pub proof fn lemma_unknown_entries_redirected(entries: Seq<Entry>, n: nat)
    requires
        n <= RENAMED_COUNT,
    ensures
        unknown_entries(redirected(entries, n)) == without_renamed_keys(unknown_entries(entries), n),
    decreases n,
{
    if n > 0 {
        let renaming = renamed_key((n - 1) as usize);
        let before = redirected(entries, (n - 1) as nat);
        lemma_unknown_entries_redirected(entries, (n - 1) as nat);
        lemma_renamed_keys_lead_to_options();
        lemma_is_option_key(renaming.option);
        lemma_unknown_entries_without_key(before, renaming.old_key@);
        match lookup(before, renaming.old_key@) {
            Some(value) => {
                lemma_unknown_entries_push(
                    without_key(before, renaming.old_key@),
                    Entry { key: option_key(renaming.option), value },
                );
            },
            None => {
                lemma_without_absent_key(before, renaming.old_key@);
            },
        }
    }
}

/// The entries that are reported as unknown are the supplied entries whose
/// key is neither the key of an option nor a renamed key, in the order in
/// which they were supplied: renaming and the preset add none and take none
/// away.
pub proof fn lemma_unknown_entries_of_prepared(supplied: Seq<Entry>)
    ensures
        unknown_entries(prepared(supplied)) == without_renamed_keys(
            unknown_entries(supplied),
            RENAMED_COUNT as nat,
        ),
{
    lemma_unknown_entries_redirected(supplied, RENAMED_COUNT as nat);
    lemma_unknown_entries_filled(redirected(supplied, RENAMED_COUNT as nat), PRESET_COUNT as nat);
}

/// Whether two maps give the same value to the key of every option and to
/// every renamed key: whether they differ in unknown entries at most.
pub open spec fn agree_on_known_keys(first: Seq<Entry>, second: Seq<Entry>) -> bool {
    &&& forall|i: usize|
        i < OPTION_COUNT ==> lookup(first, #[trigger] option_key(i)) == lookup(second, option_key(i))
    &&& forall|r: usize|
        r < RENAMED_COUNT ==> lookup(first, (#[trigger] renamed_key(r)).old_key@) == lookup(
            second,
            renamed_key(r).old_key@,
        )
}

/// Maps that differ in unknown entries at most still do so when renamed
/// keys got their new names, and the same is reported of the renamed keys.
pub proof fn lemma_redirected_agree(first: Seq<Entry>, second: Seq<Entry>, n: nat)
    requires
        n <= RENAMED_COUNT,
        agree_on_known_keys(first, second),
    ensures
        agree_on_known_keys(redirected(first, n), redirected(second, n)),
        redirect_notes(first, n) == redirect_notes(second, n),
    decreases n,
{
    if n > 0 {
        let renaming = renamed_key((n - 1) as usize);
        let old_key = renaming.old_key@;
        let new_key = option_key(renaming.option);
        let a = redirected(first, (n - 1) as nat);
        let b = redirected(second, (n - 1) as nat);
        lemma_redirected_agree(first, second, (n - 1) as nat);
        lemma_renamed_keys_lead_to_options();
        lemma_keys_differ();
        assert(lookup(a, renaming.old_key@) == lookup(b, renaming.old_key@));
        assert(lookup(a, option_key(renaming.option)) == lookup(b, option_key(renaming.option)));
        assert forall|i: usize| i < OPTION_COUNT implies lookup(
            renamed(a, old_key, new_key),
            #[trigger] option_key(i),
        ) == lookup(renamed(b, old_key, new_key), option_key(i)) by {
            lemma_lookup_renamed(a, old_key, new_key, option_key(i));
            lemma_lookup_renamed(b, old_key, new_key, option_key(i));
        }
        assert forall|r: usize| r < RENAMED_COUNT implies lookup(
            renamed(a, old_key, new_key),
            (#[trigger] renamed_key(r)).old_key@,
        ) == lookup(renamed(b, old_key, new_key), renamed_key(r).old_key@) by {
            lemma_lookup_renamed(a, old_key, new_key, renamed_key(r).old_key@);
            lemma_lookup_renamed(b, old_key, new_key, renamed_key(r).old_key@);
        }
    }
}

/// Maps that differ in unknown entries at most still do so when the preset
/// was filled in.
pub proof fn lemma_expanded_agree(first: Seq<Entry>, second: Seq<Entry>)
    requires
        agree_on_known_keys(first, second),
    ensures
        agree_on_known_keys(expanded(first), expanded(second)),
{
    assert(lookup(first, option_key(DENO)) == lookup(second, option_key(DENO)));
    assert forall|key: Seq<char>| lookup(first, key) == lookup(second, key) implies lookup(
        expanded(first),
        key,
    ) == lookup(expanded(second), key) by {
        lemma_lookup_filled(first, PRESET_COUNT as nat, key);
        lemma_lookup_filled(second, PRESET_COUNT as nat, key);
    }
    assert forall|i: usize| i < OPTION_COUNT implies lookup(
        expanded(first),
        #[trigger] option_key(i),
    ) == lookup(expanded(second), option_key(i)) by {
        assert(lookup(first, option_key(i)) == lookup(second, option_key(i)));
    }
    assert forall|r: usize| r < RENAMED_COUNT implies lookup(
        expanded(first),
        (#[trigger] renamed_key(r)).old_key@,
    ) == lookup(expanded(second), renamed_key(r).old_key@) by {
        assert(lookup(first, renamed_key(r).old_key@) == lookup(second, renamed_key(r).old_key@));
    }
}

/// Maps that give the same value to the key of every option have the same
/// reported of their options.
pub proof fn lemma_all_notes_agree(first: Seq<Entry>, second: Seq<Entry>, n: nat)
    requires
        n <= OPTION_COUNT,
        forall|i: usize|
            i < OPTION_COUNT ==> lookup(first, #[trigger] option_key(i)) == lookup(
                second,
                option_key(i),
            ),
    ensures
        all_notes(first, n) == all_notes(second, n),
    decreases n,
{
    if n > 0 {
        lemma_all_notes_agree(first, second, (n - 1) as nat);
        assert(lookup(first, option_key((n - 1) as usize)) == lookup(
            second,
            option_key((n - 1) as usize),
        ));
    }
}

/// Unknown entries change nothing but the diagnostics about themselves:
/// maps that differ in unknown entries at most resolve to the same values,
/// with the same reported of renamed keys and of options.
pub proof fn lemma_unknown_entries_change_nothing(
    first: Seq<Entry>,
    second: Seq<Entry>,
    global_config: GlobalConfiguration,
)
    requires
        agree_on_known_keys(first, second),
    ensures
        resolved_settings(first, global_config) == resolved_settings(second, global_config),
        resolved_configuration(first, global_config) == resolved_configuration(
            second,
            global_config,
        ),
        redirect_notes(first, RENAMED_COUNT as nat) == redirect_notes(second, RENAMED_COUNT as nat),
        all_notes(prepared(first), OPTION_COUNT as nat) == all_notes(
            prepared(second),
            OPTION_COUNT as nat,
        ),
{
    lemma_redirected_agree(first, second, RENAMED_COUNT as nat);
    lemma_expanded_agree(
        redirected(first, RENAMED_COUNT as nat),
        redirected(second, RENAMED_COUNT as nat),
    );
    let a = prepared(first);
    let b = prepared(second);
    lemma_all_notes_agree(a, b, OPTION_COUNT as nat);
    assert forall|j: usize| j < OPTION_COUNT implies #[trigger] explicit(a, j) == explicit(b, j) by {
        assert(lookup(a, option_key(j)) == lookup(b, option_key(j)));
    }
    assert(resolved_settings(first, global_config) =~= resolved_settings(second, global_config)) by {
        assert forall|j: usize| j < OPTION_COUNT implies setting(a, global_config, j) == setting(
            b,
            global_config,
            j,
        ) by {
            lemma_settings_agree(a, b, global_config, j);
        }
    }
}

/// Where one renamed key is in use at most, the option under the new name
/// reads the value under the new name, or else the value under the renamed
/// key, whatever else is set; and the renamed key is reported once where it
/// is in use, and not otherwise.
pub proof fn lemma_renamed_key_is_forwarded(supplied: Seq<Entry>, r: usize)
    requires
        r < RENAMED_COUNT,
        forall|q: usize|
            q < RENAMED_COUNT && q != r ==> !has_key(supplied, (#[trigger] renamed_key(q)).old_key@),
    ensures
        ({
            let named = redirected(supplied, RENAMED_COUNT as nat);
            let old_key = renamed_key(r).old_key@;
            let new_key = option_key(renamed_key(r).option);
            &&& lookup(named, new_key) == if has_key(supplied, new_key) {
                lookup(supplied, new_key)
            } else {
                lookup(supplied, old_key)
            }
            &&& lookup(named, old_key) is None
            &&& redirect_notes(supplied, RENAMED_COUNT as nat) == if has_key(supplied, old_key) {
                seq![renamed_note(r)]
            } else {
                Seq::<ConfigurationDiagnosticView>::empty()
            }
        }),
{
    let first = renamed_key(0);
    let second = renamed_key(1);
    let new_key = option_key(renamed_key(r).option);
    lemma_renamed_keys_lead_to_options();
    lemma_keys_differ();
    assert(first.old_key@ != second.old_key@);
    let once = redirected(supplied, 1);
    assert(redirected(supplied, 0) == supplied);
    assert(redirect_notes(supplied, 0) =~= Seq::<ConfigurationDiagnosticView>::empty());
    assert(option_key(first.option) == new_key && option_key(second.option) == new_key);
    lemma_lookup_renamed(supplied, first.old_key@, new_key, new_key);
    lemma_lookup_renamed(supplied, first.old_key@, new_key, first.old_key@);
    lemma_lookup_renamed(supplied, first.old_key@, new_key, second.old_key@);
    lemma_lookup_renamed(once, second.old_key@, new_key, new_key);
    lemma_lookup_renamed(once, second.old_key@, new_key, first.old_key@);
    lemma_lookup_renamed(once, second.old_key@, new_key, second.old_key@);
    assert(redirect_notes(supplied, 1) =~= renamed_notes(supplied, first.old_key@, new_key));
    assert(redirect_notes(supplied, 2) =~= redirect_notes(supplied, 1) + renamed_notes(
        once,
        second.old_key@,
        new_key,
    ));
}

} // verus!
