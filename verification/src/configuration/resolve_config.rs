//! Resolving a map of option overrides against the global defaults.

use super::assembly::assemble;
use super::assembly::configuration_of;
use super::assembly::settings_fit;
use super::option_map::diagnostic;
use super::option_map::get_unknown_property_diagnostics;
use super::option_map::given_text;
use super::option_map::handle_renamed_config_property;
use super::option_map::lemma_lookup_without_key;
use super::option_map::lemma_without_key_push;
use super::option_map::lookup;
use super::option_map::option_entries;
use super::option_map::renamed;
use super::option_map::renamed_notes;
use super::option_map::take_text;
use super::option_map::unknown_notes;
use super::option_map::unreadable_notes;
use super::option_map::without_key;
use super::option_map::Entry;
use super::option_map::RawValue;
use super::preset::fill_deno_config;
use super::preset::filled;
use super::preset::lemma_filled_without_key;
use super::preset::lemma_lookup_filled;
use super::preset::lemma_preset_fits;
use super::preset::lemma_preset_leaves_alone;
use super::preset::PRESET_COUNT;
use super::schema::is_early_option_key;
use super::schema::is_option_key;
use super::schema::lemma_keys_differ;
use super::schema::lemma_preset_switch;
use super::schema::lemma_renamed_keys_lead_to_options;
use super::schema::lemma_sources_fit;
use super::schema::option_key;
use super::schema::option_rule;
use super::schema::renamed_at;
use super::schema::renamed_key;
use super::schema::rule_at;
use super::schema::source_fits;
use super::schema::Rule;
use super::schema::Source;
use super::schema::DENO;
use super::schema::OPTION_COUNT;
use super::schema::RENAMED_COUNT;
use super::setting::decode;
use super::setting::decode_text;
use super::setting::lemma_decode_kind;
use super::setting::Kind;
use super::setting::Scalar;
use super::setting::Setting;
use super::setting::SettingView;
use super::types::ConfigurationDiagnostic;
use super::types::ConfigurationDiagnosticView;
use super::types::ConfigurationView;
use super::types::GlobalConfiguration;
use super::types::NewLineKind;
use super::types::PreferHanging;
use super::types::ResolveConfigurationResult;
use dprint_core::configuration::ConfigKeyMap;
use vstd::prelude::*;

verus! {

/// The global defaults that are recommended where the caller sets none.
pub struct RecommendedGlobalConfiguration {
    pub line_width: u32,
    pub use_tabs: bool,
    pub indent_width: u8,
    pub new_line_kind: NewLineKind,
}

/// The recommended global defaults: lines of 120 columns, indented by two
/// spaces, that end in a line feed.
pub open spec fn recommended() -> RecommendedGlobalConfiguration {
    RecommendedGlobalConfiguration {
        line_width: 120,
        use_tabs: false,
        indent_width: 2,
        new_line_kind: NewLineKind::LineFeed,
    }
}

/// `dprint_core::configuration::RECOMMENDED_GLOBAL_CONFIGURATION`, the
/// constant: the contract gives the four values that it is declared with.
#[verifier::external_body]
fn recommended_global_configuration() -> (r: RecommendedGlobalConfiguration)
    ensures
        r == recommended(),
{
    let r = dprint_core::configuration::RECOMMENDED_GLOBAL_CONFIGURATION;
    RecommendedGlobalConfiguration {
        line_width: r.line_width,
        use_tabs: r.use_tabs,
        indent_width: r.indent_width,
        new_line_kind: match r.new_line_kind {
            dprint_core::configuration::NewLineKind::Auto => NewLineKind::Auto,
            dprint_core::configuration::NewLineKind::LineFeed => NewLineKind::LineFeed,
            dprint_core::configuration::NewLineKind::CarriageReturnLineFeed => NewLineKind::CarriageReturnLineFeed,
        },
    }
}

/// The global default for an option of the kind `kind`: what the caller
/// set, and else what is recommended. Numbers take the line width, bytes the
/// indent width, switches the use of tabs.
pub open spec fn global_default(global_config: GlobalConfiguration, kind: Kind) -> SettingView {
    match kind {
        Kind::Number => SettingView::Scalar(
            Scalar::Number(
                match global_config.line_width {
                    Some(line_width) => line_width,
                    None => recommended().line_width,
                },
            ),
        ),
        Kind::Bool => SettingView::Scalar(
            Scalar::Bool(
                match global_config.use_tabs {
                    Some(use_tabs) => use_tabs,
                    None => recommended().use_tabs,
                },
            ),
        ),
        Kind::Byte => SettingView::Scalar(
            Scalar::Byte(
                match global_config.indent_width {
                    Some(indent_width) => indent_width,
                    None => recommended().indent_width,
                },
            ),
        ),
        _ => SettingView::Scalar(
            Scalar::NewLineKind(
                match global_config.new_line_kind {
                    Some(new_line_kind) => new_line_kind,
                    None => recommended().new_line_kind,
                },
            ),
        ),
    }
}

/// The value of the kind `kind` that a raw value is read as. A value that
/// is missing, null, an array or an object is read as none, and so is a
/// text that is no value of the kind.
pub open spec fn extracted(kind: Kind, value: Option<RawValue>) -> Option<SettingView> {
    match given_text(value) {
        Some(text) => match decode(kind, text) {
            Ok(value) => Some(value),
            Err(_) => None,
        },
        None => None,
    }
}

/// What is reported when the value under `key` is read as a value of the
/// kind `kind`: nothing where the key is not set, the value is null or the
/// value is read, and else one diagnostic under the key that says why the
/// value is not read.
pub open spec fn extraction_notes(key: Seq<char>, kind: Kind, value: Option<RawValue>) -> Seq<
    ConfigurationDiagnosticView,
> {
    match given_text(value) {
        Some(text) => match decode(kind, text) {
            Ok(_) => Seq::empty(),
            Err(message) => seq![diagnostic(key, message)],
        },
        None => unreadable_notes(key, value),
    }
}

/// The value that the entries give to the option `i`, where they give it
/// one that the option can read.
pub open spec fn explicit(entries: Seq<Entry>, i: usize) -> Option<SettingView> {
    extracted(option_rule(i).kind, lookup(entries, option_key(i)))
}

/// What is reported of the option `i`: nothing where its key is not set or
/// its value is read, and else one diagnostic under its key that says why
/// the value is not read.
pub open spec fn option_notes(entries: Seq<Entry>, i: usize) -> Seq<ConfigurationDiagnosticView> {
    extraction_notes(option_key(i), option_rule(i).kind, lookup(entries, option_key(i)))
}

/// The value of the option `i`: the value that the entries give it, and
/// else its default, which may be the value of an option before it.
pub open spec fn setting(entries: Seq<Entry>, global_config: GlobalConfiguration, i: usize) -> SettingView
    decreases i,
{
    match explicit(entries, i) {
        Some(value) => value,
        None => match option_rule(i).source {
            Source::Fixed(value) => SettingView::Scalar(value),
            Source::Words(text) => SettingView::Text(text@),
            Source::Global => global_default(global_config, option_rule(i).kind),
            Source::Inherit(from) => if from < i {
                setting(entries, global_config, from)
            } else {
                SettingView::Scalar(Scalar::Bool(false))
            },
            Source::Hanging(from) => if from < i {
                SettingView::Scalar(
                    Scalar::PreferHanging(
                        PreferHanging::of_switch(setting(entries, global_config, from).bool()),
                    ),
                )
            } else {
                SettingView::Scalar(Scalar::Bool(false))
            },
            Source::JsxQuotes(from) => if from < i {
                SettingView::Scalar(
                    Scalar::JsxQuoteStyle(
                        setting(entries, global_config, from).quote_style().jsx_quote_style(),
                    ),
                )
            } else {
                SettingView::Scalar(Scalar::Bool(false))
            },
            Source::Given(from, otherwise) => match explicit(entries, from) {
                Some(value) => value,
                None => SettingView::Scalar(Scalar::Bool(otherwise)),
            },
        },
    }
}

/// The entries after the first `n` renamed keys were given their new names.
pub open spec fn redirected(entries: Seq<Entry>, n: nat) -> Seq<Entry>
    decreases n,
{
    if n == 0 {
        entries
    } else {
        let renaming = renamed_key((n - 1) as usize);
        renamed(redirected(entries, (n - 1) as nat), renaming.old_key@, option_key(renaming.option))
    }
}

/// What is reported of the first `n` renamed keys, in their order.
pub open spec fn redirect_notes(entries: Seq<Entry>, n: nat) -> Seq<ConfigurationDiagnosticView>
    decreases n,
{
    if n == 0 {
        Seq::empty()
    } else {
        let renaming = renamed_key((n - 1) as usize);
        redirect_notes(entries, (n - 1) as nat) + renamed_notes(
            redirected(entries, (n - 1) as nat),
            renaming.old_key@,
            option_key(renaming.option),
        )
    }
}

/// Whether the entries switch the preset on.
pub open spec fn preset_requested(entries: Seq<Entry>) -> bool {
    explicit(entries, DENO) == Some(SettingView::Scalar(Scalar::Bool(true)))
}

/// The entries with the preset filled in, where they switch it on.
pub open spec fn expanded(entries: Seq<Entry>) -> Seq<Entry> {
    if preset_requested(entries) {
        filled(entries, PRESET_COUNT as nat)
    } else {
        entries
    }
}

/// The entries that the options are read from: those that the caller
/// supplied, with renamed keys under their new names and then the preset
/// filled in.
pub open spec fn prepared(supplied: Seq<Entry>) -> Seq<Entry> {
    expanded(redirected(supplied, RENAMED_COUNT as nat))
}

/// The entries that are left when the first `n` options were read.
pub open spec fn remaining(entries: Seq<Entry>, n: nat) -> Seq<Entry>
    decreases n,
{
    if n == 0 {
        entries
    } else {
        without_key(remaining(entries, (n - 1) as nat), option_key((n - 1) as usize))
    }
}

/// The entries whose key is the key of no option, in their order.
pub open spec fn unknown_entries(entries: Seq<Entry>) -> Seq<Entry>
    decreases entries.len(),
{
    if entries.len() == 0 {
        entries
    } else if is_option_key(entries.last().key) {
        unknown_entries(entries.drop_last())
    } else {
        unknown_entries(entries.drop_last()).push(entries.last())
    }
}

/// What is reported of the first `n` options, in their order.
pub open spec fn all_notes(entries: Seq<Entry>, n: nat) -> Seq<ConfigurationDiagnosticView>
    decreases n,
{
    if n == 0 {
        Seq::empty()
    } else {
        all_notes(entries, (n - 1) as nat) + option_notes(entries, (n - 1) as usize)
    }
}

/// The values of all options, in the order of the options, that the
/// supplied entries resolve to.
pub open spec fn resolved_settings(supplied: Seq<Entry>, global_config: GlobalConfiguration) -> Seq<
    SettingView,
> {
    Seq::new(
        OPTION_COUNT as nat,
        |i: int| setting(prepared(supplied), global_config, i as usize),
    )
}

/// The configuration that the supplied entries resolve to.
pub open spec fn resolved_configuration(
    supplied: Seq<Entry>,
    global_config: GlobalConfiguration,
) -> ConfigurationView {
    configuration_of(resolved_settings(supplied, global_config))
}

/// What a resolution reports: first the renamed keys, then the options
/// whose values could not be read, in the order of the options, and last
/// the entries that belong to no option, in the order of the map.
pub open spec fn resolution_notes(supplied: Seq<Entry>) -> Seq<ConfigurationDiagnosticView> {
    redirect_notes(supplied, RENAMED_COUNT as nat) + all_notes(
        prepared(supplied),
        OPTION_COUNT as nat,
    ) + unknown_notes(unknown_entries(prepared(supplied)))
}

/// Reading the first `n` options leaves the value of every other key.
pub proof fn lemma_lookup_remaining(entries: Seq<Entry>, n: nat, key: Seq<char>)
    requires
        n <= OPTION_COUNT,
        forall|j: usize| j < n ==> #[trigger] option_key(j) != key,
    ensures
        lookup(remaining(entries, n), key) == lookup(entries, key),
    decreases n,
{
    if n > 0 {
        lemma_lookup_remaining(entries, (n - 1) as nat, key);
        assert(option_key((n - 1) as usize) != key);
        lemma_lookup_without_key(
            remaining(entries, (n - 1) as nat),
            option_key((n - 1) as usize),
            key,
        );
    }
}

/// Reading options leaves an entry that comes last where none of them has
/// its key, and takes it out where one has.
pub proof fn lemma_remaining_push(entries: Seq<Entry>, entry: Entry, n: nat)
    requires
        n <= OPTION_COUNT,
    ensures
        remaining(entries.push(entry), n) == if is_early_option_key(entry.key, n) {
            remaining(entries, n)
        } else {
            remaining(entries, n).push(entry)
        },
    decreases n,
{
    if n > 0 {
        let last = (n - 1) as usize;
        lemma_remaining_push(entries, entry, (n - 1) as nat);
        if is_early_option_key(entry.key, (n - 1) as nat) {
            let j = choose|j: usize| j < (n - 1) as nat && #[trigger] option_key(j) == entry.key;
            assert(j < n && option_key(j) == entry.key);
        } else {
            lemma_without_key_push(remaining(entries, (n - 1) as nat), entry, option_key(last));
            if option_key(last) == entry.key {
                assert(last < n && option_key(last) == entry.key);
            }
        }
    }
}

/// The entries that are left when all options were read are those whose
/// key is the key of no option.
pub proof fn lemma_remaining_unknown(entries: Seq<Entry>)
    ensures
        remaining(entries, OPTION_COUNT as nat) == unknown_entries(entries),
    decreases entries.len(),
{
    if entries.len() == 0 {
        lemma_remaining_empty(OPTION_COUNT as nat);
        assert(entries =~= Seq::<Entry>::empty());
    } else {
        lemma_remaining_unknown(entries.drop_last());
        lemma_remaining_push(entries.drop_last(), entries.last(), OPTION_COUNT as nat);
        assert(entries.drop_last().push(entries.last()) =~= entries);
    }
}

/// Where there are no entries, none is left.
pub proof fn lemma_remaining_empty(n: nat)
    ensures
        remaining(Seq::<Entry>::empty(), n) == Seq::<Entry>::empty(),
    decreases n,
{
    if n > 0 {
        lemma_remaining_empty((n - 1) as nat);
    }
}

/// The value of an option is of the kind of the option.
pub proof fn lemma_setting_kind(entries: Seq<Entry>, global_config: GlobalConfiguration, i: usize)
    requires
        i < OPTION_COUNT,
    ensures
        setting(entries, global_config, i).kind() == option_rule(i).kind,
        explicit(entries, i) matches Some(value) ==> value.kind() == option_rule(i).kind,
    decreases i,
{
    lemma_sources_fit();
    assert(source_fits(i));
    match given_text(lookup(entries, option_key(i))) {
        Some(text) => {
            lemma_decode_kind(option_rule(i).kind, text);
        },
        None => {},
    }
    if explicit(entries, i) is None {
        match option_rule(i).source {
            Source::Inherit(from) => {
                lemma_setting_kind(entries, global_config, from);
            },
            Source::Given(from, _) => {
                lemma_setting_kind(entries, global_config, from);
            },
            _ => {},
        }
    }
}

/// The global default for an option of the kind `kind`.
fn global_setting(global_config: &GlobalConfiguration, kind: Kind) -> (r: Setting)
    ensures
        r@ == global_default(*global_config, kind),
{
    let recommended = recommended_global_configuration();
    match kind {
        Kind::Number => Setting::Scalar(
            Scalar::Number(
                match global_config.line_width {
                    Some(line_width) => line_width,
                    None => recommended.line_width,
                },
            ),
        ),
        Kind::Bool => Setting::Scalar(
            Scalar::Bool(
                match global_config.use_tabs {
                    Some(use_tabs) => use_tabs,
                    None => recommended.use_tabs,
                },
            ),
        ),
        Kind::Byte => Setting::Scalar(
            Scalar::Byte(
                match global_config.indent_width {
                    Some(indent_width) => indent_width,
                    None => recommended.indent_width,
                },
            ),
        ),
        _ => Setting::Scalar(
            Scalar::NewLineKind(
                match global_config.new_line_kind {
                    Some(new_line_kind) => new_line_kind,
                    None => recommended.new_line_kind,
                },
            ),
        ),
    }
}

/// Whether `settings` and `given` hold what the first `n` options resolve
/// to: the value of each, and whether the entries gave it.
pub open spec fn resolved_so_far(
    entries: Seq<Entry>,
    global_config: GlobalConfiguration,
    settings: Seq<SettingView>,
    given: Seq<bool>,
    n: nat,
) -> bool {
    &&& settings.len() == n
    &&& given.len() == n
    &&& forall|j: usize| j < n ==> #[trigger] settings[j as int] == setting(entries, global_config, j)
    &&& forall|j: usize| j < n ==> #[trigger] given[j as int] == (explicit(entries, j) is Some)
}

/// The default of the option `i`, from the values of the options before it.
fn default_setting(
    rule: Rule,
    i: usize,
    global_config: &GlobalConfiguration,
    settings: &Vec<Setting>,
    given: &Vec<bool>,
    Ghost(entries): Ghost<Seq<Entry>>,
) -> (r: Setting)
    requires
        i < OPTION_COUNT,
        rule == option_rule(i),
        explicit(entries, i) is None,
        resolved_so_far(entries, *global_config, settings.deep_view(), given@, i as nat),
    ensures
        r@ == setting(entries, *global_config, i),
{
    proof {
        lemma_sources_fit();
        assert(source_fits(i));
    }
    match rule.source {
        Source::Fixed(value) => Setting::Scalar(value),
        Source::Words(text) => Setting::Text(String::from_str(text)),
        Source::Global => global_setting(global_config, rule.kind),
        Source::Inherit(from) => {
            assert(settings.deep_view()[from as int] == settings[from as int]@);
            settings[from].duplicate()
        },
        Source::Hanging(from) => {
            proof {
                assert(settings.deep_view()[from as int] == settings[from as int]@);
                lemma_setting_kind(entries, *global_config, from);
            }
            Setting::Scalar(Scalar::PreferHanging(PreferHanging::from_switch(settings[from].to_bool())))
        },
        Source::JsxQuotes(from) => {
            proof {
                assert(settings.deep_view()[from as int] == settings[from as int]@);
                lemma_setting_kind(entries, *global_config, from);
            }
            Setting::Scalar(
                Scalar::JsxQuoteStyle(settings[from].to_quote_style().to_jsx_quote_style()),
            )
        },
        Source::Given(from, otherwise) => {
            assert(settings.deep_view()[from as int] == settings[from as int]@);
            if given[from] {
                settings[from].duplicate()
            } else {
                Setting::Scalar(Scalar::Bool(otherwise))
            }
        },
    }
}

/// Takes the entry under `key` out of the map and reads its value as a
/// value of the kind `kind`. Where the value cannot be read, nothing is
/// handed out and a diagnostic is added; where the key is not set or the
/// value is null, nothing is handed out and nothing is added.
pub fn get_nullable_value(
    config: &mut ConfigKeyMap,
    key: &str,
    kind: Kind,
    diagnostics: &mut Vec<ConfigurationDiagnostic>,
) -> (found: Option<Setting>)
    ensures
        option_entries(*final(config)) == without_key(option_entries(*old(config)), key@),
        match found {
            Some(value) => extracted(kind, lookup(option_entries(*old(config)), key@)) == Some(
                value@,
            ) && value@.kind() == kind,
            None => extracted(kind, lookup(option_entries(*old(config)), key@)) is None,
        },
        final(diagnostics).deep_view() == old(diagnostics).deep_view() + extraction_notes(
            key@,
            kind,
            lookup(option_entries(*old(config)), key@),
        ),
{
    let ghost reported = diagnostics.deep_view();
    let ghost value = lookup(option_entries(*config), key@);
    let text = take_text(config, key, diagnostics);
    let found = match text {
        Some(text) => match decode_text(kind, text) {
            Ok(value) => Some(value),
            Err(message) => {
                let ghost before = diagnostics.deep_view();
                let note = ConfigurationDiagnostic { property_name: String::from_str(key), message };
                diagnostics.push(note);
                assert(diagnostics.deep_view() =~= before.push(note@));
                None
            },
        },
        None => None,
    };
    assert(diagnostics.deep_view() =~= reported + extraction_notes(key@, kind, value));
    found
}

/// Takes the entry under `key` out of the map and reads its value as a
/// value of the kind `kind`; where there is none that can be read, the
/// value is `default`. A value that cannot be read is reported.
pub fn get_value(
    config: &mut ConfigKeyMap,
    key: &str,
    kind: Kind,
    default: Setting,
    diagnostics: &mut Vec<ConfigurationDiagnostic>,
) -> (value: Setting)
    ensures
        option_entries(*final(config)) == without_key(option_entries(*old(config)), key@),
        value@ == match extracted(kind, lookup(option_entries(*old(config)), key@)) {
            Some(found) => found,
            None => default@,
        },
        final(diagnostics).deep_view() == old(diagnostics).deep_view() + extraction_notes(
            key@,
            kind,
            lookup(option_entries(*old(config)), key@),
        ),
{
    match get_nullable_value(config, key, kind, diagnostics) {
        Some(found) => found,
        None => default,
    }
}

/// Reads the option `i`: takes its entry out of the map, and adds its value
/// to `settings`, whether the entries gave it to `given`, and what there is
/// to report to `diagnostics`. `entries` are the entries that all options
/// are read from; the map holds what is left of them.
fn resolve_option(
    config: &mut ConfigKeyMap,
    global_config: &GlobalConfiguration,
    i: usize,
    settings: &mut Vec<Setting>,
    given: &mut Vec<bool>,
    diagnostics: &mut Vec<ConfigurationDiagnostic>,
    Ghost(entries): Ghost<Seq<Entry>>,
)
    requires
        i < OPTION_COUNT,
        resolved_so_far(entries, *global_config, old(settings).deep_view(), old(given)@, i as nat),
        lookup(option_entries(*old(config)), option_key(i)) == lookup(entries, option_key(i)),
    ensures
        option_entries(*final(config)) == without_key(option_entries(*old(config)), option_key(i)),
        resolved_so_far(
            entries,
            *global_config,
            final(settings).deep_view(),
            final(given)@,
            (i + 1) as nat,
        ),
        final(diagnostics).deep_view() == old(diagnostics).deep_view() + option_notes(entries, i),
{
    let rule = rule_at(i);
    let ghost reported = diagnostics.deep_view();
    let found = get_nullable_value(config, rule.key, rule.kind, diagnostics);
    assert(diagnostics.deep_view() =~= reported + option_notes(entries, i));
    let ghost settings_before = settings.deep_view();
    let ghost given_before = given@;
    let value = match found {
        Some(value) => {
            given.push(true);
            value
        },
        None => {
            let value = default_setting(rule, i, global_config, settings, given, Ghost(entries));
            given.push(false);
            value
        },
    };
    assert(value@ == setting(entries, *global_config, i));
    settings.push(value);
    assert(settings.deep_view() =~= settings_before.push(value@));
    assert(given@ =~= given_before.push(explicit(entries, i) is Some));
}

/// The option `i` is still in the map when the options before it were
/// read: none of them has its key.
proof fn lemma_option_not_read(entries: Seq<Entry>, i: usize)
    requires
        i < OPTION_COUNT,
    ensures
        lookup(remaining(entries, i as nat), option_key(i)) == lookup(entries, option_key(i)),
{
    lemma_keys_differ();
    lemma_lookup_remaining(entries, i as nat, option_key(i));
}

/// The switch of the preset is read the same before the preset is filled
/// in and after, and its entry can be taken out before or after.
proof fn lemma_preset_switch_stays(named: Seq<Entry>)
    ensures
        lookup(expanded(named), option_key(DENO)) == lookup(named, option_key(DENO)),
        explicit(expanded(named), DENO) == explicit(named, DENO),
        filled(without_key(named, option_key(DENO)), PRESET_COUNT as nat) == without_key(
            filled(named, PRESET_COUNT as nat),
            option_key(DENO),
        ),
{
    lemma_preset_fits();
    lemma_preset_leaves_alone(DENO, PRESET_COUNT as nat);
    lemma_lookup_filled(named, PRESET_COUNT as nat, option_key(DENO));
    lemma_filled_without_key(named, PRESET_COUNT as nat, option_key(DENO));
}

/// The values of all options, once they are read, are the values that the
/// supplied entries resolve to, each of the kind of its option.
proof fn lemma_settings_resolved(
    supplied: Seq<Entry>,
    global_config: GlobalConfiguration,
    settings: Seq<SettingView>,
    given: Seq<bool>,
)
    requires
        resolved_so_far(prepared(supplied), global_config, settings, given, OPTION_COUNT as nat),
    ensures
        settings == resolved_settings(supplied, global_config),
        settings_fit(settings),
{
    assert(settings =~= resolved_settings(supplied, global_config));
    assert forall|i: usize| i < OPTION_COUNT implies (#[trigger] settings[i as int]).kind()
        == option_rule(i).kind by {
        lemma_setting_kind(prepared(supplied), global_config, i);
    }
}

/// Gives the renamed keys their new names: each value under an old key
/// goes under the new key, unless that key has a value, and the old key is
/// reported as renamed.
pub fn redirect(config: &mut ConfigKeyMap, diagnostics: &mut Vec<ConfigurationDiagnostic>)
    ensures
        option_entries(*final(config)) == redirected(
            option_entries(*old(config)),
            RENAMED_COUNT as nat,
        ),
        final(diagnostics).deep_view() == old(diagnostics).deep_view() + redirect_notes(
            option_entries(*old(config)),
            RENAMED_COUNT as nat,
        ),
{
    let ghost supplied = option_entries(*config);
    let ghost reported = diagnostics.deep_view();
    let mut r: usize = 0;
    assert(diagnostics.deep_view() =~= reported + redirect_notes(supplied, 0));
    while r < RENAMED_COUNT
        invariant
            r <= RENAMED_COUNT,
            option_entries(*config) == redirected(supplied, r as nat),
            diagnostics.deep_view() == reported + redirect_notes(supplied, r as nat),
        decreases RENAMED_COUNT - r,
    {
        let renaming = renamed_at(r);
        proof {
            lemma_renamed_keys_lead_to_options();
        }
        let new_key = rule_at(renaming.option).key;
        handle_renamed_config_property(config, renaming.old_key, new_key, diagnostics);
        assert(diagnostics.deep_view() =~= reported + redirect_notes(supplied, (r + 1) as nat));
        r = r + 1;
    }
}

/// Reads the switch of the preset and, where it is on, fills the preset in.
/// `entries` are the entries with the preset filled in.
fn expand(
    config: &mut ConfigKeyMap,
    global_config: &GlobalConfiguration,
    settings: &mut Vec<Setting>,
    given: &mut Vec<bool>,
    diagnostics: &mut Vec<ConfigurationDiagnostic>,
)
    requires
        old(settings).len() == 0,
        old(given).len() == 0,
    ensures
        option_entries(*final(config)) == remaining(expanded(option_entries(*old(config))), 1),
        resolved_so_far(
            expanded(option_entries(*old(config))),
            *global_config,
            final(settings).deep_view(),
            final(given)@,
            1,
        ),
        final(diagnostics).deep_view() == old(diagnostics).deep_view() + all_notes(
            expanded(option_entries(*old(config))),
            1,
        ),
{
    let ghost named = option_entries(*config);
    let ghost entries = expanded(named);
    let ghost reported = diagnostics.deep_view();
    proof {
        lemma_preset_switch_stays(named);
    }
    resolve_option(config, global_config, DENO, settings, given, diagnostics, Ghost(entries));
    proof {
        assert(settings.deep_view()[DENO as int] == settings[DENO as int]@);
        lemma_setting_kind(entries, *global_config, DENO);
        lemma_preset_switch();
    }
    if settings[DENO].to_bool() {
        fill_deno_config(config);
    }
    proof {
        assert(remaining(entries, 0) == entries);
        assert(all_notes(entries, 0) =~= Seq::empty());
        assert(diagnostics.deep_view() =~= reported + all_notes(entries, 1));
    }
}

/// Reads the options behind the switch of the preset, in their order.
fn resolve_options(
    config: &mut ConfigKeyMap,
    global_config: &GlobalConfiguration,
    settings: &mut Vec<Setting>,
    given: &mut Vec<bool>,
    diagnostics: &mut Vec<ConfigurationDiagnostic>,
    Ghost(entries): Ghost<Seq<Entry>>,
    Ghost(earlier): Ghost<Seq<ConfigurationDiagnosticView>>,
)
    requires
        option_entries(*old(config)) == remaining(entries, 1),
        resolved_so_far(entries, *global_config, old(settings).deep_view(), old(given)@, 1),
        old(diagnostics).deep_view() == earlier + all_notes(entries, 1),
    ensures
        option_entries(*final(config)) == remaining(entries, OPTION_COUNT as nat),
        resolved_so_far(
            entries,
            *global_config,
            final(settings).deep_view(),
            final(given)@,
            OPTION_COUNT as nat,
        ),
        final(diagnostics).deep_view() == earlier + all_notes(entries, OPTION_COUNT as nat),
{
    let mut i: usize = 1;
    while i < OPTION_COUNT
        invariant
            1 <= i <= OPTION_COUNT,
            option_entries(*config) == remaining(entries, i as nat),
            resolved_so_far(entries, *global_config, settings.deep_view(), given@, i as nat),
            diagnostics.deep_view() == earlier + all_notes(entries, i as nat),
        decreases OPTION_COUNT - i,
    {
        proof {
            lemma_option_not_read(entries, i);
        }
        resolve_option(config, global_config, i, settings, given, diagnostics, Ghost(entries));
        assert(diagnostics.deep_view() =~= earlier + all_notes(entries, (i + 1) as nat));
        i = i + 1;
    }
}

/// Resolves the options that `config` sets against the global defaults:
/// gives renamed keys their new names, fills the preset in where it is
/// switched on, reads every option in the order of the options, each with
/// the default that its place in the cascade gives it, and reports the
/// entries that are left over. Every option gets a value whatever the map
/// holds.
pub fn resolve_config(config: ConfigKeyMap, global_config: &GlobalConfiguration) -> (result:
    ResolveConfigurationResult)
    ensures
        result.config@ == resolved_configuration(option_entries(config), *global_config),
        result.diagnostics.deep_view() == resolution_notes(option_entries(config)),
{
    let ghost supplied = option_entries(config);
    let ghost entries = prepared(supplied);
    let mut config = config;
    let mut diagnostics: Vec<ConfigurationDiagnostic> = Vec::new();
    let mut settings: Vec<Setting> = Vec::new();
    let mut given: Vec<bool> = Vec::new();
    assert(diagnostics.deep_view() =~= Seq::empty());

    redirect(&mut config, &mut diagnostics);
    let ghost renamings = redirect_notes(supplied, RENAMED_COUNT as nat);
    assert(diagnostics.deep_view() =~= renamings);
    expand(&mut config, global_config, &mut settings, &mut given, &mut diagnostics);
    resolve_options(
        &mut config,
        global_config,
        &mut settings,
        &mut given,
        &mut diagnostics,
        Ghost(entries),
        Ghost(renamings),
    );
    let ghost reported = diagnostics.deep_view();

    proof {
        lemma_remaining_unknown(entries);
    }
    let mut unknown = get_unknown_property_diagnostics(config);
    let ghost unknown_view = unknown.deep_view();
    diagnostics.append(&mut unknown);
    assert(diagnostics.deep_view() =~= reported + unknown_view);
    proof {
        lemma_settings_resolved(supplied, *global_config, settings.deep_view(), given@);
    }
    ResolveConfigurationResult { diagnostics, config: assemble(&settings) }
}

} // verus!
