//! Building a configuration step by step.

use super::option_map::copy_map;
use super::option_map::insert;
use super::option_map::new_map;
use super::option_map::option_entries;
use super::option_map::with_entry;
use super::option_map::Entry;
use super::preset::lemma_preset_fits;
use super::preset::preset_at;
use super::preset::preset_entry;
use super::preset::preset_key;
use super::preset::PRESET_COUNT;
use super::resolve_config::resolve_config;
use super::resolve_config::resolved_configuration;
use super::schema::rule_at;
use super::types::Configuration;
use super::types::GlobalConfiguration;
use dprint_core::configuration::ConfigKeyMap;
use vstd::prelude::*;

verus! {

/// The entries after the first `n` values of the preset were set, each
/// under its key and in the place of the value that the key had.
pub open spec fn preset_set(entries: Seq<Entry>, n: nat) -> Seq<Entry>
    decreases n,
{
    if n == 0 {
        entries
    } else {
        with_entry(
            preset_set(entries, (n - 1) as nat),
            preset_key((n - 1) as usize),
            preset_entry((n - 1) as usize).value.raw(),
        )
    }
}

/// Collects option values and global defaults, and resolves them to a
/// configuration.
pub struct ConfigurationBuilder {
    config: ConfigKeyMap,
    global_config: Option<GlobalConfiguration>,
}

impl ConfigurationBuilder {
    /// The options that were set, in the order in which they were first set.
    pub closed spec fn entries(&self) -> Seq<Entry> {
        option_entries(self.config)
    }

    /// The global defaults, where they were set.
    pub closed spec fn globals(&self) -> Option<GlobalConfiguration> {
        self.global_config
    }

    /// The global defaults that `build` resolves against: those that were
    /// set, and else the defaults of which none is set.
    pub open spec fn effective_globals(&self) -> GlobalConfiguration {
        match self.globals() {
            Some(global_config) => global_config,
            None => GlobalConfiguration {
                line_width: None,
                use_tabs: None,
                indent_width: None,
                new_line_kind: None,
            },
        }
    }

    /// A builder with no option and no global default set.
    pub fn new() -> (r: ConfigurationBuilder)
        ensures
            r.entries() == Seq::<Entry>::empty(),
            r.globals() is None,
    {
        ConfigurationBuilder { config: new_map(), global_config: None }
    }

    /// Sets the global defaults.
    pub fn global_config(&mut self, global_config: GlobalConfiguration) -> (r: &mut Self)
        ensures
            r.entries() == old(self).entries(),
            r.globals() == Some(global_config),
            *final(self) == *final(r),
    {
        self.global_config = Some(global_config);
        self
    }

    /// Sets every option of the Deno preset to the value of the preset.
    pub fn deno(&mut self) -> (r: &mut Self)
        ensures
            r.entries() == preset_set(old(self).entries(), PRESET_COUNT as nat),
            r.globals() == old(self).globals(),
            *final(self) == *final(r),
    {
        let mut i: usize = 0;
        while i < PRESET_COUNT
            invariant
                i <= PRESET_COUNT,
                self.global_config == old(self).global_config,
                option_entries(self.config) == preset_set(option_entries(old(self).config), i as nat),
            decreases PRESET_COUNT - i,
        {
            let entry = preset_at(i);
            proof {
                lemma_preset_fits();
            }
            insert(&mut self.config, rule_at(entry.option).key, entry.value);
            i = i + 1;
        }
        self
    }

    /// The configuration that the options set so far resolve to.
    pub fn build(&self) -> (r: Configuration)
        ensures
            r@ == resolved_configuration(self.entries(), self.effective_globals()),
    {
        match &self.global_config {
            Some(global_config) => resolve_config(copy_map(&self.config), global_config).config,
            None => {
                let global_config = GlobalConfiguration::default();
                resolve_config(copy_map(&self.config), &global_config).config
            },
        }
    }
}

} // verus!
