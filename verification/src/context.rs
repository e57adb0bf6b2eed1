//! The configuration store: typed entries by key.
//!
//! A [`Context`] holds what the store holds, one optional value per known key
//! and one entry per output. Whoever owns the files behind it fills it and
//! writes it back; the engine and the settings only see this type.

use vstd::prelude::*;

use crate::config::{
    default_config, entry_views, fallback_entry, find_entry, lemma_position_of, normalized_entry,
    position_of, Config, ConfigView, Entry, EntryView, ALL_OUTPUTS,
};
use crate::power_saving::{OnBatteryAction, PowerSavingConfig};

verus! {

/// Why the store refused an operation.
#[derive(Debug, Clone, Copy, PartialEq, Eq, Structural)]
pub enum ConfigError {
    /// The store has no place to write to.
    NoConfigDirectory,
    /// The store holds nothing under the key.
    NotFound,
}

/// The power-saving keys of a store; `None` where a key holds nothing.
#[derive(Debug, Clone, Copy)]
pub struct PowerSavingEntries {
    pub pause_on_fullscreen: Option<bool>,
    pub pause_on_covered: Option<bool>,
    pub coverage_threshold: Option<u8>,
    pub adjust_on_battery: Option<bool>,
    pub on_battery_action: Option<OnBatteryAction>,
    pub pause_on_low_battery: Option<bool>,
    pub low_battery_threshold: Option<u8>,
    pub pause_on_lid_closed: Option<bool>,
}

impl PowerSavingEntries {
    /// No key holds anything.
    pub open spec fn empty() -> PowerSavingEntries {
        PowerSavingEntries {
            pause_on_fullscreen: None,
            pause_on_covered: None,
            coverage_threshold: None,
            adjust_on_battery: None,
            on_battery_action: None,
            pause_on_low_battery: None,
            low_battery_threshold: None,
            pause_on_lid_closed: None,
        }
    }
}

/// A configuration store.
#[derive(Debug)]
pub struct Context {
    writable: bool,
    power: PowerSavingEntries,
    default_background: Option<Entry>,
    same_on_all: Option<bool>,
    prefer_low_power: Option<bool>,
    outputs: Vec<Entry>,
}

pub struct ContextView {
    /// Whether the store takes writes.
    pub writable: bool,
    pub power: PowerSavingEntries,
    /// The entry for all outputs.
    pub default_background: Option<EntryView>,
    pub same_on_all: Option<bool>,
    pub prefer_low_power: Option<bool>,
    /// The entries for single outputs, keyed by their output's name.
    pub outputs: Seq<EntryView>,
}

impl View for Context {
    type V = ContextView;

    closed spec fn view(&self) -> ContextView {
        ContextView {
            writable: self.writable,
            power: self.power,
            default_background: match self.default_background {
                Some(e) => Some(e@),
                None => None,
            },
            same_on_all: self.same_on_all,
            prefer_low_power: self.prefer_low_power,
            outputs: entry_views(self.outputs@),
        }
    }
}

impl ContextView {
    /// No two entries are for the same output.
    pub open spec fn wf(self) -> bool {
        forall|i: int, j: int|
            0 <= i < j < self.outputs.len() ==> (#[trigger] self.outputs[i]).output != (
            #[trigger] self.outputs[j]).output
    }

    /// An empty store.
    pub open spec fn empty(writable: bool) -> ContextView {
        ContextView {
            writable,
            power: PowerSavingEntries::empty(),
            default_background: None,
            same_on_all: None,
            prefer_low_power: None,
            outputs: Seq::empty(),
        }
    }

    /// The store after a write of `entry` under its output's name: the entry
    /// for that output is replaced, or `entry` is added behind the others.
    pub open spec fn with_entry(self, entry: EntryView) -> ContextView {
        match position_of(self.outputs, entry.output, self.outputs.len() as int) {
            Some(i) => ContextView { outputs: self.outputs.update(i, entry), ..self },
            None => ContextView { outputs: self.outputs.push(entry), ..self },
        }
    }

    /// The configuration that the store stands for: each key's value, or its
    /// fallback where the key holds nothing, with every shader's frame rate
    /// brought into range.
    pub open spec fn config(self) -> ConfigView {
        ConfigView {
            default_background: match self.default_background {
                Some(e) => EntryView { output: ALL_OUTPUTS@, ..normalized_entry(e) },
                None => fallback_entry(),
            },
            backgrounds: self.outputs.map_values(|e: EntryView| normalized_entry(e)),
            same_on_all: self.same_on_all.unwrap_or(default_config().same_on_all),
            power_saving: PowerSavingConfig::from_entries(self.power),
        }
    }
}

/// What a write does: a store that takes writes holds `written` afterwards,
/// any other is unchanged and answers with its error.
pub open spec fn write_outcome(
    before: ContextView,
    after: ContextView,
    result: Result<(), ConfigError>,
    written: ContextView,
) -> bool {
    if before.writable {
        result is Ok && after == written
    } else {
        result == Err::<(), ConfigError>(ConfigError::NoConfigDirectory) && after == before
    }
}

impl Context {
    /// An empty store that takes writes.
    pub fn new() -> (r: Self)
        ensures
            r@ == ContextView::empty(true),
            r@.wf(),
    {
        let r = Context {
            writable: true,
            power: PowerSavingEntries {
                pause_on_fullscreen: None,
                pause_on_covered: None,
                coverage_threshold: None,
                adjust_on_battery: None,
                on_battery_action: None,
                pause_on_low_battery: None,
                low_battery_threshold: None,
                pause_on_lid_closed: None,
            },
            default_background: None,
            same_on_all: None,
            prefer_low_power: None,
            outputs: Vec::new(),
        };
        assert(r@.outputs =~= Seq::empty());
        r
    }

    /// The same store, refusing writes from now on.
    pub fn read_only(self) -> (r: Self)
        ensures
            r@ == (ContextView { writable: false, ..self@ }),
    {
        Context {
            writable: false,
            power: self.power,
            default_background: self.default_background,
            same_on_all: self.same_on_all,
            prefer_low_power: self.prefer_low_power,
            outputs: self.outputs,
        }
    }

    /// Whether the store takes writes.
    pub fn is_writable(&self) -> (r: bool)
        ensures
            r == self@.writable,
    {
        self.writable
    }

    /// Whether animations pause while an application is fullscreen; `false`
    /// unless stored.
    #[must_use]
    pub fn pause_on_fullscreen(&self) -> (r: bool)
        ensures
            r == self@.power.pause_on_fullscreen.unwrap_or(false),
    {
        match self.power.pause_on_fullscreen {
            Some(v) => v,
            None => false,
        }
    }

    pub fn set_pause_on_fullscreen(&mut self, value: bool) -> (r: Result<(), ConfigError>)
        ensures
            write_outcome(
                old(self)@,
                final(self)@,
                r,
                ContextView {
                    power: PowerSavingEntries {
                        pause_on_fullscreen: Some(value),
                        ..old(self)@.power
                    },
                    ..old(self)@
                },
            ),
    {
        if !self.writable {
            return Err(ConfigError::NoConfigDirectory);
        }
        self.power.pause_on_fullscreen = Some(value);
        Ok(())
    }

    /// Whether animations pause while windows cover the background; `false`
    /// unless stored.
    #[must_use]
    pub fn pause_on_covered(&self) -> (r: bool)
        ensures
            r == self@.power.pause_on_covered.unwrap_or(false),
    {
        match self.power.pause_on_covered {
            Some(v) => v,
            None => false,
        }
    }

    pub fn set_pause_on_covered(&mut self, value: bool) -> (r: Result<(), ConfigError>)
        ensures
            write_outcome(
                old(self)@,
                final(self)@,
                r,
                ContextView {
                    power: PowerSavingEntries { pause_on_covered: Some(value), ..old(self)@.power },
                    ..old(self)@
                },
            ),
    {
        if !self.writable {
            return Err(ConfigError::NoConfigDirectory);
        }
        self.power.pause_on_covered = Some(value);
        Ok(())
    }

    /// The covered share in percent from which animations pause; 90 unless
    /// stored.
    #[must_use]
    pub fn coverage_threshold(&self) -> (r: u8)
        ensures
            r == self@.power.coverage_threshold.unwrap_or(90),
    {
        match self.power.coverage_threshold {
            Some(v) => v,
            None => 90,
        }
    }

    pub fn set_coverage_threshold(&mut self, value: u8) -> (r: Result<(), ConfigError>)
        ensures
            write_outcome(
                old(self)@,
                final(self)@,
                r,
                ContextView {
                    power: PowerSavingEntries {
                        coverage_threshold: Some(value),
                        ..old(self)@.power
                    },
                    ..old(self)@
                },
            ),
    {
        if !self.writable {
            return Err(ConfigError::NoConfigDirectory);
        }
        self.power.coverage_threshold = Some(value);
        Ok(())
    }

    /// Whether animations are adjusted while on battery; `false` unless
    /// stored.
    #[must_use]
    pub fn adjust_on_battery(&self) -> (r: bool)
        ensures
            r == self@.power.adjust_on_battery.unwrap_or(false),
    {
        match self.power.adjust_on_battery {
            Some(v) => v,
            None => false,
        }
    }

    pub fn set_adjust_on_battery(&mut self, value: bool) -> (r: Result<(), ConfigError>)
        ensures
            write_outcome(
                old(self)@,
                final(self)@,
                r,
                ContextView {
                    power: PowerSavingEntries {
                        adjust_on_battery: Some(value),
                        ..old(self)@.power
                    },
                    ..old(self)@
                },
            ),
    {
        if !self.writable {
            return Err(ConfigError::NoConfigDirectory);
        }
        self.power.adjust_on_battery = Some(value);
        Ok(())
    }

    /// What happens to animations while on battery; nothing unless stored.
    #[must_use]
    pub fn on_battery_action(&self) -> (r: OnBatteryAction)
        ensures
            r == self@.power.on_battery_action.unwrap_or(OnBatteryAction::Nothing),
    {
        match self.power.on_battery_action {
            Some(v) => v,
            None => OnBatteryAction::Nothing,
        }
    }

    pub fn set_on_battery_action(&mut self, value: OnBatteryAction) -> (r: Result<
        (),
        ConfigError,
    >)
        ensures
            write_outcome(
                old(self)@,
                final(self)@,
                r,
                ContextView {
                    power: PowerSavingEntries {
                        on_battery_action: Some(value),
                        ..old(self)@.power
                    },
                    ..old(self)@
                },
            ),
    {
        if !self.writable {
            return Err(ConfigError::NoConfigDirectory);
        }
        self.power.on_battery_action = Some(value);
        Ok(())
    }

    /// Whether animations pause on a low battery; `true` unless stored.
    #[must_use]
    pub fn pause_on_low_battery(&self) -> (r: bool)
        ensures
            r == self@.power.pause_on_low_battery.unwrap_or(true),
    {
        match self.power.pause_on_low_battery {
            Some(v) => v,
            None => true,
        }
    }

    pub fn set_pause_on_low_battery(&mut self, value: bool) -> (r: Result<(), ConfigError>)
        ensures
            write_outcome(
                old(self)@,
                final(self)@,
                r,
                ContextView {
                    power: PowerSavingEntries {
                        pause_on_low_battery: Some(value),
                        ..old(self)@.power
                    },
                    ..old(self)@
                },
            ),
    {
        if !self.writable {
            return Err(ConfigError::NoConfigDirectory);
        }
        self.power.pause_on_low_battery = Some(value);
        Ok(())
    }

    /// The battery level in percent that counts as low; 20 unless stored.
    #[must_use]
    pub fn low_battery_threshold(&self) -> (r: u8)
        ensures
            r == self@.power.low_battery_threshold.unwrap_or(20),
    {
        match self.power.low_battery_threshold {
            Some(v) => v,
            None => 20,
        }
    }

    pub fn set_low_battery_threshold(&mut self, value: u8) -> (r: Result<(), ConfigError>)
        ensures
            write_outcome(
                old(self)@,
                final(self)@,
                r,
                ContextView {
                    power: PowerSavingEntries {
                        low_battery_threshold: Some(value),
                        ..old(self)@.power
                    },
                    ..old(self)@
                },
            ),
    {
        if !self.writable {
            return Err(ConfigError::NoConfigDirectory);
        }
        self.power.low_battery_threshold = Some(value);
        Ok(())
    }

    /// Whether animations pause while the lid is closed; `true` unless
    /// stored.
    #[must_use]
    pub fn pause_on_lid_closed(&self) -> (r: bool)
        ensures
            r == self@.power.pause_on_lid_closed.unwrap_or(true),
    {
        match self.power.pause_on_lid_closed {
            Some(v) => v,
            None => true,
        }
    }

    pub fn set_pause_on_lid_closed(&mut self, value: bool) -> (r: Result<(), ConfigError>)
        ensures
            write_outcome(
                old(self)@,
                final(self)@,
                r,
                ContextView {
                    power: PowerSavingEntries {
                        pause_on_lid_closed: Some(value),
                        ..old(self)@.power
                    },
                    ..old(self)@
                },
            ),
    {
        if !self.writable {
            return Err(ConfigError::NoConfigDirectory);
        }
        self.power.pause_on_lid_closed = Some(value);
        Ok(())
    }

    /// The power-saving settings that the store stands for.
    #[must_use]
    pub fn power_saving_config(&self) -> (r: PowerSavingConfig)
        ensures
            r == PowerSavingConfig::from_entries(self@.power),
    {
        PowerSavingConfig::load(self)
    }

    /// The entry for all outputs, as loaded; the fallback entry unless
    /// stored. Whatever output the stored entry names, the loaded one is for
    /// all outputs.
    pub fn default_background(&self) -> (r: Entry)
        ensures
            r@ == self@.config().default_background,
            r@.output == ALL_OUTPUTS@,
    {
        match &self.default_background {
            Some(e) => {
                let loaded = e.clone().normalized();
                Entry { output: String::from_str(ALL_OUTPUTS), source: loaded.source }
            },
            None => Entry::fallback(),
        }
    }

    pub fn set_default_background(&mut self, entry: Entry) -> (r: Result<(), ConfigError>)
        ensures
            write_outcome(
                old(self)@,
                final(self)@,
                r,
                ContextView { default_background: Some(entry@), ..old(self)@ },
            ),
    {
        if !self.writable {
            return Err(ConfigError::NoConfigDirectory);
        }
        self.default_background = Some(entry);
        Ok(())
    }

    /// Whether every output shows the default background; `true` unless
    /// stored.
    pub fn same_on_all(&self) -> (r: bool)
        ensures
            r == self@.config().same_on_all,
    {
        match self.same_on_all {
            Some(v) => v,
            None => true,
        }
    }

    pub fn set_same_on_all(&mut self, value: bool) -> (r: Result<(), ConfigError>)
        ensures
            write_outcome(
                old(self)@,
                final(self)@,
                r,
                ContextView { same_on_all: Some(value), ..old(self)@ },
            ),
    {
        if !self.writable {
            return Err(ConfigError::NoConfigDirectory);
        }
        self.same_on_all = Some(value);
        Ok(())
    }

    /// Whether a low-power graphics adapter is preferred; `false` unless
    /// stored.
    pub fn prefer_low_power(&self) -> (r: bool)
        ensures
            r == self@.prefer_low_power.unwrap_or(false),
    {
        match self.prefer_low_power {
            Some(v) => v,
            None => false,
        }
    }

    pub fn set_prefer_low_power(&mut self, value: bool) -> (r: Result<(), ConfigError>)
        ensures
            write_outcome(
                old(self)@,
                final(self)@,
                r,
                ContextView { prefer_low_power: Some(value), ..old(self)@ },
            ),
    {
        if !self.writable {
            return Err(ConfigError::NoConfigDirectory);
        }
        self.prefer_low_power = Some(value);
        Ok(())
    }

    /// Where the entry for the output `name` is stored.
    fn find(&self, name: &str) -> (r: Option<usize>)
        ensures
            match r {
                Some(i) => position_of(self@.outputs, name@, self@.outputs.len() as int) == Some(
                    i as int,
                ) && i < self.outputs@.len(),
                None => position_of(self@.outputs, name@, self@.outputs.len() as int) is None,
            },
    {
        find_entry(&self.outputs, name)
    }

    /// The entry for the output `name`, as loaded.
    pub fn entry(&self, name: &str) -> (r: Result<Entry, ConfigError>)
        ensures
            match position_of(self@.outputs, name@, self@.outputs.len() as int) {
                Some(i) => r is Ok && r->Ok_0@ == normalized_entry(self@.outputs[i]),
                None => r is Err && r->Err_0 == ConfigError::NotFound,
            },
    {
        match self.find(name) {
            Some(i) => Ok(self.outputs[i].clone().normalized()),
            None => Err(ConfigError::NotFound),
        }
    }

    /// Stores `entry` under its output's name.
    pub fn set_entry(&mut self, entry: Entry) -> (r: Result<(), ConfigError>)
        ensures
            write_outcome(old(self)@, final(self)@, r, old(self)@.with_entry(entry@)),
            old(self)@.wf() ==> final(self)@.wf(),
    {
        if !self.writable {
            return Err(ConfigError::NoConfigDirectory);
        }
        let ghost before = self@;
        proof {
            lemma_position_of(before.outputs, entry@.output, before.outputs.len() as int);
        }
        match self.find(entry.output.as_str()) {
            Some(i) => {
                self.outputs[i] = entry;
                assert(self@.outputs =~= before.outputs.update(i as int, entry@));
                assert(before.wf() ==> self@.wf()) by {
                    if before.wf() {
                        assert forall|a: int, b: int| 0 <= a < b < self@.outputs.len() implies (
                        #[trigger] self@.outputs[a]).output != (#[trigger] self@.outputs[b]).output by {
                            assert(before.outputs[a].output != before.outputs[b].output);
                        }
                    }
                }
            },
            None => {
                self.outputs.push(entry);
                assert(self@.outputs =~= before.outputs.push(entry@));
                assert(before.wf() ==> self@.wf()) by {
                    if before.wf() {
                        assert forall|a: int, b: int| 0 <= a < b < self@.outputs.len() implies (
                        #[trigger] self@.outputs[a]).output != (#[trigger] self@.outputs[b]).output by {
                            if b < before.outputs.len() {
                                assert(before.outputs[a].output != before.outputs[b].output);
                            } else {
                                assert(before.outputs[a].output != entry@.output);
                            }
                        }
                    }
                }
            },
        }
        Ok(())
    }

    /// The entries for single outputs, as loaded.
    pub fn backgrounds(&self) -> (r: Vec<Entry>)
        ensures
            entry_views(r@) == self@.config().backgrounds,
    {
        let mut loaded: Vec<Entry> = Vec::new();
        let mut i: usize = 0;
        while i < self.outputs.len()
            invariant
                i <= self.outputs.len(),
                loaded@.len() == i,
                forall|k: int| 0 <= k < i ==> loaded@[k]@ == normalized_entry(self.outputs@[k]@),
            decreases self.outputs.len() - i,
        {
            loaded.push(self.outputs[i].clone().normalized());
            i = i + 1;
        }
        assert(entry_views(loaded@) =~= self@.config().backgrounds);
        loaded
    }
}

impl Config {
    /// The configuration that a store stands for: see
    /// [`ContextView::config`]. Its default entry is for all outputs, and
    /// its entries are for different outputs where those of the store are.
    pub fn load(context: &Context) -> (r: Self)
        ensures
            r@ == context@.config(),
            r@.default_background.output == ALL_OUTPUTS@,
            context@.wf() ==> r@.wf(),
    {
        proof {
            let stored = context@;
            if stored.wf() {
                assert forall|i: int, j: int|
                    0 <= i < j < stored.config().backgrounds.len() implies (
                #[trigger] stored.config().backgrounds[i]).output != (
                #[trigger] stored.config().backgrounds[j]).output by {
                    assert(stored.outputs[i].output != stored.outputs[j].output);
                }
            }
        }
        Config {
            default_background: context.default_background(),
            backgrounds: context.backgrounds(),
            same_on_all: context.same_on_all(),
            power_saving: context.power_saving_config(),
        }
    }
}

} // verus!
