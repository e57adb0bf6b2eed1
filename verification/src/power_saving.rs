//! Power-saving settings for animated backgrounds.

use vstd::prelude::*;

use crate::context::{ConfigError, Context, ContextView, PowerSavingEntries};

verus! {

pub const PAUSE_ON_FULLSCREEN: &'static str = "pause-on-fullscreen";

pub const PAUSE_ON_COVERED: &'static str = "pause-on-covered";

pub const COVERAGE_THRESHOLD: &'static str = "coverage-threshold";

pub const ADJUST_ON_BATTERY: &'static str = "adjust-on-battery";

pub const ON_BATTERY_ACTION: &'static str = "on-battery-action";

pub const PAUSE_ON_LOW_BATTERY: &'static str = "pause-on-low-battery";

pub const LOW_BATTERY_THRESHOLD: &'static str = "low-battery-threshold";

pub const PAUSE_ON_LID_CLOSED: &'static str = "pause-on-lid-closed";

/// What happens to an animation while the machine runs on battery.
#[derive(Debug, Clone, Copy, PartialEq, Eq, Structural)]
pub enum OnBatteryAction {
    /// The animation runs as configured.
    Nothing,
    /// The animation stops.
    Pause,
    /// The animation runs at 15 frames per second.
    ReduceTo15Fps,
    /// The animation runs at 10 frames per second.
    ReduceTo10Fps,
    /// The animation runs at 5 frames per second.
    ReduceTo5Fps,
}

impl OnBatteryAction {
    /// The reduced frame rate of this action, if it has one.
    pub open spec fn spec_frame_rate(&self) -> Option<u8> {
        match self {
            OnBatteryAction::Nothing => None,
            OnBatteryAction::Pause => None,
            OnBatteryAction::ReduceTo15Fps => Some(15u8),
            OnBatteryAction::ReduceTo10Fps => Some(10u8),
            OnBatteryAction::ReduceTo5Fps => Some(5u8),
        }
    }

    /// The frame rate this action reduces an animation to; `None` for the
    /// actions that pause or change nothing.
    #[must_use]
    #[verifier::when_used_as_spec(spec_frame_rate)]
    pub fn frame_rate(&self) -> (r: Option<u8>)
        ensures
            r == self.spec_frame_rate(),
    {
        match self {
            OnBatteryAction::Nothing => None,
            OnBatteryAction::Pause => None,
            OnBatteryAction::ReduceTo15Fps => Some(15),
            OnBatteryAction::ReduceTo10Fps => Some(10),
            OnBatteryAction::ReduceTo5Fps => Some(5),
        }
    }

    /// Whether this action stops the animation.
    #[must_use]
    pub fn should_pause(&self) -> (r: bool)
        ensures
            r == (*self == OnBatteryAction::Pause),
    {
        match self {
            OnBatteryAction::Pause => true,
            _ => false,
        }
    }

    /// Whether this action leaves the animation as it is.
    #[must_use]
    pub fn is_nothing(&self) -> (r: bool)
        ensures
            r == (*self == OnBatteryAction::Nothing),
    {
        match self {
            OnBatteryAction::Nothing => true,
            _ => false,
        }
    }
}

impl Default for OnBatteryAction {
    fn default() -> (r: Self)
        ensures
            r == OnBatteryAction::Nothing,
    {
        OnBatteryAction::Nothing
    }
}

/// The power-saving settings.
#[derive(Debug, Clone, Copy, PartialEq, Eq, Structural)]
pub struct PowerSavingConfig {
    /// Pause while an application is fullscreen.
    pub pause_on_fullscreen: bool,
    /// Pause while windows cover the background.
    pub pause_on_covered: bool,
    /// Covered share, in percent, from which `pause_on_covered` applies.
    pub coverage_threshold: u8,
    /// Adjust the animation while on battery.
    pub adjust_on_battery: bool,
    /// What to do while on battery.
    pub on_battery_action: OnBatteryAction,
    /// Pause while the battery is at or below `low_battery_threshold`.
    pub pause_on_low_battery: bool,
    /// Battery level in percent.
    pub low_battery_threshold: u8,
    /// Pause while the lid is closed.
    pub pause_on_lid_closed: bool,
}

impl PowerSavingConfig {
    /// The settings of a fresh installation: pausing on low battery (at 20
    /// percent) and on a closed lid are on, the other switches are off. The
    /// action for running on battery is to pause, once adjusting on battery
    /// is switched on.
    pub open spec fn spec_default() -> PowerSavingConfig {
        PowerSavingConfig {
            pause_on_fullscreen: false,
            pause_on_covered: false,
            coverage_threshold: 90,
            adjust_on_battery: false,
            on_battery_action: OnBatteryAction::Pause,
            pause_on_low_battery: true,
            low_battery_threshold: 20,
            pause_on_lid_closed: true,
        }
    }

    /// The settings that a store with the given entries stands for: each
    /// entry's value, or that setting's fallback where the entry is missing.
    pub open spec fn from_entries(entries: PowerSavingEntries) -> PowerSavingConfig {
        PowerSavingConfig {
            pause_on_fullscreen: entries.pause_on_fullscreen.unwrap_or(false),
            pause_on_covered: entries.pause_on_covered.unwrap_or(false),
            coverage_threshold: entries.coverage_threshold.unwrap_or(90),
            adjust_on_battery: entries.adjust_on_battery.unwrap_or(false),
            on_battery_action: entries.on_battery_action.unwrap_or(OnBatteryAction::Nothing),
            pause_on_low_battery: entries.pause_on_low_battery.unwrap_or(true),
            low_battery_threshold: entries.low_battery_threshold.unwrap_or(20),
            pause_on_lid_closed: entries.pause_on_lid_closed.unwrap_or(true),
        }
    }

    /// The entries that hold exactly these settings.
    pub open spec fn to_entries(self) -> PowerSavingEntries {
        PowerSavingEntries {
            pause_on_fullscreen: Some(self.pause_on_fullscreen),
            pause_on_covered: Some(self.pause_on_covered),
            coverage_threshold: Some(self.coverage_threshold),
            adjust_on_battery: Some(self.adjust_on_battery),
            on_battery_action: Some(self.on_battery_action),
            pause_on_low_battery: Some(self.pause_on_low_battery),
            low_battery_threshold: Some(self.low_battery_threshold),
            pause_on_lid_closed: Some(self.pause_on_lid_closed),
        }
    }

    /// Reads the settings from a store.
    pub fn load(context: &Context) -> (r: Self)
        ensures
            r == Self::from_entries(context@.power),
    {
        PowerSavingConfig {
            pause_on_fullscreen: context.pause_on_fullscreen(),
            pause_on_covered: context.pause_on_covered(),
            coverage_threshold: context.coverage_threshold(),
            adjust_on_battery: context.adjust_on_battery(),
            on_battery_action: context.on_battery_action(),
            pause_on_low_battery: context.pause_on_low_battery(),
            low_battery_threshold: context.low_battery_threshold(),
            pause_on_lid_closed: context.pause_on_lid_closed(),
        }
    }

    /// Writes the settings to a store. A store that takes no writes is left as
    /// it was and its error is handed on.
    pub fn save(&self, context: &mut Context) -> (r: Result<(), ConfigError>)
        ensures
            old(context)@.writable ==> r is Ok && final(context)@ == (ContextView {
                power: self.to_entries(),
                ..old(context)@
            }),
            !old(context)@.writable ==> r == Err::<(), ConfigError>(ConfigError::NoConfigDirectory)
                && final(context)@ == old(context)@,
    {
        match context.set_pause_on_fullscreen(self.pause_on_fullscreen) {
            Ok(()) => {},
            Err(e) => {
                return Err(e);
            },
        }
        match context.set_pause_on_covered(self.pause_on_covered) {
            Ok(()) => {},
            Err(e) => {
                return Err(e);
            },
        }
        match context.set_coverage_threshold(self.coverage_threshold) {
            Ok(()) => {},
            Err(e) => {
                return Err(e);
            },
        }
        match context.set_adjust_on_battery(self.adjust_on_battery) {
            Ok(()) => {},
            Err(e) => {
                return Err(e);
            },
        }
        match context.set_on_battery_action(self.on_battery_action) {
            Ok(()) => {},
            Err(e) => {
                return Err(e);
            },
        }
        match context.set_pause_on_low_battery(self.pause_on_low_battery) {
            Ok(()) => {},
            Err(e) => {
                return Err(e);
            },
        }
        match context.set_low_battery_threshold(self.low_battery_threshold) {
            Ok(()) => {},
            Err(e) => {
                return Err(e);
            },
        }
        match context.set_pause_on_lid_closed(self.pause_on_lid_closed) {
            Ok(()) => {},
            Err(e) => {
                return Err(e);
            },
        }
        Ok(())
    }
}

impl Default for PowerSavingConfig {
    fn default() -> (r: Self)
        ensures
            r == PowerSavingConfig::spec_default(),
    {
        PowerSavingConfig {
            pause_on_fullscreen: false,
            pause_on_covered: false,
            coverage_threshold: 90,
            adjust_on_battery: false,
            on_battery_action: OnBatteryAction::Pause,
            pause_on_low_battery: true,
            low_battery_threshold: 20,
            pause_on_lid_closed: true,
        }
    }
}

/// Saving settings to a writable store and loading them again gives the same
/// settings back, and saving what was loaded changes nothing in the store.
pub proof fn lemma_save_load_round_trip(context: ContextView, config: PowerSavingConfig)
    ensures
        PowerSavingConfig::from_entries(config.to_entries()) == config,
        PowerSavingConfig::from_entries(config.to_entries()).to_entries() == config.to_entries(),
        (ContextView {
            power: PowerSavingConfig::from_entries(config.to_entries()).to_entries(),
            ..(ContextView { power: config.to_entries(), ..context })
        }) == (ContextView { power: config.to_entries(), ..context }),
{
}

} // verus!
