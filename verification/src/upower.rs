//! The power state of the machine, and what it means for animations.

use vstd::prelude::*;

use crate::power_saving::{OnBatteryAction, PowerSavingConfig};

verus! {

/// A snapshot of the power state.
#[derive(Debug, Clone, Copy, PartialEq, Eq)]
pub struct PowerState {
    /// Whether the machine runs on battery.
    pub on_battery: bool,
    /// The battery level in percent, rounded up to a whole number; `None`
    /// without a battery, and where the level is no number. A level is at or
    /// below a whole threshold exactly when its rounded-up value is.
    pub battery_percentage: Option<u16>,
    /// Whether the lid is closed; `false` without a lid.
    pub lid_is_closed: bool,
}

/// One change that the power service reports.
#[derive(Debug, Clone, Copy, PartialEq, Eq)]
pub enum PowerChange {
    OnBattery(bool),
    LidIsClosed(bool),
    /// The battery level in percent, rounded up; `None` where what the
    /// service reports is no number.
    Percentage(Option<u16>),
}

impl PowerState {
    /// The state that holds until the power service says otherwise, and for
    /// good where there is none: on mains, no battery, lid open.
    pub open spec fn spec_default() -> PowerState {
        PowerState { on_battery: false, battery_percentage: None, lid_is_closed: false }
    }

    /// The state after a change.
    pub open spec fn changed(self, change: PowerChange) -> PowerState {
        match change {
            PowerChange::OnBattery(on_battery) => PowerState { on_battery, ..self },
            PowerChange::LidIsClosed(lid_is_closed) => PowerState { lid_is_closed, ..self },
            PowerChange::Percentage(percentage) => PowerState {
                battery_percentage: percentage,
                ..self
            },
        }
    }

    /// The first snapshot, from what the power service answered: a property
    /// it did not answer for counts as `false`, a battery level it did not
    /// answer for as no battery.
    pub fn initial(
        on_battery: Option<bool>,
        lid_is_closed: Option<bool>,
        battery_percentage: Option<u16>,
    ) -> (r: Self)
        ensures
            r == (PowerState {
                on_battery: on_battery.unwrap_or(false),
                battery_percentage,
                lid_is_closed: lid_is_closed.unwrap_or(false),
            }),
    {
        PowerState {
            on_battery: match on_battery {
                Some(v) => v,
                None => false,
            },
            battery_percentage,
            lid_is_closed: match lid_is_closed {
                Some(v) => v,
                None => false,
            },
        }
    }

    /// Takes a change into the snapshot.
    pub fn apply(&mut self, change: PowerChange)
        ensures
            *final(self) == old(self).changed(change),
    {
        match change {
            PowerChange::OnBattery(on_battery) => {
                self.on_battery = on_battery;
            },
            PowerChange::LidIsClosed(lid_is_closed) => {
                self.lid_is_closed = lid_is_closed;
            },
            PowerChange::Percentage(percentage) => {
                self.battery_percentage = percentage;
            },
        }
    }
}

impl Default for PowerState {
    fn default() -> (r: Self)
        ensures
            r == PowerState::spec_default(),
    {
        PowerState { on_battery: false, battery_percentage: None, lid_is_closed: false }
    }
}

/// Whether animations pause in power state `power` under the settings
/// `config`: the lid is closed and that pauses; or the battery is known to
/// be at or below the low-battery threshold and that pauses; or animations
/// are adjusted on battery, the machine is on battery and the action for
/// that is to pause. Without a power monitor nothing pauses.
pub open spec fn pauses(power: Option<PowerState>, config: PowerSavingConfig) -> bool {
    match power {
        None => false,
        Some(state) => {
            ||| config.pause_on_lid_closed && state.lid_is_closed
            ||| config.pause_on_low_battery && state.battery_percentage is Some
                && state.battery_percentage->Some_0 <= config.low_battery_threshold
            ||| config.adjust_on_battery && state.on_battery && config.on_battery_action
                == OnBatteryAction::Pause
        },
    }
}

/// The frame rate that power saving imposes: that of the action for running
/// on battery, while animations are adjusted on battery and the machine is
/// on battery; none otherwise, and none without a power monitor.
pub open spec fn imposed_frame_rate(power: Option<PowerState>, config: PowerSavingConfig) -> Option<
    u8,
> {
    match power {
        None => None,
        Some(state) => if config.adjust_on_battery && state.on_battery {
            config.on_battery_action.spec_frame_rate()
        } else {
            None
        },
    }
}

/// With the settings of a fresh installation, a machine on battery with the
/// lid open and the battery above 20 percent, or without a known level,
/// pauses nothing and slows nothing down.
pub proof fn lemma_default_settings_leave_battery_alone(state: PowerState)
    requires
        !state.lid_is_closed,
        state.battery_percentage matches Some(level) ==> level > 20,
    ensures
        !pauses(Some(state), PowerSavingConfig::spec_default()),
        imposed_frame_rate(Some(state), PowerSavingConfig::spec_default()) is None,
{
}

/// Executable form of [`pauses`].
pub fn should_pause_animation(power: &Option<PowerState>, config: &PowerSavingConfig) -> (r: bool)
    ensures
        r == pauses(*power, *config),
{
    let state = match power {
        Some(state) => state,
        None => {
            return false;
        },
    };
    if config.pause_on_lid_closed && state.lid_is_closed {
        return true;
    }
    if config.pause_on_low_battery {
        match state.battery_percentage {
            Some(percentage) => {
                if percentage <= config.low_battery_threshold as u16 {
                    return true;
                }
            },
            None => {},
        }
    }
    config.adjust_on_battery && state.on_battery && config.on_battery_action.should_pause()
}

/// Executable form of [`imposed_frame_rate`].
pub fn effective_frame_rate(power: &Option<PowerState>, config: &PowerSavingConfig) -> (r: Option<
    u8,
>)
    ensures
        r == imposed_frame_rate(*power, *config),
{
    match power {
        Some(state) => {
            if config.adjust_on_battery && state.on_battery {
                config.on_battery_action.frame_rate()
            } else {
                None
            }
        },
        None => None,
    }
}

} // verus!
