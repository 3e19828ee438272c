//! What is known of the battery, and what a bar shows of it.

use vstd::prelude::*;
use crate::color::{Color, ColorValue};
use crate::gradient::colors_at;
use crate::level::{Level, FULL};
use crate::theme::{ChargeState, Theme};

verus! {

/// The states that a power service reports of a battery.
#[derive(Copy, Clone, Debug, PartialEq, Eq, Structural)]
pub enum BatteryState {
    Unknown,
    Charging,
    Discharging,
    Empty,
    FullyCharged,
    PendingCharge,
    PendingDischarge,
}

/// A reading of the battery: its level, what it is doing, and the seconds
/// until it is full or empty.
#[derive(Copy, Clone, Debug, PartialEq, Eq)]
pub struct PowerState {
    pub level: Level,
    pub state: ChargeState,
    pub time_remaining: i64,
}

/// The state of charge that a reported state counts as: a battery that
/// neither charges nor discharges, or of which nothing is known, has no
/// charge going; one that waits to discharge counts as discharging.
pub open spec fn charge_state_of(battery: BatteryState) -> ChargeState {
    match battery {
        BatteryState::Charging => ChargeState::Charging,
        BatteryState::Discharging => ChargeState::Discharging,
        BatteryState::PendingDischarge => ChargeState::Discharging,
        _ => ChargeState::NoCharge,
    }
}

/// The foreground shown while nothing is known of the battery: a light blue.
pub open spec fn neutral_fg() -> ColorValue {
    ColorValue { l: 614_123, a: -50_369, b: -205_302, alpha: 1_000_000 }
}

/// The background shown while nothing is known of the battery: the same
/// blue at half its lightness.
pub open spec fn neutral_bg() -> ColorValue {
    ColorValue { l: 307_062, a: -50_369, b: -205_302, alpha: 1_000_000 }
}

/// What a bar shows for `power`: the level and the theme's colours for it,
/// and a half-filled bar in the neutral colours while there is no reading.
pub open spec fn shown(theme: crate::theme::ThemeValue, power: Option<PowerState>) -> (
    int,
    ColorValue,
    ColorValue,
) {
    match power {
        Some(power) => {
            let colors = colors_at(theme.section(power.state), power.level@);
            (power.level@, colors.0, colors.1)
        },
        None => (FULL as int / 2, neutral_fg(), neutral_bg()),
    }
}

/// The level that the made-up battery has after `tick` steps: it climbs by
/// one 512th a step and starts again from empty after 511 steps.
pub open spec fn mock_level(tick: u32) -> int {
    ((tick % 511) * FULL) / 512
}

impl ChargeState {
    /// The state of charge that a reported state counts as.
    pub fn from_battery(battery: BatteryState) -> (state: ChargeState)
        ensures
            state == charge_state_of(battery),
    {
        match battery {
            BatteryState::Unknown => ChargeState::NoCharge,
            BatteryState::Charging => ChargeState::Charging,
            BatteryState::Discharging => ChargeState::Discharging,
            BatteryState::Empty => ChargeState::NoCharge,
            BatteryState::FullyCharged => ChargeState::NoCharge,
            BatteryState::PendingCharge => ChargeState::NoCharge,
            BatteryState::PendingDischarge => ChargeState::Discharging,
        }
    }
}

impl PowerState {
    /// The reading made of what a device reports. The time that remains is
    /// the time until full while charging, the time until empty while
    /// discharging, and nought else.
    pub fn from_device(
        level: Level,
        battery: BatteryState,
        time_to_full: i64,
        time_to_empty: i64,
    ) -> (power: PowerState)
        ensures
            power.level == level,
            power.state == charge_state_of(battery),
            power.time_remaining == (match charge_state_of(battery) {
                ChargeState::Charging => time_to_full,
                ChargeState::NoCharge => 0,
                ChargeState::Discharging => time_to_empty,
            }),
    {
        let state = ChargeState::from_battery(battery);
        PowerState {
            level,
            state,
            time_remaining: match state {
                ChargeState::Charging => time_to_full,
                ChargeState::NoCharge => 0,
                ChargeState::Discharging => time_to_empty,
            },
        }
    }

    /// The reading of the made-up battery after `tick` steps: it discharges,
    /// with no time left.
    pub fn mock(tick: u32) -> (power: PowerState)
        ensures
            power.level@ == mock_level(tick),
            power.state == ChargeState::Discharging,
            power.time_remaining == 0,
    {
        let fill: u32 = tick % 511;
        let level = Level::saturating(((fill as u64) * (FULL as u64) / 512) as u32);
        PowerState { level, state: ChargeState::Discharging, time_remaining: 0 }
    }
}

/// The colours shown while nothing is known of the battery.
pub fn neutral_colors() -> (colors: (Color, Color))
    ensures
        colors.0@ == neutral_fg(),
        colors.1@ == neutral_bg(),
        colors.1@ == crate::color::darken(colors.0@),
{
    let fg = Color::new(614_123, -50_369, -205_302, 1_000_000);
    (fg, fg.darken())
}

impl Theme {
    /// What a bar shows for `power`: the level, the foreground and the
    /// background.
    pub fn shown(&self, power: Option<PowerState>) -> (r: (Level, Color, Color))
        ensures
            (r.0@, r.1@, r.2@) == shown(self@, power),
    {
        match power {
            Some(power) => {
                let (fg, bg) = self.colors_at(power.state, power.level);
                (power.level, fg, bg)
            },
            None => {
                let (fg, bg) = neutral_colors();
                (Level::half(), fg, bg)
            },
        }
    }
}

} // verus!
