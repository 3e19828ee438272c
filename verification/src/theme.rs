//! Themes: one gradient for each state of charge.

use vstd::prelude::*;
use crate::color::{Color, ColorValue};
use crate::gradient::{
    colors_at, colors_between, levels_valid, sort_by_level, sort_stops, sorted, values,
    GradientStop, StopValue,
};
use crate::level::Level;

verus! {

/// What the battery is doing.
#[derive(Copy, Clone, Debug, PartialEq, Eq, Structural)]
pub enum ChargeState {
    Charging,
    NoCharge,
    Discharging,
}

/// Why a theme could not be made of a document. Lines are counted from one.
#[derive(Copy, Clone, Debug, PartialEq, Eq, Structural)]
pub enum ThemeError {
    /// A heading in brackets that names no state of charge.
    InvalidSection { line: usize },
    /// A stop before the first heading.
    StopOutsideSection { line: usize },
    /// A line that is no percentage followed by one or two colour values.
    InvalidStop { line: usize },
    /// A stop with a colour value that cannot be used.
    UnsupportedColor { line: usize },
    /// A state of charge without a single stop.
    EmptySection { state: ChargeState },
}

impl ThemeError {
    /// The line that the error is about, for the errors that are about one.
    pub open spec fn spec_line(&self) -> Option<usize> {
        match *self {
            ThemeError::InvalidSection { line } => Some(line),
            ThemeError::StopOutsideSection { line } => Some(line),
            ThemeError::InvalidStop { line } => Some(line),
            ThemeError::UnsupportedColor { line } => Some(line),
            ThemeError::EmptySection { .. } => None,
        }
    }

    /// The line that the error is about, for the errors that are about one.
    #[verifier::when_used_as_spec(spec_line)]
    pub fn line(&self) -> (line: Option<usize>)
        ensures
            line == self.spec_line(),
    {
        match self {
            ThemeError::InvalidSection { line } => Some(*line),
            ThemeError::StopOutsideSection { line } => Some(*line),
            ThemeError::InvalidStop { line } => Some(*line),
            ThemeError::UnsupportedColor { line } => Some(*line),
            ThemeError::EmptySection { .. } => None,
        }
    }
}

/// The mathematical value of a theme: its three gradients.
pub struct ThemeValue {
    pub charging: Seq<StopValue>,
    pub no_charge: Seq<StopValue>,
    pub discharging: Seq<StopValue>,
}

impl ThemeValue {
    /// The gradient for `state`.
    pub open spec fn section(self, state: ChargeState) -> Seq<StopValue> {
        match state {
            ChargeState::Charging => self.charging,
            ChargeState::NoCharge => self.no_charge,
            ChargeState::Discharging => self.discharging,
        }
    }

    /// Whether each gradient has a stop, holds levels only, and is sorted.
    pub open spec fn wf(self) -> bool {
        forall|state: ChargeState|
            {
                &&& (#[trigger] self.section(state)).len() > 0
                &&& levels_valid(self.section(state))
                &&& sorted(self.section(state))
            }
    }
}

/// The theme made of three bags of stops: each sorted, unless one is empty.
/// The states are looked at in the order charging, no charge, discharging.
pub open spec fn assemble(
    charging: Seq<StopValue>,
    no_charge: Seq<StopValue>,
    discharging: Seq<StopValue>,
) -> Result<ThemeValue, ThemeError> {
    if charging.len() == 0 {
        Err(ThemeError::EmptySection { state: ChargeState::Charging })
    } else if no_charge.len() == 0 {
        Err(ThemeError::EmptySection { state: ChargeState::NoCharge })
    } else if discharging.len() == 0 {
        Err(ThemeError::EmptySection { state: ChargeState::Discharging })
    } else {
        Ok(
            ThemeValue {
                charging: sort_stops(charging),
                no_charge: sort_stops(no_charge),
                discharging: sort_stops(discharging),
            },
        )
    }
}

/// A theme: for each state of charge a gradient with at least one stop,
/// sorted by level.
#[derive(Debug)]
pub struct Theme {
    pub(crate) discharging: Vec<GradientStop>,
    pub(crate) no_charge: Vec<GradientStop>,
    pub(crate) charging: Vec<GradientStop>,
}

impl View for Theme {
    type V = ThemeValue;

    open(crate) spec fn view(&self) -> ThemeValue {
        ThemeValue {
            charging: values(self.charging@),
            no_charge: values(self.no_charge@),
            discharging: values(self.discharging@),
        }
    }
}

impl Clone for Theme {
    fn clone(&self) -> (copy: Theme)
        ensures
            copy@ == self@,
    {
        proof {
            use_type_invariant(self);
        }
        let copy = Theme {
            discharging: self.discharging.clone(),
            no_charge: self.no_charge.clone(),
            charging: self.charging.clone(),
        };
        assert(copy.charging@ =~= self.charging@);
        assert(copy.no_charge@ =~= self.no_charge@);
        assert(copy.discharging@ =~= self.discharging@);
        copy
    }
}

impl Theme {
    /// Every theme is well formed.
    #[verifier::type_invariant]
    pub open(crate) spec fn wf(self) -> bool {
        self@.wf()
    }

    /// The theme with these stops for the three states, whatever order they
    /// come in; an error names the first state that has none.
    pub fn from_sections(
        charging: Vec<GradientStop>,
        no_charge: Vec<GradientStop>,
        discharging: Vec<GradientStop>,
    ) -> (r: Result<Theme, ThemeError>)
        ensures
            match r {
                Ok(theme) => theme@.wf() && assemble(
                    values(charging@),
                    values(no_charge@),
                    values(discharging@),
                ) == Ok::<ThemeValue, ThemeError>(theme@),
                Err(e) => assemble(values(charging@), values(no_charge@), values(discharging@))
                    == Err::<ThemeValue, ThemeError>(e),
            },
    {
        if charging.len() == 0 {
            return Err(ThemeError::EmptySection { state: ChargeState::Charging });
        }
        if no_charge.len() == 0 {
            return Err(ThemeError::EmptySection { state: ChargeState::NoCharge });
        }
        if discharging.len() == 0 {
            return Err(ThemeError::EmptySection { state: ChargeState::Discharging });
        }
        let theme = Theme {
            discharging: sort_by_level(&discharging),
            no_charge: sort_by_level(&no_charge),
            charging: sort_by_level(&charging),
        };
        Ok(theme)
    }

    /// The gradient for `state`.
    pub fn section_by_name(&self, state: ChargeState) -> (section: &Vec<GradientStop>)
        ensures
            values(section@) == self@.section(state),
            section@.len() > 0,
            sorted(values(section@)),
            levels_valid(values(section@)),
    {
        proof {
            use_type_invariant(self);
            assert(self@.section(state).len() > 0);
        }
        match state {
            ChargeState::Charging => &self.charging,
            ChargeState::NoCharge => &self.no_charge,
            ChargeState::Discharging => &self.discharging,
        }
    }

    /// The foreground and the background for a battery in `state` at `level`.
    pub fn colors_at(&self, state: ChargeState, level: Level) -> (colors: (Color, Color))
        ensures
            (colors.0@, colors.1@) == colors_at(self@.section(state), level@),
    {
        let section = self.section_by_name(state);
        colors_between(section, level)
    }
}

} // verus!
