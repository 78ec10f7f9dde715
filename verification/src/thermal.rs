//! Classification of raw thermal state codes into named pressure levels.

use vstd::prelude::*;

verus! {

/// A discrete thermal-pressure level reported by the platform.
///
/// The five named variants cover the recognized state codes 0 through 4;
/// any other code is carried through as `Unknown` with its raw value.
#[derive(Clone, Copy, Debug, PartialEq, Eq, Structural)]
pub enum ThermalPressure {
    Nominal,
    Moderate,
    Heavy,
    Trapping,
    Sleeping,
    Unknown(u64),
}

/// The level a raw state code classifies to.
pub open spec fn classify(state: u64) -> ThermalPressure {
    if state == 0 {
        ThermalPressure::Nominal
    } else if state == 1 {
        ThermalPressure::Moderate
    } else if state == 2 {
        ThermalPressure::Heavy
    } else if state == 3 {
        ThermalPressure::Trapping
    } else if state == 4 {
        ThermalPressure::Sleeping
    } else {
        ThermalPressure::Unknown(state)
    }
}

/// The severity ordinal of a level: 0 through 4 for the named variants,
/// the raw value for `Unknown`.
pub open spec fn ordinal(p: ThermalPressure) -> u64 {
    match p {
        ThermalPressure::Nominal => 0,
        ThermalPressure::Moderate => 1,
        ThermalPressure::Heavy => 2,
        ThermalPressure::Trapping => 3,
        ThermalPressure::Sleeping => 4,
        ThermalPressure::Unknown(n) => n,
    }
}

impl ThermalPressure {
    /// Classifies a raw state code. Total: every code maps to a level.
    pub fn from_state(state: u64) -> (p: Self)
        ensures
            p == classify(state),
    {
        match state {
            0 => Self::Nominal,
            1 => Self::Moderate,
            2 => Self::Heavy,
            3 => Self::Trapping,
            4 => Self::Sleeping,
            n => Self::Unknown(n),
        }
    }

    /// The severity ordinal of this level.
    pub fn level(self) -> (n: u64)
        ensures
            n == ordinal(self),
    {
        match self {
            Self::Nominal => 0,
            Self::Moderate => 1,
            Self::Heavy => 2,
            Self::Trapping => 3,
            Self::Sleeping => 4,
            Self::Unknown(n) => n,
        }
    }

    /// Whether the system is throttling at this level: every level but
    /// `Nominal`, including `Unknown` for any raw value.
    pub fn is_throttled(self) -> (b: bool)
        ensures
            b == !(self is Nominal),
    {
        !matches!(self, Self::Nominal)
    }

    /// A fixed one-sentence description of this level.
    pub fn description(self) -> (s: &'static str)
        ensures
            s@ == description_of(self),
    {
        match self {
            Self::Nominal => "No thermal pressure",
            Self::Moderate => "System may reduce performance",
            Self::Heavy => "System is actively throttling",
            Self::Trapping => "Critical thermal pressure, system is severely throttled",
            Self::Sleeping => "Extreme thermal pressure, system may sleep to cool down",
            Self::Unknown(_) => "Unknown thermal pressure level",
        }
    }
}

/// The description text owed for each level.
pub open spec fn description_of(p: ThermalPressure) -> Seq<char> {
    match p {
        ThermalPressure::Nominal => "No thermal pressure"@,
        ThermalPressure::Moderate => "System may reduce performance"@,
        ThermalPressure::Heavy => "System is actively throttling"@,
        ThermalPressure::Trapping => "Critical thermal pressure, system is severely throttled"@,
        ThermalPressure::Sleeping => "Extreme thermal pressure, system may sleep to cool down"@,
        ThermalPressure::Unknown(_) => "Unknown thermal pressure level"@,
    }
}

/// Every recognized code classifies to its named variant, every other code
/// to `Unknown` carrying the code itself, whose ordinal is that code.
pub proof fn lemma_classify_total(state: u64)
    ensures
        state == 0 ==> classify(state) == ThermalPressure::Nominal,
        state == 1 ==> classify(state) == ThermalPressure::Moderate,
        state == 2 ==> classify(state) == ThermalPressure::Heavy,
        state == 3 ==> classify(state) == ThermalPressure::Trapping,
        state == 4 ==> classify(state) == ThermalPressure::Sleeping,
        state > 4 ==> classify(state) == ThermalPressure::Unknown(state),
        state > 4 ==> ordinal(classify(state)) == state,
{
}

/// A level is throttled exactly when it is not `Nominal`; `Unknown` counts
/// as throttled for every raw value.
pub proof fn lemma_throttled_iff_not_nominal(p: ThermalPressure)
    ensures
        !(p is Nominal) <==> !(p == ThermalPressure::Nominal),
        (p is Unknown) ==> !(p is Nominal),
{
}

} // verus!
