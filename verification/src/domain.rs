//! Plain domain enums shared by the engine.

use vstd::prelude::*;

verus! {

/// Scheduled macro-economic release classes, each carried on the wire as a
/// small numeric code.
#[derive(Copy, Clone, Debug, PartialEq, Eq, Structural, Hash)]
pub enum MacroEventClass {
    Cpi,
    CoreCpi,
    Ppi,
    Nfp,
    UnemploymentRate,
    CorePce,
    GdpAdvance,
    FomcRateDecision,
    PowellPressConference,
}

/// The numeric wire code of a class (1 through 9, in declaration order).
pub open spec fn class_code(c: MacroEventClass) -> u16 {
    match c {
        MacroEventClass::Cpi => 1,
        MacroEventClass::CoreCpi => 2,
        MacroEventClass::Ppi => 3,
        MacroEventClass::Nfp => 4,
        MacroEventClass::UnemploymentRate => 5,
        MacroEventClass::CorePce => 6,
        MacroEventClass::GdpAdvance => 7,
        MacroEventClass::FomcRateDecision => 8,
        MacroEventClass::PowellPressConference => 9,
    }
}

/// The class carried by a wire code, if the code is one of the nine known ones.
pub open spec fn class_of_code(value: u16) -> Option<MacroEventClass> {
    if value == 1 {
        Some(MacroEventClass::Cpi)
    } else if value == 2 {
        Some(MacroEventClass::CoreCpi)
    } else if value == 3 {
        Some(MacroEventClass::Ppi)
    } else if value == 4 {
        Some(MacroEventClass::Nfp)
    } else if value == 5 {
        Some(MacroEventClass::UnemploymentRate)
    } else if value == 6 {
        Some(MacroEventClass::CorePce)
    } else if value == 7 {
        Some(MacroEventClass::GdpAdvance)
    } else if value == 8 {
        Some(MacroEventClass::FomcRateDecision)
    } else if value == 9 {
        Some(MacroEventClass::PowellPressConference)
    } else {
        None
    }
}

impl MacroEventClass {
    /// Decodes a wire code; unknown codes give `None`.
    pub fn from_code(value: u16) -> (r: Option<Self>)
        ensures
            r == class_of_code(value),
            r is Some <==> 1 <= value <= 9,
    {
        match value {
            1 => Some(Self::Cpi),
            2 => Some(Self::CoreCpi),
            3 => Some(Self::Ppi),
            4 => Some(Self::Nfp),
            5 => Some(Self::UnemploymentRate),
            6 => Some(Self::CorePce),
            7 => Some(Self::GdpAdvance),
            8 => Some(Self::FomcRateDecision),
            9 => Some(Self::PowellPressConference),
            _ => None,
        }
    }

    /// The wire code of this class.
    pub fn code(self) -> (r: u16)
        ensures
            r == class_code(self),
            1 <= r <= 9,
    {
        match self {
            Self::Cpi => 1,
            Self::CoreCpi => 2,
            Self::Ppi => 3,
            Self::Nfp => 4,
            Self::UnemploymentRate => 5,
            Self::CorePce => 6,
            Self::GdpAdvance => 7,
            Self::FomcRateDecision => 8,
            Self::PowellPressConference => 9,
        }
    }
}

/// Decoding the code of any class gives that class back.
pub proof fn lemma_code_round_trip(c: MacroEventClass)
    ensures
        class_of_code(class_code(c)) == Some(c),
{
}

/// Every code that decodes encodes back to itself, so distinct known codes
/// name distinct classes.
pub proof fn lemma_decode_then_encode(value: u16)
    ensures
        class_of_code(value) matches Some(c) ==> class_code(c) == value,
{
}

/// Whether realised volatility is in its normal band or elevated.
#[derive(Copy, Clone, Debug, PartialEq, Eq, Structural)]
pub enum VolatilityRegime {
    Normal,
    High,
}

/// Whether the engine may open new positions.
#[derive(Copy, Clone, Debug, PartialEq, Eq, Structural)]
pub enum SystemMode {
    Active,
    Halted,
}

/// The wire codes run from 1 to 9 in declaration order.
pub proof fn lemma_code_table()
    ensures
        class_code(MacroEventClass::Cpi) == 1,
        class_code(MacroEventClass::CoreCpi) == 2,
        class_code(MacroEventClass::Ppi) == 3,
        class_code(MacroEventClass::Nfp) == 4,
        class_code(MacroEventClass::UnemploymentRate) == 5,
        class_code(MacroEventClass::CorePce) == 6,
        class_code(MacroEventClass::GdpAdvance) == 7,
        class_code(MacroEventClass::FomcRateDecision) == 8,
        class_code(MacroEventClass::PowellPressConference) == 9,
{
}

} // verus!
