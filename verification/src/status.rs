//! The data model: the decoded status snapshot, the effect codes and the
//! input-selector codes of the device.

use vstd::prelude::*;

verus! {

/// A decoded status snapshot of the device.
///
/// The snapshot is an immutable value: it is replaced wholesale by a new
/// status read and never partially mutated.  The effect fields exist for
/// exactly three of the six inputs: the device exposes no effect state for
/// the other three over this protocol, and that asymmetry is deliberate.
#[derive(Clone, Copy, Debug, PartialEq, Eq, Structural)]
pub struct Status {
    /// Main volume in the raw device unit, 0-255.
    pub main_volume: u8,
    /// Logical input number, 1-6 (the wire carries it 0-based).
    pub input: u8,
    /// Power state: `true` means the device is in standby.
    pub standby: bool,
    /// Raw effect code for logical input 1.
    pub input_1_effect: u8,
    /// Raw effect code for logical input 2.
    pub input_2_effect: u8,
    /// Raw effect code for logical input 6.
    pub input_6_effect: u8,
}

/// One of the four effect codes the device understands.
#[derive(Clone, Copy, Debug, PartialEq, Eq, Structural)]
pub enum Effect {
    /// 3D surround, wire code 0x14.
    ThreeD,
    /// 4.1 channels, wire code 0x15.
    FourOne,
    /// 2.1 channels, wire code 0x16.
    TwoOne,
    /// Effects disabled, wire code 0x35.
    Disabled,
}

/// The wire byte for an effect.
pub open spec fn spec_effect_code(e: Effect) -> u8 {
    match e {
        Effect::ThreeD => 0x14,
        Effect::FourOne => 0x15,
        Effect::TwoOne => 0x16,
        Effect::Disabled => 0x35,
    }
}

/// The effect a wire byte stands for, if any.
pub open spec fn spec_effect_from_code(c: u8) -> Option<Effect> {
    if c == 0x14 {
        Some(Effect::ThreeD)
    } else if c == 0x15 {
        Some(Effect::FourOne)
    } else if c == 0x16 {
        Some(Effect::TwoOne)
    } else if c == 0x35 {
        Some(Effect::Disabled)
    } else {
        None
    }
}

impl Effect {
    /// The wire byte for this effect.
    pub fn code(&self) -> (c: u8)
        ensures
            c == spec_effect_code(*self),
    {
        match self {
            Effect::ThreeD => 0x14,
            Effect::FourOne => 0x15,
            Effect::TwoOne => 0x16,
            Effect::Disabled => 0x35,
        }
    }

    /// The effect a wire byte stands for, if any.
    pub fn from_code(c: u8) -> (r: Option<Effect>)
        ensures
            r == spec_effect_from_code(c),
    {
        if c == 0x14 {
            Some(Effect::ThreeD)
        } else if c == 0x15 {
            Some(Effect::FourOne)
        } else if c == 0x16 {
            Some(Effect::TwoOne)
        } else if c == 0x35 {
            Some(Effect::Disabled)
        } else {
            None
        }
    }
}

/// Encoding an effect and reading the byte back yields the same effect.
pub proof fn lemma_effect_code_round_trip(e: Effect)
    ensures
        spec_effect_from_code(spec_effect_code(e)) == Some(e),
{
}

/// The known input-selector codes; more exist on the wire and can be added
/// as they become known.
#[derive(Clone, Copy, Debug, PartialEq, Eq, Structural)]
pub enum Input {
    /// The 3.5 mm six-channel input, wire code 0x02.
    Input3_5mm,
    /// The RCA input, wire code 0x05.
    InputRCA,
}

/// The wire byte for an input selector.
pub open spec fn spec_input_code(i: Input) -> u8 {
    match i {
        Input::Input3_5mm => 0x02,
        Input::InputRCA => 0x05,
    }
}

impl Input {
    /// The wire byte for this input selector.
    pub fn code(&self) -> (c: u8)
        ensures
            c == spec_input_code(*self),
    {
        match self {
            Input::Input3_5mm => 0x02,
            Input::InputRCA => 0x05,
        }
    }
}

} // verus!
