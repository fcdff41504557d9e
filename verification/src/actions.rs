//! The inbound action set: the strings a front end may send and their
//! mapping onto the protocol's operations.

use vstd::prelude::*;
use vstd::string::StrSliceExecFns;

use crate::codec::Command;
use crate::errors::AmpError;
use crate::status::{Effect, Input};

verus! {

/// A named action a front end may request.
///
/// `Mute` is carried for completeness: it has no known wire command, and
/// applying it yields an explicit unsupported-operation error rather than a
/// silent success.
#[derive(Clone, Copy, Debug, PartialEq, Eq, Structural)]
pub enum Action {
    VolumeUp,
    VolumeDown,
    TurnOn,
    TurnOff,
    Mute,
    Effect3d,
    Effect2_1,
    Effect4_1,
    EffectDisabled,
    SelectInput3_5mm,
    SelectInputRca,
}

/// The action an inbound string names, or `UnknownAction` for a string
/// outside the known set.
pub open spec fn spec_parse_action(s: Seq<char>) -> Result<Action, AmpError> {
    if s == "volume_up"@ {
        Ok(Action::VolumeUp)
    } else if s == "volume_down"@ {
        Ok(Action::VolumeDown)
    } else if s == "turn_on"@ {
        Ok(Action::TurnOn)
    } else if s == "turn_off"@ {
        Ok(Action::TurnOff)
    } else if s == "mute"@ {
        Ok(Action::Mute)
    } else if s == "effect_3d"@ {
        Ok(Action::Effect3d)
    } else if s == "effect_2_1"@ {
        Ok(Action::Effect2_1)
    } else if s == "effect_4_1"@ {
        Ok(Action::Effect4_1)
    } else if s == "effect_disabled"@ {
        Ok(Action::EffectDisabled)
    } else if s == "select_input_3_5mm"@ {
        Ok(Action::SelectInput3_5mm)
    } else if s == "select_input_rca"@ {
        Ok(Action::SelectInputRca)
    } else {
        Err(AmpError::UnknownAction)
    }
}

/// The protocol command an action runs; `mute` has none.
pub open spec fn spec_command_of(a: Action) -> Option<Command> {
    match a {
        Action::VolumeUp => Some(Command::VolumeUp),
        Action::VolumeDown => Some(Command::VolumeDown),
        Action::TurnOn => Some(Command::TurnOn),
        Action::TurnOff => Some(Command::TurnOff),
        Action::Mute => None,
        Action::Effect3d => Some(Command::SelectEffect(Effect::ThreeD)),
        Action::Effect2_1 => Some(Command::SelectEffect(Effect::TwoOne)),
        Action::Effect4_1 => Some(Command::SelectEffect(Effect::FourOne)),
        Action::EffectDisabled => Some(Command::SelectEffect(Effect::Disabled)),
        Action::SelectInput3_5mm => Some(Command::SelectInput(Input::Input3_5mm)),
        Action::SelectInputRca => Some(Command::SelectInput(Input::InputRCA)),
    }
}

/// Character-wise string equality.
fn str_eq(a: &str, b: &str) -> (r: bool)
    ensures
        r <==> a@ == b@,
{
    let n = a.unicode_len();
    let m = b.unicode_len();
    if n != m {
        return false;
    }
    let mut i: usize = 0;
    while i < n
        invariant
            n == a@.len(),
            n == b@.len(),
            i <= n,
            forall|j: int| 0 <= j < i ==> a@[j] == b@[j],
        decreases n - i,
    {
        if a.get_char(i) != b.get_char(i) {
            return false;
        }
        i += 1;
    }
    proof {
        assert(a@ =~= b@);
    }
    true
}

/// Parse an inbound action string.
///
/// Exactly the strings of the known action set are accepted; anything else
/// is an `UnknownAction` error, never an abort.
pub fn parse_action(s: &str) -> (r: Result<Action, AmpError>)
    ensures
        r == spec_parse_action(s@),
{
    if str_eq(s, "volume_up") {
        Ok(Action::VolumeUp)
    } else if str_eq(s, "volume_down") {
        Ok(Action::VolumeDown)
    } else if str_eq(s, "turn_on") {
        Ok(Action::TurnOn)
    } else if str_eq(s, "turn_off") {
        Ok(Action::TurnOff)
    } else if str_eq(s, "mute") {
        Ok(Action::Mute)
    } else if str_eq(s, "effect_3d") {
        Ok(Action::Effect3d)
    } else if str_eq(s, "effect_2_1") {
        Ok(Action::Effect2_1)
    } else if str_eq(s, "effect_4_1") {
        Ok(Action::Effect4_1)
    } else if str_eq(s, "effect_disabled") {
        Ok(Action::EffectDisabled)
    } else if str_eq(s, "select_input_3_5mm") {
        Ok(Action::SelectInput3_5mm)
    } else if str_eq(s, "select_input_rca") {
        Ok(Action::SelectInputRca)
    } else {
        Err(AmpError::UnknownAction)
    }
}

} // verus!
