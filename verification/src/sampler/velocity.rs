use vstd::prelude::*;
use vstd::std_specs::convert::TryFromSpecImpl;

verus! {

/// Five velocity layers over the MIDI velocity range, softest first.
#[derive(Debug, Clone, Copy, PartialEq, Eq, Hash, Structural)]
pub enum Velocity {
    V1,
    V2,
    V3,
    V4,
    V5,
}

/// The error text of a value outside the MIDI velocity range.
pub open spec fn invalid_velocity_message() -> &'static str {
    "invalid value"
}

/// The layer of a MIDI velocity: 0..=25, 26..=50, 51..=80, 81..=100 and
/// 101..=127; nothing above 127.
pub open spec fn velocity_of(value: u8) -> Option<Velocity> {
    if value <= 25 {
        Some(Velocity::V1)
    } else if value <= 50 {
        Some(Velocity::V2)
    } else if value <= 80 {
        Some(Velocity::V3)
    } else if value <= 100 {
        Some(Velocity::V4)
    } else if value <= 127 {
        Some(Velocity::V5)
    } else {
        None
    }
}

/// Position of a layer, softest first.
pub open spec fn layer_rank(v: Velocity) -> int {
    match v {
        Velocity::V1 => 0,
        Velocity::V2 => 1,
        Velocity::V3 => 2,
        Velocity::V4 => 3,
        Velocity::V5 => 4,
    }
}

impl TryFrom<u8> for Velocity {
    type Error = &'static str;

    fn try_from(value: u8) -> (res: Result<Velocity, &'static str>) {
        if value <= 25 {
            Ok(Velocity::V1)
        } else if value <= 50 {
            Ok(Velocity::V2)
        } else if value <= 80 {
            Ok(Velocity::V3)
        } else if value <= 100 {
            Ok(Velocity::V4)
        } else if value <= 127 {
            Ok(Velocity::V5)
        } else {
            Err("invalid value")
        }
    }
}

impl TryFromSpecImpl<u8> for Velocity {
    open spec fn obeys_try_from_spec() -> bool {
        true
    }

    open spec fn try_from_spec(v: u8) -> Result<Velocity, &'static str> {
        match velocity_of(v) {
            Some(layer) => Ok(layer),
            None => Err(invalid_velocity_message()),
        }
    }
}

/// Every MIDI velocity (a 7-bit value) falls in a layer, and nothing else does.
pub proof fn lemma_velocity_total(value: u8)
    ensures
        velocity_of(value) is Some <==> value <= 127,
{
}

/// A louder MIDI velocity never falls in a softer layer.
pub proof fn lemma_velocity_monotone(a: u8, b: u8)
    requires
        a <= b <= 127,
    ensures
        layer_rank(velocity_of(a).unwrap()) <= layer_rank(velocity_of(b).unwrap()),
{
}

} // verus!
