//! Sensor kinds and the mapping from bridge type identifiers to kinds.

use vstd::prelude::*;

verus! {

/// The closed set of sensor semantics the pipeline understands. Each kind
/// fixes the arity and meaning of the OSC argument list built from a
/// snapshot of such a sensor.
#[derive(Clone, Copy, Debug, PartialEq, Eq, Structural)]
#[non_exhaustive]
pub enum SensorKind {
    LightLevel,
    Presence,
    Temperature,
}

/// Number of OSC arguments a message for this kind always carries.
pub open spec fn kind_arity(kind: SensorKind) -> nat {
    match kind {
        SensorKind::LightLevel => 3,
        SensorKind::Presence => 1,
        SensorKind::Temperature => 1,
    }
}

/// The fixed lookup table from a bridge-native type identifier to the
/// sensor kind it denotes; identifiers outside the table map to `None`.
pub open spec fn spec_kind_of_type_name(s: Seq<char>) -> Option<SensorKind> {
    if s == "ZLLLightLevel"@ {
        Some(SensorKind::LightLevel)
    } else if s == "ZLLPresence"@ {
        Some(SensorKind::Presence)
    } else if s == "ZLLTemperature"@ {
        Some(SensorKind::Temperature)
    } else {
        None
    }
}

/// Character-wise string equality.
pub fn str_eq(a: &str, b: &str) -> (r: bool)
    ensures
        r == (a@ == b@),
{
    let a_len: usize = a.unicode_len();
    let b_len: usize = b.unicode_len();
    if a_len != b_len {
        return false;
    }
    let mut i: usize = 0;
    while i < a_len
        invariant
            a_len == a@.len(),
            b_len == b@.len(),
            a_len == b_len,
            i <= a_len,
            forall|j: int| 0 <= j < i ==> a@[j] == b@[j],
        decreases a_len - i,
    {
        if a.get_char(i) != b.get_char(i) {
            return false;
        }
        i += 1;
    }
    proof {
        assert(a@ =~= b@);
    }
    true
}

/// Derives a sensor's kind from the type identifier the bridge reports
/// for it, or `None` when the identifier is not recognized.
pub fn type_name_to_kind(raw_type: &str) -> (r: Option<SensorKind>)
    ensures
        r == spec_kind_of_type_name(raw_type@),
{
    if str_eq(raw_type, "ZLLLightLevel") {
        Some(SensorKind::LightLevel)
    } else if str_eq(raw_type, "ZLLPresence") {
        Some(SensorKind::Presence)
    } else if str_eq(raw_type, "ZLLTemperature") {
        Some(SensorKind::Temperature)
    } else {
        None
    }
}

} // verus!
