//! Raw sensor snapshots and their conversion into fixed-arity OSC
//! argument lists.

use vstd::prelude::*;

use crate::kinds::SensorKind;
use crate::kinds::kind_arity;

verus! {

/// The bridge's reported state for one sensor at one instant. Every field
/// may be absent; which fields are meaningful depends on the sensor's kind.
/// `temperature` is in hundredths of a degree; `light_level` is in the
/// bridge's native logarithmic unit.
#[derive(Clone, Copy, Debug, PartialEq, Eq)]
pub struct RawSensorSnapshot {
    pub light_level: Option<u32>,
    pub dark: Option<bool>,
    pub daylight: Option<bool>,
    pub presence: Option<bool>,
    pub temperature: Option<i32>,
}

/// One OSC argument at the data-model level: the exact source value that
/// the wire float is computed from, or the missing sentinel for an absent
/// source field. Projection onto float32 happens only at encode time,
/// outside the library:
/// - `Lux(v)` goes out as `10 ^ ((v - 1) / 10000)`,
/// - `Flag(true)` goes out as `1.0`, `Flag(false)` as `0.0`,
/// - `Centi(t)` goes out as `t / 100`,
/// - `Absent` goes out as the OSC "no value" tag.
///
/// Keeping the source values rather than the projected floats makes the
/// arguments exactly comparable, which is what the change filter needs.
#[derive(Clone, Copy, Debug, PartialEq, Eq, Structural)]
pub enum OscArg {
    Absent,
    Lux(u32),
    Flag(bool),
    Centi(i32),
}

/// The light-level argument: the raw logarithmic reading, or the sentinel.
pub open spec fn spec_lux_arg(field: Option<u32>) -> OscArg {
    match field {
        Some(v) => OscArg::Lux(v),
        None => OscArg::Absent,
    }
}

/// A boolean argument, or the sentinel.
pub open spec fn spec_flag_arg(field: Option<bool>) -> OscArg {
    match field {
        Some(b) => OscArg::Flag(b),
        None => OscArg::Absent,
    }
}

/// The temperature argument in hundredths of a degree, or the sentinel.
pub open spec fn spec_centi_arg(field: Option<i32>) -> OscArg {
    match field {
        Some(t) => OscArg::Centi(t),
        None => OscArg::Absent,
    }
}

/// The full argument list a snapshot converts to, per kind. The list's
/// length is always the kind's arity, and each position is computed from
/// exactly one snapshot field.
pub open spec fn spec_convert(kind: SensorKind, s: RawSensorSnapshot) -> Seq<OscArg> {
    match kind {
        SensorKind::LightLevel => seq![
            spec_lux_arg(s.light_level),
            spec_flag_arg(s.dark),
            spec_flag_arg(s.daylight),
        ],
        SensorKind::Presence => seq![spec_flag_arg(s.presence)],
        SensorKind::Temperature => seq![spec_centi_arg(s.temperature)],
    }
}

/// Whether some argument of the list is the missing sentinel.
pub open spec fn spec_any_absent(args: Seq<OscArg>) -> bool {
    exists|i: int| 0 <= i < args.len() && args[i] is Absent
}

pub fn lux_arg(field: Option<u32>) -> (r: OscArg)
    ensures
        r == spec_lux_arg(field),
{
    match field {
        Some(v) => OscArg::Lux(v),
        None => OscArg::Absent,
    }
}

pub fn flag_arg(field: Option<bool>) -> (r: OscArg)
    ensures
        r == spec_flag_arg(field),
{
    match field {
        Some(b) => OscArg::Flag(b),
        None => OscArg::Absent,
    }
}

pub fn centi_arg(field: Option<i32>) -> (r: OscArg)
    ensures
        r == spec_centi_arg(field),
{
    match field {
        Some(t) => OscArg::Centi(t),
        None => OscArg::Absent,
    }
}

/// Builds the OSC argument list for one snapshot of a sensor of the given
/// kind.
pub fn convert_snapshot(kind: SensorKind, s: &RawSensorSnapshot) -> (args: Vec<OscArg>)
    ensures
        args@ == spec_convert(kind, *s),
        args@.len() == kind_arity(kind),
{
    let mut args: Vec<OscArg> = Vec::new();
    match kind {
        SensorKind::LightLevel => {
            args.push(lux_arg(s.light_level));
            args.push(flag_arg(s.dark));
            args.push(flag_arg(s.daylight));
        },
        SensorKind::Presence => {
            args.push(flag_arg(s.presence));
        },
        SensorKind::Temperature => {
            args.push(centi_arg(s.temperature));
        },
    }
    proof {
        assert(args@ =~= spec_convert(kind, *s));
    }
    args
}

/// Whether some argument of the list is the missing sentinel; a true
/// result prompts a warning naming the sensor, since it usually means a
/// misconfigured kind-to-sensor binding.
pub fn any_absent(args: &Vec<OscArg>) -> (r: bool)
    ensures
        r == spec_any_absent(args@),
{
    let mut i: usize = 0;
    while i < args.len()
        invariant
            i <= args@.len(),
            forall|j: int| 0 <= j < i ==> !(args@[j] is Absent),
        decreases args@.len() - i,
    {
        if matches!(args[i], OscArg::Absent) {
            return true;
        }
        i += 1;
    }
    false
}

/// What argument position `i` of a message for this kind may hold: the
/// slot's value type, or the missing sentinel.
pub open spec fn spec_slot_ok(kind: SensorKind, i: int, a: OscArg) -> bool {
    match kind {
        SensorKind::LightLevel => {
            if i == 0 {
                a is Lux || a is Absent
            } else {
                a is Flag || a is Absent
            }
        },
        SensorKind::Presence => a is Flag || a is Absent,
        SensorKind::Temperature => a is Centi || a is Absent,
    }
}

/// The fixed-arity invariant on an argument list: empty (before the first
/// update), or exactly the kind's arity with every slot holding its
/// declared type or the sentinel.
pub open spec fn spec_args_well_formed(kind: SensorKind, args: Seq<OscArg>) -> bool {
    ||| args.len() == 0
    ||| (args.len() == kind_arity(kind) && forall|i: int|
        0 <= i < args.len() ==> spec_slot_ok(kind, i, #[trigger] args[i]))
}

/// Conversion always yields a well-formed list: full arity, each slot of
/// its declared type or the sentinel.
pub proof fn lemma_convert_well_formed(kind: SensorKind, s: RawSensorSnapshot)
    ensures
        spec_args_well_formed(kind, spec_convert(kind, s)),
        spec_convert(kind, s).len() == kind_arity(kind),
{
    let args = spec_convert(kind, s);
    assert forall|i: int| 0 <= i < args.len() implies spec_slot_ok(kind, i, #[trigger] args[i]) by {
        match kind {
            SensorKind::LightLevel => {
                assert(args[0] == spec_lux_arg(s.light_level));
                assert(args[1] == spec_flag_arg(s.dark));
                assert(args[2] == spec_flag_arg(s.daylight));
            },
            SensorKind::Presence => {
                assert(args[0] == spec_flag_arg(s.presence));
            },
            SensorKind::Temperature => {
                assert(args[0] == spec_centi_arg(s.temperature));
            },
        }
    }
}

/// An absent source field converts to the missing sentinel at exactly its
/// own position, and a present one never does.
pub proof fn lemma_absent_field_is_sentinel(kind: SensorKind, s: RawSensorSnapshot, i: int)
    requires
        0 <= i < kind_arity(kind),
    ensures
        spec_convert(kind, s)[i] is Absent <==> spec_source_field_absent(kind, i, s),
{
}

/// Which snapshot field feeds argument position `i` of a message for this
/// kind, expressed as "is that field absent".
pub open spec fn spec_source_field_absent(kind: SensorKind, i: int, s: RawSensorSnapshot) -> bool {
    match kind {
        SensorKind::LightLevel => {
            if i == 0 {
                s.light_level is None
            } else if i == 1 {
                s.dark is None
            } else {
                s.daylight is None
            }
        },
        SensorKind::Presence => s.presence is None,
        SensorKind::Temperature => s.temperature is None,
    }
}

/// Whether two snapshots agree on the field that feeds argument position
/// `i` of a message for this kind.
pub open spec fn spec_source_field_eq(
    kind: SensorKind,
    i: int,
    s1: RawSensorSnapshot,
    s2: RawSensorSnapshot,
) -> bool {
    match kind {
        SensorKind::LightLevel => {
            if i == 0 {
                s1.light_level == s2.light_level
            } else if i == 1 {
                s1.dark == s2.dark
            } else {
                s1.daylight == s2.daylight
            }
        },
        SensorKind::Presence => s1.presence == s2.presence,
        SensorKind::Temperature => s1.temperature == s2.temperature,
    }
}

/// A change in a source field is visible in its argument: the conversion
/// of each slot is injective in that slot's field, with the sentinel
/// standing apart from every value.
pub proof fn lemma_field_change_is_visible(
    kind: SensorKind,
    s1: RawSensorSnapshot,
    s2: RawSensorSnapshot,
    i: int,
)
    requires
        0 <= i < kind_arity(kind),
        !spec_source_field_eq(kind, i, s1, s2),
    ensures
        spec_convert(kind, s1)[i] != spec_convert(kind, s2)[i],
{
}

/// Argument positions are independent: position `i` depends only on its
/// own source field, so however the other fields change — including going
/// absent — every other argument keeps its value and its position, and the
/// arity never changes.
pub proof fn lemma_field_isolation(
    kind: SensorKind,
    s1: RawSensorSnapshot,
    s2: RawSensorSnapshot,
    i: int,
)
    requires
        0 <= i < kind_arity(kind),
        spec_source_field_eq(kind, i, s1, s2),
    ensures
        spec_convert(kind, s1).len() == kind_arity(kind),
        spec_convert(kind, s2).len() == kind_arity(kind),
        spec_convert(kind, s1)[i] == spec_convert(kind, s2)[i],
{
}

} // verus!
