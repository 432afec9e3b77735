//! The sensor catalog resolver: binds configured sensor names to the
//! bridge's reported sensors and derives each sensor's kind.

use vstd::prelude::*;

use crate::config::SensorConfig;
use crate::kinds::spec_kind_of_type_name;
use crate::kinds::str_eq;
use crate::kinds::type_name_to_kind;
use crate::transformer::SensorTransformer;
use crate::snapshot::OscArg;

verus! {

/// One sensor as the bridge reports it: its stable id, its user-visible
/// name, and its bridge-native type identifier.
#[derive(Debug, PartialEq, Eq)]
pub struct BridgeSensor {
    pub id: String,
    pub name: String,
    pub raw_type: String,
}

/// Why resolution failed. Any of these is a configuration error and fatal
/// at startup: a missing or ambiguous name binding, or a type identifier
/// outside the recognized table.
#[derive(Debug, PartialEq, Eq)]
pub enum ResolveError {
    SensorNotFound { name: String },
    AmbiguousSensorName { name: String },
    UnrecognizedSensorType { raw_type: String },
}

/// A `ResolveError` with its strings taken as character sequences, for
/// contracts.
pub ghost enum ResolveErrorModel {
    SensorNotFound { name: Seq<char> },
    AmbiguousSensorName { name: Seq<char> },
    UnrecognizedSensorType { raw_type: Seq<char> },
}

impl ResolveError {
    pub open spec fn model(self) -> ResolveErrorModel {
        match self {
            ResolveError::SensorNotFound { name } => ResolveErrorModel::SensorNotFound {
                name: name@,
            },
            ResolveError::AmbiguousSensorName { name } => ResolveErrorModel::AmbiguousSensorName {
                name: name@,
            },
            ResolveError::UnrecognizedSensorType { raw_type } => (
            ResolveErrorModel::UnrecognizedSensorType { raw_type: raw_type@ }),
        }
    }
}

/// How many reported sensors carry this name.
pub open spec fn spec_match_count(sensors: Seq<BridgeSensor>, name: Seq<char>) -> nat
    decreases sensors.len(),
{
    if sensors.len() == 0 {
        0
    } else {
        spec_match_count(sensors.drop_last(), name) + if sensors.last().name@ == name {
            1nat
        } else {
            0nat
        }
    }
}

/// `i` is the position of the first sensor with this name.
pub open spec fn spec_first_match_at(sensors: Seq<BridgeSensor>, name: Seq<char>, i: int) -> bool {
    &&& 0 <= i < sensors.len()
    &&& sensors[i].name@ == name
    &&& forall|j: int| 0 <= j < i ==> sensors[j].name@ != name
}

/// The position of the first sensor with this name (meaningful only when
/// some sensor matches).
pub open spec fn spec_first_match(sensors: Seq<BridgeSensor>, name: Seq<char>) -> int {
    choose|i: int| spec_first_match_at(sensors, name, i)
}

/// At most one position can be the first match.
pub proof fn lemma_first_match_is(sensors: Seq<BridgeSensor>, name: Seq<char>, i: int)
    requires
        spec_first_match_at(sensors, name, i),
    ensures
        spec_first_match(sensors, name) == i,
{
    assert(exists|k: int| spec_first_match_at(sensors, name, k));
    let c = spec_first_match(sensors, name);
    if c < i {
        assert(sensors[c].name@ == name);
    } else if c > i {
        assert(sensors[i].name@ == name);
    }
}

/// A config entry resolves when exactly one reported sensor carries its
/// name and that sensor's type identifier is recognized.
pub open spec fn spec_resolvable(sensors: Seq<BridgeSensor>, c: SensorConfig) -> bool {
    &&& spec_match_count(sensors, c.name@) == 1
    &&& spec_kind_of_type_name(sensors[spec_first_match(sensors, c.name@)].raw_type@) is Some
}

/// Every enabled config entry resolves.
pub open spec fn spec_all_resolvable(
    sensors: Seq<BridgeSensor>,
    configs: Seq<SensorConfig>,
) -> bool {
    forall|i: int|
        0 <= i < configs.len() && configs[i].enabled ==> spec_resolvable(
            sensors,
            #[trigger] configs[i],
        )
}

/// The enabled entries of a config list, in order.
pub open spec fn spec_enabled_configs(configs: Seq<SensorConfig>) -> Seq<SensorConfig>
    decreases configs.len(),
{
    if configs.len() == 0 {
        Seq::empty()
    } else {
        let prefix = spec_enabled_configs(configs.drop_last());
        if configs.last().enabled {
            prefix.push(configs.last())
        } else {
            prefix
        }
    }
}

/// The transformer that a resolvable config entry produces: bound to the
/// unique matching sensor's id, with that sensor's kind, carrying the
/// config entry itself, with both argument lists still empty.
pub open spec fn spec_resolved_to(
    sensors: Seq<BridgeSensor>,
    c: SensorConfig,
    t: SensorTransformer,
) -> bool {
    let m = spec_first_match(sensors, c.name@);
    &&& t.id@ == sensors[m].id@
    &&& Some(t.kind) == spec_kind_of_type_name(sensors[m].raw_type@)
    &&& t.sensor_config == c
    &&& t.osc_args@ == Seq::<OscArg>::empty()
    &&& t.last_osc_args@ == Seq::<OscArg>::empty()
}

/// `i` is the first enabled config entry that fails to resolve.
pub open spec fn spec_first_unresolvable_at(
    sensors: Seq<BridgeSensor>,
    configs: Seq<SensorConfig>,
    i: int,
) -> bool {
    &&& 0 <= i < configs.len()
    &&& configs[i].enabled
    &&& !spec_resolvable(sensors, configs[i])
    &&& forall|j: int|
        0 <= j < i && configs[j].enabled ==> spec_resolvable(sensors, #[trigger] configs[j])
}

/// The error an unresolvable config entry is reported with: a missing
/// name, an ambiguous name, or — with a unique match — its sensor's
/// unrecognized type identifier.
pub open spec fn spec_error_for(sensors: Seq<BridgeSensor>, c: SensorConfig) -> ResolveErrorModel {
    if spec_match_count(sensors, c.name@) == 0 {
        ResolveErrorModel::SensorNotFound { name: c.name@ }
    } else if spec_match_count(sensors, c.name@) >= 2 {
        ResolveErrorModel::AmbiguousSensorName { name: c.name@ }
    } else {
        ResolveErrorModel::UnrecognizedSensorType {
            raw_type: sensors[spec_first_match(sensors, c.name@)].raw_type@,
        }
    }
}

/// Scans the reported sensors for a name: how many carry it, and where
/// the first of them stands.
fn find_matches(sensors: &Vec<BridgeSensor>, name: &String) -> (r: (usize, usize))
    ensures
        r.0 as nat == spec_match_count(sensors@, name@),
        r.0 > 0 ==> spec_first_match_at(sensors@, name@, r.1 as int),
{
    let mut count: usize = 0;
    let mut first: usize = 0;
    let mut i: usize = 0;
    while i < sensors.len()
        invariant
            i <= sensors@.len(),
            count <= i,
            count as nat == spec_match_count(sensors@.subrange(0, i as int), name@),
            count > 0 ==> first < i && sensors@[first as int].name@ == name@ && (forall|j: int|
                0 <= j < first ==> sensors@[j].name@ != name@),
            count == 0 ==> forall|j: int| 0 <= j < i ==> sensors@[j].name@ != name@,
        decreases sensors@.len() - i,
    {
        proof {
            assert(sensors@.subrange(0, (i + 1) as int).drop_last() =~= sensors@.subrange(
                0,
                i as int,
            ));
            assert(sensors@.subrange(0, (i + 1) as int).last() == sensors@[i as int]);
        }
        if str_eq(sensors[i].name.as_str(), name.as_str()) {
            if count == 0 {
                first = i;
            }
            count += 1;
        }
        i += 1;
    }
    proof {
        assert(sensors@.subrange(0, sensors@.len() as int) =~= sensors@);
    }
    (count, first)
}

/// Resolves the enabled config entries against the bridge's reported
/// sensor list, in config order: each must match exactly one sensor by
/// name, and that sensor's type identifier must be recognized. On success
/// the transformers come back in config order, one per enabled entry; the
/// first enabled entry that fails determines the error.
pub fn prepare_sensor_transformers(
    sensors: &Vec<BridgeSensor>,
    sensor_configs: &Vec<SensorConfig>,
) -> (r: Result<Vec<SensorTransformer>, ResolveError>)
    ensures
        r is Ok <==> spec_all_resolvable(sensors@, sensor_configs@),
        r matches Ok(out) ==> {
            let enabled = spec_enabled_configs(sensor_configs@);
            &&& out@.len() == enabled.len()
            &&& forall|k: int|
                0 <= k < enabled.len() ==> spec_resolved_to(
                    sensors@,
                    enabled[k],
                    #[trigger] out@[k],
                )
        },
        r matches Err(e) ==> exists|i: int|
            spec_first_unresolvable_at(sensors@, sensor_configs@, i) && e.model()
                == spec_error_for(sensors@, sensor_configs@[i]),
{
    let mut out: Vec<SensorTransformer> = Vec::new();
    let mut i: usize = 0;
    while i < sensor_configs.len()
        invariant
            i <= sensor_configs@.len(),
            forall|j: int|
                0 <= j < i && sensor_configs@[j].enabled ==> spec_resolvable(
                    sensors@,
                    #[trigger] sensor_configs@[j],
                ),
            out@.len() == spec_enabled_configs(sensor_configs@.subrange(0, i as int)).len(),
            forall|k: int|
                0 <= k < out@.len() ==> spec_resolved_to(
                    sensors@,
                    spec_enabled_configs(sensor_configs@.subrange(0, i as int))[k],
                    #[trigger] out@[k],
                ),
        decreases sensor_configs@.len() - i,
    {
        proof {
            assert(sensor_configs@.subrange(0, (i + 1) as int).drop_last() =~= sensor_configs@
                .subrange(0, i as int));
            assert(sensor_configs@.subrange(0, (i + 1) as int).last() == sensor_configs@[i as int]);
        }
        let c = &sensor_configs[i];
        if c.enabled {
            let (count, first) = find_matches(sensors, &c.name);
            if count == 0 {
                proof {
                    assert(spec_first_unresolvable_at(sensors@, sensor_configs@, i as int));
                }
                return Err(ResolveError::SensorNotFound { name: c.name.clone() });
            }
            if count >= 2 {
                proof {
                    assert(spec_first_unresolvable_at(sensors@, sensor_configs@, i as int));
                }
                return Err(ResolveError::AmbiguousSensorName { name: c.name.clone() });
            }
            proof {
                lemma_first_match_is(sensors@, c.name@, first as int);
            }
            let s = &sensors[first];
            match type_name_to_kind(s.raw_type.as_str()) {
                None => {
                    proof {
                        assert(spec_first_unresolvable_at(sensors@, sensor_configs@, i as int));
                    }
                    return Err(
                        ResolveError::UnrecognizedSensorType { raw_type: s.raw_type.clone() },
                    );
                },
                Some(kind) => {
                    out.push(SensorTransformer::new(s.id.clone(), kind, c.clone()));
                },
            }
        }
        i += 1;
    }
    proof {
        assert(sensor_configs@.subrange(0, sensor_configs@.len() as int) =~= sensor_configs@);
    }
    Ok(out)
}

} // verus!
