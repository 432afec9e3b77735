//! Per-sensor transformation state: the current and previous OSC argument
//! lists, the update step that rebuilds them from a snapshot, and the
//! change filter that decides whether to publish.

use vstd::prelude::*;

use crate::config::SensorConfig;
use crate::kinds::SensorKind;
use crate::kinds::kind_arity;
use crate::snapshot::OscArg;
use crate::snapshot::RawSensorSnapshot;
use crate::snapshot::spec_any_absent;
use crate::snapshot::spec_args_well_formed;
use crate::snapshot::spec_convert;
use crate::snapshot::lemma_convert_well_formed;
use crate::snapshot::lemma_field_change_is_visible;
use crate::snapshot::spec_source_field_eq;
use crate::snapshot::convert_snapshot;
use crate::snapshot::any_absent;

verus! {

/// One resolved sensor: its stable bridge id, its kind, its configuration,
/// and the current and previous OSC argument lists. The previous list
/// exists solely for the change filter. Both lists are empty until the
/// first update; after any update the current list has the kind's arity.
#[derive(Debug, PartialEq, Eq)]
pub struct SensorTransformer {
    pub id: String,
    pub kind: SensorKind,
    pub sensor_config: SensorConfig,
    pub osc_args: Vec<OscArg>,
    pub last_osc_args: Vec<OscArg>,
}

/// The part of a transformer's state that the update step and the change
/// filter read and write.
pub ghost struct TransformerModel {
    pub kind: SensorKind,
    pub send_changes_only: bool,
    pub args: Seq<OscArg>,
    pub last_args: Seq<OscArg>,
}

/// One update step on the model: the previous arguments become the old
/// current ones, and the current ones are rebuilt from the snapshot.
pub open spec fn spec_apply(m: TransformerModel, s: RawSensorSnapshot) -> TransformerModel {
    TransformerModel { args: spec_convert(m.kind, s), last_args: m.args, ..m }
}

/// The change filter's decision: publish always, unless the sensor asks
/// for changes only and the argument list equals the previously sent one.
pub open spec fn spec_publishes(m: TransformerModel) -> bool {
    !m.send_changes_only || m.args != m.last_args
}

/// Element-wise equality of two argument lists. The missing sentinel takes
/// part in the comparison like any value, so a transition into or out of
/// "missing" counts as a change.
pub fn args_equal(a: &Vec<OscArg>, b: &Vec<OscArg>) -> (r: bool)
    ensures
        r == (a@ == b@),
{
    if a.len() != b.len() {
        return false;
    }
    let mut i: usize = 0;
    while i < a.len()
        invariant
            a@.len() == b@.len(),
            i <= a@.len(),
            forall|j: int| 0 <= j < i ==> a@[j] == b@[j],
        decreases a@.len() - i,
    {
        if a[i] != b[i] {
            return false;
        }
        i += 1;
    }
    proof {
        assert(a@ =~= b@);
    }
    true
}

impl SensorTransformer {
    /// The fixed-arity invariant: each argument list is empty (before the
    /// first update) or has exactly the kind's arity, every slot holding
    /// its declared value type or the missing sentinel.
    pub open spec fn wf(self) -> bool {
        &&& spec_args_well_formed(self.kind, self.osc_args@)
        &&& spec_args_well_formed(self.kind, self.last_osc_args@)
    }

    /// The transformer's state as the update step and change filter see it.
    pub open spec fn model(self) -> TransformerModel {
        TransformerModel {
            kind: self.kind,
            send_changes_only: self.sensor_config.send_changes_only,
            args: self.osc_args@,
            last_args: self.last_osc_args@,
        }
    }

    /// A fresh transformer for one resolved sensor, with both argument
    /// lists empty until the first update.
    pub fn new(id: String, kind: SensorKind, sensor_config: SensorConfig) -> (r: SensorTransformer)
        ensures
            r.id == id,
            r.kind == kind,
            r.sensor_config == sensor_config,
            r.osc_args@ == Seq::<OscArg>::empty(),
            r.last_osc_args@ == Seq::<OscArg>::empty(),
            r.wf(),
    {
        SensorTransformer {
            id,
            kind,
            sensor_config,
            osc_args: Vec::new(),
            last_osc_args: Vec::new(),
        }
    }

    /// One update cycle on this transformer, fed a snapshot that was just
    /// read from the bridge: copies the current argument list into the
    /// previous one and rebuilds the current list from the snapshot per
    /// kind. Returns whether any rebuilt argument is the missing sentinel,
    /// so the caller can warn; the message keeps its fixed arity either
    /// way.
    pub fn update(&mut self, snapshot: &RawSensorSnapshot) -> (missing: bool)
        ensures
            final(self).model() == spec_apply(old(self).model(), *snapshot),
            final(self).osc_args@ == spec_convert(old(self).kind, *snapshot),
            final(self).osc_args@.len() == kind_arity(old(self).kind),
            final(self).last_osc_args@ == old(self).osc_args@,
            final(self).id == old(self).id,
            final(self).kind == old(self).kind,
            final(self).sensor_config == old(self).sensor_config,
            missing == spec_any_absent(final(self).osc_args@),
            spec_args_well_formed(final(self).kind, final(self).osc_args@),
            old(self).wf() ==> final(self).wf(),
    {
        proof {
            lemma_convert_well_formed(self.kind, *snapshot);
        }
        let mut rebuilt = convert_snapshot(self.kind, snapshot);
        core::mem::swap(&mut self.osc_args, &mut rebuilt);
        self.last_osc_args = rebuilt;
        any_absent(&self.osc_args)
    }

    /// The change filter: whether this transformer's freshly rebuilt
    /// argument list should go out. Always true unless the sensor asks
    /// for changes only and nothing changed since the last send.
    pub fn should_send(&self) -> (r: bool)
        ensures
            r == spec_publishes(self.model()),
            !self.sensor_config.send_changes_only ==> r,
    {
        if !self.sensor_config.send_changes_only {
            return true;
        }
        !args_equal(&self.osc_args, &self.last_osc_args)
    }
}

/// An update always leaves the argument list at the kind's arity, whatever
/// the snapshot held: absent fields become sentinels, never a shorter
/// message.
pub proof fn lemma_update_keeps_arity(m: TransformerModel, s: RawSensorSnapshot)
    ensures
        spec_apply(m, s).args.len() == kind_arity(m.kind),
{
}

/// Without `send_changes_only`, every cycle publishes, whatever the
/// previous cycle sent.
pub proof fn lemma_always_publish(m: TransformerModel, s: RawSensorSnapshot)
    requires
        !m.send_changes_only,
    ensures
        spec_publishes(spec_apply(m, s)),
{
}

/// With `send_changes_only` set, a fresh transformer fed two consecutive
/// identical snapshots publishes exactly one message: the first cycle
/// publishes, and the second rebuilds an identical argument list, which
/// the filter suppresses.
pub proof fn lemma_changes_only_identical_snapshots(
    m: TransformerModel,
    s1: RawSensorSnapshot,
    s2: RawSensorSnapshot,
)
    requires
        m.send_changes_only,
        m.args == Seq::<OscArg>::empty(),
        s1 == s2,
    ensures
        spec_publishes(spec_apply(m, s1)),
        !spec_publishes(spec_apply(spec_apply(m, s1), s2)),
{
    assert(kind_arity(m.kind) >= 1);
    assert(spec_apply(m, s1).args.len() >= 1);
    assert(spec_apply(m, s1).last_args.len() == 0);
}

/// With `send_changes_only` set, a fresh transformer fed two consecutive
/// snapshots that differ in some field the kind reads publishes both.
/// (Two snapshots that differ only in fields the kind never reads convert
/// to the same arguments, and the second is then suppressed.)
pub proof fn lemma_changes_only_differing_snapshots(
    m: TransformerModel,
    s1: RawSensorSnapshot,
    s2: RawSensorSnapshot,
)
    requires
        m.send_changes_only,
        m.args == Seq::<OscArg>::empty(),
        exists|i: int|
            0 <= i < kind_arity(m.kind) && !spec_source_field_eq(m.kind, i, s1, s2),
    ensures
        spec_publishes(spec_apply(m, s1)),
        spec_publishes(spec_apply(spec_apply(m, s1), s2)),
{
    assert(kind_arity(m.kind) >= 1);
    assert(spec_apply(m, s1).args.len() >= 1);
    assert(spec_apply(m, s1).last_args.len() == 0);
    let i = choose|i: int| 0 <= i < kind_arity(m.kind) && !spec_source_field_eq(m.kind, i, s1, s2);
    lemma_field_change_is_visible(m.kind, s1, s2, i);
    assert(spec_convert(m.kind, s1)[i] != spec_convert(m.kind, s2)[i]);
}

} // verus!
