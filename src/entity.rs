//! Script-bound entities: the host's record of each entity a script spawned,
//! the rules that decide when it is updated and when it is despawned, and the
//! events through which a script changes it.

use crate::channel::{koto_channel, KotoReceiver, KotoSender};
use crate::identity::KotoEntityMapping;
use crate::runtime::clone_value;
use crate::schedule::KotoUpdate;
use koto::prelude::{KObject, KValue, KotoVm};
use vstd::prelude::*;

verus! {

#[verifier::external_type_specification]
#[verifier::external_body]
pub struct ExKObject(KObject);

#[verifier::external_type_specification]
#[verifier::external_body]
pub struct ExKotoVm(KotoVm);

/// True when a record is due for removal: the script has been replaced, or
/// the record holds the last reference to the script object.
pub open spec fn despawn_due(ref_count: nat, is_active: bool) -> bool {
    !is_active || ref_count <= 1
}

/// True when a record's update callback may run this frame.
pub open spec fn update_due(ref_count: nat, is_active: bool) -> bool {
    is_active && ref_count > 1
}

/// Tells whether a record with this reference count and flag is removed.
pub fn should_despawn(ref_count: usize, is_active: bool) -> (r: bool)
    ensures
        r == despawn_due(ref_count as nat, is_active),
{
    !is_active || ref_count <= 1
}

/// Tells whether a record with this reference count and flag gets its update call.
pub fn should_update(ref_count: usize, is_active: bool) -> (r: bool)
    ensures
        r == update_due(ref_count as nat, is_active),
{
    is_active && ref_count > 1
}

/// A record is never both removed and updated in one frame, and every record
/// that is referenced (a count of at least one) is one or the other.
pub proof fn lemma_despawn_excludes_update(ref_count: nat, is_active: bool)
    ensures
        !(despawn_due(ref_count, is_active) && update_due(ref_count, is_active)),
        ref_count >= 1 ==> (despawn_due(ref_count, is_active) || update_due(ref_count, is_active)),
{
}

/// A record that is not active is never updated, whatever its reference count.
pub proof fn lemma_inactive_never_updated(ref_count: nat)
    ensures
        !update_due(ref_count, false),
        despawn_due(ref_count, false),
{
}

/// Relies on `KObject::ref_count`: the number of live handles to the object,
/// at least the one that is read from.
#[verifier::external_body]
fn object_ref_count(object: &KObject) -> (r: usize)
    ensures
        r >= 1,
{
    object.ref_count()
}

/// Relies on `Clone for KObject` and `From<KObject> for KValue`: the object as a script value.
#[verifier::external_body]
fn object_value(object: &KObject) -> KValue {
    object.clone().into()
}

/// Relies on `KotoVm::call_instance_function`: calls `function` with `instance`
/// as `self` and `arg` as its one argument.
#[verifier::external_body]
fn call_instance(vm: &mut KotoVm, instance: KValue, function: KValue, arg: KValue) -> Result<
    KValue,
    koto::Error,
> {
    vm.call_instance_function(instance, function, arg).map_err(koto::Error::from)
}

/// What a record's per-frame update came to.
#[derive(Clone, Copy, Debug, PartialEq, Eq, Structural)]
pub enum EntityUpdateOutcome {
    /// The record is inactive or no longer referenced by the script.
    Skipped,
    /// No update callback is registered.
    NoCallback,
    /// The callback ran and returned.
    Called,
    /// The callback raised an error; other records are not affected.
    Failed,
}

/// A Koto-scriptable host entity.
pub struct KotoEntity {
    /// The Koto object that corresponds to the host entity.
    pub object: KObject,
    /// The script-to-host identity mapping.
    pub entity: KotoEntityMapping,
    /// The value to call on each update, with the context to call it in.
    pub on_update: Option<(KValue, KotoVm)>,
    /// False once the script that spawned the entity has been replaced.
    pub is_active: bool,
}

impl KotoEntity {
    /// A record for the given object and identity mapping: active, with no update callback.
    pub fn new(object: KObject, entity: KotoEntityMapping) -> (r: KotoEntity)
        ensures
            r.object == object,
            r.entity == entity,
            r.on_update.is_none(),
            r.is_active,
    {
        KotoEntity { object, entity, on_update: None, is_active: true }
    }

    /// The number of live handles to the record's script object.
    pub fn ref_count(&self) -> (r: usize)
        ensures
            r >= 1,
    {
        object_ref_count(&self.object)
    }

    /// Marks the record inactive: its script has been replaced.
    pub fn deactivate(&mut self)
        ensures
            !final(self).is_active,
            final(self).object == old(self).object,
            final(self).entity == old(self).entity,
            final(self).on_update == old(self).on_update,
    {
        self.is_active = false;
    }

    /// Runs the record's update callback with the frame's time delta, given
    /// the reference count of its object read at the start of the frame.
    ///
    /// A record that is inactive, or whose object only the record still holds
    /// (a count of at most one), is skipped. Otherwise the registered callback
    /// is called with the object as `self`; a failing callback is reported in
    /// the result and changes nothing else, so other records are unaffected.
    pub fn run_on_update(&mut self, ref_count: usize, time_delta: KValue) -> (r:
        EntityUpdateOutcome)
        ensures
            !update_due(ref_count as nat, old(self).is_active) ==> r == EntityUpdateOutcome::Skipped,
            update_due(ref_count as nat, old(self).is_active) && old(self).on_update.is_none() ==> r
                == EntityUpdateOutcome::NoCallback,
            update_due(ref_count as nat, old(self).is_active) && old(self).on_update.is_some() ==> (r
                == EntityUpdateOutcome::Called || r == EntityUpdateOutcome::Failed),
            final(self).is_active == old(self).is_active,
            final(self).object == old(self).object,
            final(self).entity == old(self).entity,
            final(self).on_update.is_some() == old(self).on_update.is_some(),
            final(self).on_update.is_some() ==> final(self).on_update->Some_0.0 == old(
                self,
            ).on_update->Some_0.0,
            r == EntityUpdateOutcome::Skipped || r == EntityUpdateOutcome::NoCallback
                ==> final(self).on_update == old(self).on_update,
    {
        if !should_update(ref_count, self.is_active) {
            return EntityUpdateOutcome::Skipped;
        }
        let instance = object_value(&self.object);
        match &mut self.on_update {
            Some(callback) => {
                let function = clone_value(&callback.0);
                match call_instance(&mut callback.1, instance, function, time_delta) {
                    Ok(_) => EntityUpdateOutcome::Called,
                    Err(_) => EntityUpdateOutcome::Failed,
                }
            },
            None => EntityUpdateOutcome::NoCallback,
        }
    }

    /// Applies an event that the script sent for this entity.
    ///
    /// A despawn from the script makes the record inactive; the result is
    /// true when the host entity is to be despawned.
    pub fn apply_event(&mut self, event: UpdateKotoEntity) -> (despawn: bool)
        ensures
            final(self).object == old(self).object,
            final(self).entity == old(self).entity,
            match event {
                UpdateKotoEntity::SetOnUpdate(f) => !despawn && final(self).on_update == f
                    && final(self).is_active == old(self).is_active,
                UpdateKotoEntity::Despawn => despawn && final(self).on_update == old(self).on_update
                    && !final(self).is_active,
            },
    {
        match event {
            UpdateKotoEntity::SetOnUpdate(on_update) => {
                self.on_update = on_update;
                false
            },
            UpdateKotoEntity::Despawn => {
                self.is_active = false;
                true
            },
        }
    }

}

/// Event for updating properties of a script-bound entity.
pub enum UpdateKotoEntity {
    /// Sets the value to call, and the context to call it in, on each update.
    SetOnUpdate(Option<(KValue, KotoVm)>),
    /// The script despawned the entity, and the host entity is to be despawned too.
    Despawn,
}

/// An event from a script for one entity.
pub struct KotoEntityEvent<T> {
    /// The identity mapping of the entity the event is for.
    pub entity: KotoEntityMapping,
    /// The event.
    pub event: T,
}

impl<T> KotoEntityEvent<T> {
    /// An event for the given entity mapping.
    pub fn new(entity: KotoEntityMapping, event: T) -> (r: KotoEntityEvent<T>)
        ensures
            r.entity == entity,
            r.event == event,
    {
        KotoEntityEvent { entity, event }
    }
}

/// The sending end of a channel of entity events.
pub type KotoEntitySender<T> = KotoSender<KotoEntityEvent<T>>;

/// The receiving end of a channel of entity events.
pub type KotoEntityReceiver<T> = KotoReceiver<KotoEntityEvent<T>>;

/// Creates an unbounded channel for entity events.
pub fn koto_entity_channel<T>() -> (KotoEntitySender<T>, KotoEntityReceiver<T>) {
    koto_channel()
}

/// What the host reads of a record in the first pass of a frame's update.
#[derive(Clone, Copy, Debug, PartialEq, Eq, Structural)]
pub struct EntityStatus {
    pub ref_count: usize,
    pub is_active: bool,
}

/// The first pass of a frame's update: the positions, in order, of the
/// records that are to be removed.
pub fn entities_to_despawn(statuses: &[EntityStatus]) -> (r: Vec<usize>)
    ensures
        forall|k: int| 0 <= k < r@.len() ==> #[trigger] r@[k] < statuses@.len(),
        forall|k: int, l: int| 0 <= k < l < r@.len() ==> #[trigger] r@[k] < #[trigger] r@[l],
        forall|i: int|
            0 <= i < statuses@.len() ==> (r@.contains(i as usize) <==> despawn_due(
                statuses@[i].ref_count as nat,
                statuses@[i].is_active,
            )),
{
    let mut r: Vec<usize> = Vec::new();
    let mut i: usize = 0;
    while i < statuses.len()
        invariant
            i <= statuses@.len(),
            forall|k: int| 0 <= k < r@.len() ==> #[trigger] r@[k] < i,
            forall|k: int, l: int| 0 <= k < l < r@.len() ==> #[trigger] r@[k] < #[trigger] r@[l],
            forall|j: int|
                0 <= j < i ==> (r@.contains(j as usize) <==> despawn_due(
                    statuses@[j].ref_count as nat,
                    statuses@[j].is_active,
                )),
        decreases statuses@.len() - i,
    {
        let s = statuses[i];
        let ghost before = r@;
        if should_despawn(s.ref_count, s.is_active) {
            r.push(i);
        }
        proof {
            assert forall|j: int|
                0 <= j <= i implies (r@.contains(j as usize) <==> despawn_due(
                statuses@[j].ref_count as nat,
                statuses@[j].is_active,
            )) by {
                if r@.contains(j as usize) {
                    let k = choose|k: int| 0 <= k < r@.len() && r@[k] == j as usize;
                    assert(r@[k] == j as usize);
                }
                if j < i && despawn_due(statuses@[j].ref_count as nat, statuses@[j].is_active) {
                    let k = choose|k: int| 0 <= k < before.len() && before[k] == j as usize;
                    assert(r@[k] == j as usize);
                }
                if j == i && despawn_due(statuses@[j].ref_count as nat, statuses@[j].is_active) {
                    assert(r@[r@.len() - 1] == j as usize);
                }
            }
        }
        i = i + 1;
    }
    r
}

/// Where a record stands in its life.
#[derive(Clone, Copy, Debug, PartialEq, Eq, Structural)]
pub enum RecordPhase {
    /// Referenced by the script and active: updated each frame.
    Active,
    /// Found due for removal; its host entity is despawned when the frame's
    /// results are applied.
    PendingRemoval,
    /// Gone, with its host entity.
    Removed,
}

/// The record's phase after the given phase of a frame has run, for the
/// reference count and flag that the record has during that frame.
pub open spec fn spec_record_step(
    record: RecordPhase,
    phase: KotoUpdate,
    ref_count: nat,
    is_active: bool,
) -> RecordPhase {
    match record {
        RecordPhase::Active => if phase == KotoUpdate::Update && despawn_due(ref_count, is_active) {
            RecordPhase::PendingRemoval
        } else {
            RecordPhase::Active
        },
        RecordPhase::PendingRemoval => if phase == KotoUpdate::PostUpdate {
            RecordPhase::Removed
        } else {
            RecordPhase::PendingRemoval
        },
        RecordPhase::Removed => RecordPhase::Removed,
    }
}

/// Advances a record through one phase of a frame.
pub fn record_step(record: RecordPhase, phase: KotoUpdate, ref_count: usize, is_active: bool) -> (r:
    RecordPhase)
    ensures
        r == spec_record_step(record, phase, ref_count as nat, is_active),
{
    match record {
        RecordPhase::Active => if phase == KotoUpdate::Update && should_despawn(
            ref_count,
            is_active,
        ) {
            RecordPhase::PendingRemoval
        } else {
            RecordPhase::Active
        },
        RecordPhase::PendingRemoval => if phase == KotoUpdate::PostUpdate {
            RecordPhase::Removed
        } else {
            RecordPhase::PendingRemoval
        },
        RecordPhase::Removed => RecordPhase::Removed,
    }
}

/// The record's phase after the first `n` phases of a frame.
pub open spec fn record_after_phases(
    record: RecordPhase,
    n: nat,
    ref_count: nat,
    is_active: bool,
) -> RecordPhase
    decreases n,
{
    if n == 0 {
        record
    } else {
        let phase = if n == 1 {
            KotoUpdate::Compile
        } else if n == 2 {
            KotoUpdate::PreUpdate
        } else if n == 3 {
            KotoUpdate::Update
        } else {
            KotoUpdate::PostUpdate
        };
        spec_record_step(record_after_phases(record, (n - 1) as nat, ref_count, is_active), phase, ref_count, is_active)
    }
}

/// Despawn timing: an active record whose reference count has dropped to one
/// before a frame stays active through that frame's Compile and PreUpdate
/// phases, is pending removal after its Update phase, and is removed after its
/// PostUpdate phase. A record that is still referenced and active stays active
/// through the whole frame.
pub proof fn lemma_despawn_timing(ref_count: nat, is_active: bool)
    ensures
        despawn_due(ref_count, is_active) ==> record_after_phases(RecordPhase::Active, 1, ref_count, is_active) == RecordPhase::Active
            && record_after_phases(RecordPhase::Active, 2, ref_count, is_active) == RecordPhase::Active
            && record_after_phases(RecordPhase::Active, 3, ref_count, is_active) == RecordPhase::PendingRemoval
            && record_after_phases(RecordPhase::Active, 4, ref_count, is_active) == RecordPhase::Removed,
        !despawn_due(ref_count, is_active) ==> record_after_phases(RecordPhase::Active, 4, ref_count, is_active) == RecordPhase::Active,
{
    reveal_with_fuel(record_after_phases, 5);
}

/// When a script is replaced by a fresh load, its records are marked inactive
/// before the next Update phase; from then on none of them is updated, and each
/// is pending removal after that frame's Update phase and removed after its
/// PostUpdate phase, whatever its reference count.
pub proof fn lemma_replaced_records_removed_without_update(ref_count: nat)
    ensures
        !update_due(ref_count, false),
        record_after_phases(RecordPhase::Active, 3, ref_count, false) == RecordPhase::PendingRemoval,
        record_after_phases(RecordPhase::Active, 4, ref_count, false) == RecordPhase::Removed,
{
    lemma_despawn_timing(ref_count, false);
}

/// No record comes back once removed.
pub proof fn lemma_removed_is_final(phase: KotoUpdate, ref_count: nat, is_active: bool)
    ensures
        spec_record_step(RecordPhase::Removed, phase, ref_count, is_active) == RecordPhase::Removed,
{
}

} // verus!
