//! Identity cells: a script-side handle to a host entity that may not exist yet.
//!
//! A [`KotoEntityMapping`] is a small token into an [`EntityMappings`] table.
//! The slot it names starts out holding the placeholder identity and is
//! written at most once, when the host has created the entity.

use vstd::prelude::*;

verus! {

/// The identity of a host entity, as its raw bits.
#[derive(Clone, Copy, Debug, PartialEq, Eq, Structural)]
pub struct EntityId {
    pub bits: u64,
}

/// The bits of the placeholder identity: index `u32::MAX`, generation 1.
pub const PLACEHOLDER_BITS: u64 = 0x1_ffff_ffff;

impl EntityId {
    /// The placeholder identity held by a cell that has not been resolved.
    pub open spec fn spec_placeholder() -> EntityId {
        EntityId { bits: PLACEHOLDER_BITS }
    }

    pub open spec fn spec_is_placeholder(self) -> bool {
        self == EntityId::spec_placeholder()
    }

    /// Returns the placeholder identity.
    pub fn placeholder() -> (r: EntityId)
        ensures
            r == EntityId::spec_placeholder(),
    {
        EntityId { bits: PLACEHOLDER_BITS }
    }

    /// Wraps raw entity bits.
    pub fn from_bits(bits: u64) -> (r: EntityId)
        ensures
            r.bits == bits,
    {
        EntityId { bits }
    }

    /// Returns true for the placeholder identity.
    pub fn is_placeholder(&self) -> (r: bool)
        ensures
            r == self.spec_is_placeholder(),
    {
        self.bits == PLACEHOLDER_BITS
    }
}

/// A cheap, copyable reference to one identity cell of an [`EntityMappings`] table.
///
/// Copies of a mapping share the cell: a resolution through one copy is seen
/// through all of them.
#[derive(Clone, Copy, Debug, PartialEq, Eq, Structural)]
pub struct KotoEntityMapping {
    slot: usize,
}

impl KotoEntityMapping {
    /// The index of the cell this mapping refers to.
    pub closed spec fn index(self) -> nat {
        self.slot as nat
    }

    /// The value of this mapping's cell in the given table.
    pub open spec fn value_in(self, table: EntityMappings) -> EntityId
        recommends
            table.holds(self),
    {
        table@[self.index() as int]
    }

    /// Assigns the host entity once it has been created.
    ///
    /// A cell is resolved once and then never changes: assigning a cell that
    /// is already resolved is a protocol violation, and it is ignored.
    pub fn assign_bevy_entity(&self, table: &mut EntityMappings, entity: EntityId)
        requires
            old(table).holds(*self),
            !entity.spec_is_placeholder(),
        ensures
            self.value_in(*old(table)).spec_is_placeholder() ==> final(table)@ == old(table)@.update(
                self.index() as int,
                entity,
            ),
            !self.value_in(*old(table)).spec_is_placeholder() ==> final(table)@ == old(table)@,
            old(table).op_step(*final(table)),
    {
        if table.slots[self.slot].is_placeholder() {
            table.slots.set(self.slot, entity);
        }
    }

    /// Reads the identity: the placeholder until the cell is resolved, then the entity.
    pub fn get(&self, table: &EntityMappings) -> (r: EntityId)
        requires
            table.holds(*self),
        ensures
            r == self.value_in(*table),
    {
        table.slots[self.slot]
    }
}

/// The table of identity cells.
#[derive(Debug)]
pub struct EntityMappings {
    slots: Vec<EntityId>,
}

impl View for EntityMappings {
    type V = Seq<EntityId>;

    closed spec fn view(&self) -> Seq<EntityId> {
        self.slots@
    }
}

impl EntityMappings {
    /// True when the mapping refers to a cell of this table.
    pub open spec fn holds(self, m: KotoEntityMapping) -> bool {
        m.index() < self@.len()
    }

    /// One operation of the table: a new placeholder cell at the end, the
    /// resolution of one placeholder cell to a concrete identity, or an
    /// ignored second resolution, which changes nothing.
    pub open spec fn op_step(self, later: EntityMappings) -> bool {
        ||| later@ == self@
        ||| later@ == self@.push(EntityId::spec_placeholder())
        ||| exists|i: int, e: EntityId|
            0 <= i < self@.len() && self@[i].spec_is_placeholder() && !e.spec_is_placeholder()
                && later@ == self@.update(i, e)
    }

    /// An empty table.
    pub fn new() -> (r: EntityMappings)
        ensures
            r@ == Seq::<EntityId>::empty(),
    {
        EntityMappings { slots: Vec::new() }
    }

    /// The number of cells.
    pub fn len(&self) -> (r: usize)
        ensures
            r == self@.len(),
    {
        self.slots.len()
    }

    /// Tells whether the mapping refers to a cell of this table.
    pub fn holds_mapping(&self, m: &KotoEntityMapping) -> (r: bool)
        ensures
            r == self.holds(*m),
    {
        m.slot < self.slots.len()
    }

    /// Creates a new cell in the placeholder state and returns a mapping to it.
    pub fn new_mapping(&mut self) -> (r: KotoEntityMapping)
        ensures
            final(self)@ == old(self)@.push(EntityId::spec_placeholder()),
            r.index() == old(self)@.len(),
            final(self).holds(r),
            r.value_in(*final(self)).spec_is_placeholder(),
            old(self).op_step(*final(self)),
    {
        let slot = self.slots.len();
        self.slots.push(EntityId::placeholder());
        KotoEntityMapping { slot }
    }
}

/// Single assignment of identity cells: along any run of table operations,
/// a cell that has been resolved keeps its identity, and a cell that reads as
/// the placeholder at some point read as the placeholder at every earlier point
/// where it existed. A read before resolution never sees another identity.
pub proof fn lemma_cells_assigned_once(runs: Seq<EntityMappings>, i: int, k: int, j: int)
    requires
        forall|n: int| 0 <= n < runs.len() - 1 ==> (#[trigger] runs[n]).op_step(runs[n + 1]),
        0 <= k <= j < runs.len(),
        0 <= i < runs[k]@.len(),
    ensures
        i < runs[j]@.len(),
        !runs[k]@[i].spec_is_placeholder() ==> runs[j]@[i] == runs[k]@[i],
        runs[j]@[i].spec_is_placeholder() ==> runs[k]@[i].spec_is_placeholder(),
    decreases j - k,
{
    if k < j {
        let a = runs[k];
        let b = runs[k + 1];
        assert(a.op_step(b));
        if b@ == a@ {
        } else if b@ == a@.push(EntityId::spec_placeholder()) {
            assert(b@[i] == a@[i]);
        } else {
            let (n, e) = choose|n: int, e: EntityId|
                0 <= n < a@.len() && a@[n].spec_is_placeholder() && !e.spec_is_placeholder()
                    && b@ == a@.update(n, e);
            assert(b@.len() == a@.len());
        }
        lemma_cells_assigned_once(runs, i, k + 1, j);
    }
}

} // verus!
