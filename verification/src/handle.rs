//! Widget handles, and the registry that knows which of them are alive.
//!
//! The toolkit owns its objects. This layer only ever holds handles: a slot
//! number and the generation of that slot. A slot is reused after its object
//! is destroyed, under a higher generation, so a handle taken before the
//! destruction never resolves to the newcomer.

use vstd::prelude::*;

verus! {

/// Handle to a widget: the slot it occupies and the generation of that slot.
#[derive(Debug, Clone, Copy, PartialEq, Eq, Structural, Hash)]
pub struct WidgetId {
    pub slot: usize,
    pub generation: u64,
}

/// Non-owning reference to a widget, as a subscription keeps it. It has to be
/// resolved through the registry before each use.
#[derive(Debug, Clone, Copy, PartialEq, Eq, Structural, Hash)]
pub struct WeakWidget {
    pub slot: usize,
    pub generation: u64,
}

/// One slot of the registry: the generation of its latest occupant, and
/// whether that occupant is still alive.
#[derive(Debug, Clone, Copy, PartialEq, Eq, Structural)]
pub struct Slot {
    pub generation: u64,
    pub live: bool,
}

/// The widget `id` is alive in `table`.
pub open spec fn live_in(table: Seq<Slot>, id: WidgetId) -> bool {
    &&& id.slot < table.len()
    &&& table[id.slot as int].live
    &&& table[id.slot as int].generation == id.generation
}

/// The handle `id` has been handed out by `table` at some point.
pub open spec fn issued_in(table: Seq<Slot>, id: WidgetId) -> bool {
    &&& id.slot < table.len()
    &&& id.generation <= table[id.slot as int].generation
}

/// The handle that a weak reference stands for.
pub open spec fn target_of(weak: WeakWidget) -> WidgetId {
    WidgetId { slot: weak.slot, generation: weak.generation }
}

/// What a weak reference resolves to in `table`.
pub open spec fn resolve_in(table: Seq<Slot>, weak: WeakWidget) -> Option<WidgetId> {
    if live_in(table, target_of(weak)) {
        Some(target_of(weak))
    } else {
        None
    }
}

/// A slot that can take a new occupant: its occupant is gone and its
/// generation can still grow.
pub open spec fn reusable(slot: Slot) -> bool {
    !slot.live && slot.generation < u64::MAX
}

/// `table` after a new widget has taken the slot `at`: the slot after the
/// last one starts at generation 1, a reused slot moves on to its next
/// generation.
pub open spec fn issue_at(table: Seq<Slot>, at: int) -> Seq<Slot> {
    if at == table.len() {
        table.push(Slot { generation: 1, live: true })
    } else {
        table.update(at, Slot { generation: (table[at].generation + 1) as u64, live: true })
    }
}

/// `table` after the widget `id` has been destroyed. Destroying what is not
/// alive changes nothing.
pub open spec fn destroy_in(table: Seq<Slot>, id: WidgetId) -> Seq<Slot> {
    if live_in(table, id) {
        table.update(id.slot as int, Slot { generation: id.generation, live: false })
    } else {
        table
    }
}

/// `after` may be a later state of `before`: no slot is lost, no generation
/// goes back, and within one generation a dead occupant stays dead.
pub open spec fn follows(before: Seq<Slot>, after: Seq<Slot>) -> bool {
    &&& before.len() <= after.len()
    &&& forall|i: int|
        0 <= i < before.len() ==> {
            &&& before[i].generation <= (#[trigger] after[i]).generation
            &&& (before[i].generation == after[i].generation && after[i].live ==> before[i].live)
        }
}

impl WidgetId {
    /// A weak reference to this widget.
    pub fn downgrade(&self) -> (weak: WeakWidget)
        ensures
            target_of(weak) == *self,
    {
        WeakWidget { slot: self.slot, generation: self.generation }
    }
}

/// The widgets this layer has been told about, by slot.
pub struct Registry {
    slots: Vec<Slot>,
}

impl View for Registry {
    type V = Seq<Slot>;

    closed spec fn view(&self) -> Seq<Slot> {
        self.slots@
    }
}

impl Registry {
    /// A registry without widgets.
    pub fn new() -> (registry: Self)
        ensures
            registry@ == Seq::<Slot>::empty(),
    {
        Registry { slots: Vec::new() }
    }

    /// Number of slots, occupied or not.
    pub fn slot_count(&self) -> (count: usize)
        ensures
            count == self@.len(),
    {
        self.slots.len()
    }

    /// Registers a new widget and returns its handle. The widget takes the
    /// first reusable slot, or a new slot when there is none.
    pub fn create(&mut self) -> (id: WidgetId)
        ensures
            id.slot <= old(self)@.len(),
            forall|j: int| 0 <= j < id.slot ==> !reusable(#[trigger] old(self)@[j]),
            id.slot < old(self)@.len() ==> reusable(old(self)@[id.slot as int]),
            final(self)@ == issue_at(old(self)@, id.slot as int),
            id.generation == final(self)@[id.slot as int].generation,
            live_in(final(self)@, id),
            !issued_in(old(self)@, id),
            follows(old(self)@, final(self)@),
    {
        let mut i: usize = 0;
        while i < self.slots.len()
            invariant
                i <= self.slots.len(),
                self.slots@ == old(self).slots@,
                forall|j: int| 0 <= j < i ==> !reusable(#[trigger] self.slots@[j]),
            decreases self.slots.len() - i,
        {
            let slot = self.slots[i];
            if !slot.live && slot.generation < u64::MAX {
                let generation: u64 = slot.generation + 1;
                self.slots.set(i, Slot { generation, live: true });
                return WidgetId { slot: i, generation };
            }
            i += 1;
        }
        self.slots.push(Slot { generation: 1, live: true });
        WidgetId { slot: i, generation: 1 }
    }

    /// Marks the widget `id` as destroyed. Returns whether it was alive.
    pub fn destroy(&mut self, id: &WidgetId) -> (was_live: bool)
        ensures
            was_live == live_in(old(self)@, *id),
            final(self)@ == destroy_in(old(self)@, *id),
            !live_in(final(self)@, *id),
            follows(old(self)@, final(self)@),
    {
        if self.is_live(id) {
            self.slots.set(id.slot, Slot { generation: id.generation, live: false });
            true
        } else {
            false
        }
    }

    /// Whether the widget `id` is alive.
    pub fn is_live(&self, id: &WidgetId) -> (live: bool)
        ensures
            live == live_in(self@, *id),
    {
        if id.slot < self.slots.len() {
            let slot = self.slots[id.slot];
            slot.live && slot.generation == id.generation
        } else {
            false
        }
    }

    /// Resolves a weak reference: the handle of its widget while that widget
    /// is alive, nothing once it is gone.
    pub fn upgrade(&self, weak: &WeakWidget) -> (resolved: Option<WidgetId>)
        ensures
            resolved == resolve_in(self@, *weak),
    {
        let id = WidgetId { slot: weak.slot, generation: weak.generation };
        if self.is_live(&id) {
            Some(id)
        } else {
            None
        }
    }
}

/// Every state follows itself.
pub proof fn law_follows_reflexive(table: Seq<Slot>)
    ensures
        follows(table, table),
{
}

/// What follows a later state follows the earlier one too.
pub proof fn law_follows_transitive(first: Seq<Slot>, second: Seq<Slot>, third: Seq<Slot>)
    requires
        follows(first, second),
        follows(second, third),
    ensures
        follows(first, third),
{
    assert forall|i: int| 0 <= i < first.len() implies {
        &&& first[i].generation <= (#[trigger] third[i]).generation
        &&& (first[i].generation == third[i].generation && third[i].live ==> first[i].live)
    } by {
        assert(first[i].generation <= second[i].generation);
        assert(second[i].generation <= third[i].generation);
    }
}

/// Registering a widget in any slot that is reusable, or in a new slot,
/// leads to a later state.
pub proof fn law_issue_follows(table: Seq<Slot>, at: int)
    requires
        0 <= at <= table.len(),
        at < table.len() ==> reusable(table[at]),
    ensures
        follows(table, issue_at(table, at)),
{
}

/// Destroying a widget leads to a later state.
pub proof fn law_destroy_follows(table: Seq<Slot>, id: WidgetId)
    ensures
        follows(table, destroy_in(table, id)),
{
}

/// Registering a widget changes nothing for the handles handed out before:
/// what was alive stays alive, what was dead stays dead.
pub proof fn law_issue_leaves_others_alone(table: Seq<Slot>, at: int, other: WidgetId)
    requires
        0 <= at <= table.len(),
        at < table.len() ==> reusable(table[at]),
        issued_in(table, other),
    ensures
        live_in(issue_at(table, at), other) == live_in(table, other),
{
}

/// Destroying a widget changes nothing for any other handle.
pub proof fn law_destroy_leaves_others_alone(table: Seq<Slot>, id: WidgetId, other: WidgetId)
    requires
        other != id,
    ensures
        live_in(destroy_in(table, id), other) == live_in(table, other),
{
}

/// A handle that was handed out and whose widget is gone stays dead in every
/// later state: whatever is registered or destroyed afterwards, also in the
/// same slot, the handle and the weak references taken from it never resolve
/// again.
pub proof fn law_dead_stays_dead(before: Seq<Slot>, after: Seq<Slot>, id: WidgetId)
    requires
        issued_in(before, id),
        !live_in(before, id),
        follows(before, after),
    ensures
        !live_in(after, id),
        forall|weak: WeakWidget| target_of(weak) == id ==> resolve_in(after, weak) is None,
{
    assert(before[id.slot as int].generation <= after[id.slot as int].generation);
}

/// A weak reference taken from the new occupant of a slot resolves to that
/// occupant, and to nothing else; one taken from an earlier occupant of the
/// same slot resolves to nothing.
pub proof fn law_reuse_keeps_apart(table: Seq<Slot>, at: int, stale: WeakWidget, fresh: WeakWidget)
    requires
        0 <= at < table.len(),
        reusable(table[at]),
        stale.slot == at,
        issued_in(table, target_of(stale)),
        fresh.slot == at,
        fresh.generation == table[at].generation + 1,
    ensures
        resolve_in(issue_at(table, at), stale) is None,
        resolve_in(issue_at(table, at), fresh) == Some(target_of(fresh)),
{
}

} // verus!
