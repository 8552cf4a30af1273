//! Binding of stream values to widget setters.
//!
//! A sink keeps a weak reference to its target and nothing else, so a
//! subscription never keeps a widget alive. Each value that arrives resolves
//! the reference first. If the target is alive, the setter is applied to it;
//! if it is gone, the value is dropped and nothing happens. A target that
//! disappears under a subscription is an expected race, not an error.

use crate::handle::{
    destroy_in, follows, issued_in, law_dead_stays_dead, resolve_in, target_of, Registry, Slot,
    WeakWidget, WidgetId,
};
use vstd::prelude::*;

verus! {

/// What reaches the target when `value` arrives at a sink bound to `weak`.
pub open spec fn delivery<T>(table: Seq<Slot>, weak: WeakWidget, value: T) -> Option<
    (WidgetId, T),
> {
    match resolve_in(table, weak) {
        Some(target) => Some((target, value)),
        None => None,
    }
}

/// The end of a stream that mutates a widget.
#[derive(Debug, Clone, Copy)]
pub struct MutatingSink {
    target: WeakWidget,
}

impl MutatingSink {
    /// The weak reference to the target.
    pub closed spec fn target(&self) -> WeakWidget {
        self.target
    }

    /// A sink for the widget `target`, of which it keeps a weak reference.
    pub fn bind(target: &WidgetId) -> (sink: Self)
        ensures
            target_of(sink.target()) == *target,
    {
        MutatingSink { target: target.downgrade() }
    }

    /// The weak reference to the target.
    pub fn weak(&self) -> (weak: WeakWidget)
        ensures
            weak == self.target(),
    {
        self.target
    }

    /// A value arrives. Returns the live target together with the value, for
    /// the setter to be applied, or nothing if the target is gone.
    pub fn deliver<T>(&self, registry: &Registry, value: T) -> (applied: Option<(WidgetId, T)>)
        ensures
            applied == delivery(registry@, self.target(), value),
    {
        match registry.upgrade(&self.target) {
            Some(target) => Some((target, value)),
            None => None,
        }
    }

    /// A value arrives. Applies `setter` to the value and the live target and
    /// returns what it yields. If the target is gone, `setter` is not called
    /// and nothing is returned.
    pub fn observe<T, R, F: FnOnce(T, WidgetId) -> R>(
        &self,
        registry: &Registry,
        value: T,
        setter: F,
    ) -> (applied: Option<R>)
        requires
            forall|target: WidgetId|
                resolve_in(registry@, self.target()) == Some(target) ==> call_requires(
                    setter,
                    (value, target),
                ),
        ensures
            match resolve_in(registry@, self.target()) {
                Some(target) => applied is Some && call_ensures(
                    setter,
                    (value, target),
                    applied->0,
                ),
                None => applied is None,
            },
    {
        match registry.upgrade(&self.target) {
            Some(target) => Some(setter(value, target)),
            None => None,
        }
    }
}

/// A value that arrives after its target was destroyed reaches nothing,
/// whatever was registered or destroyed in between: no setter is applied,
/// and delivering it is no error.
pub proof fn law_destroyed_target_is_left_alone<T>(
    before: Seq<Slot>,
    after: Seq<Slot>,
    weak: WeakWidget,
    value: T,
)
    requires
        issued_in(before, target_of(weak)),
        follows(destroy_in(before, target_of(weak)), after),
    ensures
        delivery(after, weak, value) is None,
{
    law_dead_stays_dead(destroy_in(before, target_of(weak)), after, target_of(weak));
}

} // verus!
