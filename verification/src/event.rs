//! Toolkit callbacks as stream sources, and toolkit accessors as signals.
//!
//! An event source stands behind one callback slot of the toolkit. Each time
//! the toolkit invokes the callback, the source pushes exactly one value into
//! its stream, before the callback returns, and keeps nothing back. Where the
//! slot expects a decision on whether the event is to be propagated further,
//! the source answers with the decision that it was connected with.
//!
//! A polling signal stands for an accessor of a toolkit object. Sampling it
//! calls the accessor, then and there, on the thread that owns the object.

use crate::affinity::{access, Fragile, InvalidThreadAccess, ThreadTag};
use crate::handle::WidgetId;
use vstd::pervasive::cloned;
use vstd::prelude::*;

verus! {

/// What one invocation of a callback yields.
#[derive(Debug)]
pub struct Emission<T> {
    /// The value to push into the stream.
    pub value: T,
    /// The answer to hand back to the toolkit: whether to stop the event
    /// from being propagated. `None` for a callback that returns nothing.
    pub inhibit: Option<bool>,
}

/// The stream after `value` was pushed into it.
pub open spec fn after_event<T>(stream: Seq<T>, value: T) -> Seq<T> {
    stream.push(value)
}

/// The stream after the values in `events` were pushed into it, one event
/// after the other.
pub open spec fn after_events<T>(stream: Seq<T>, events: Seq<T>) -> Seq<T>
    decreases events.len(),
{
    if events.len() == 0 {
        stream
    } else {
        after_events(after_event(stream, events[0]), events.drop_first())
    }
}

/// The events of the toolkit that can feed a stream.
#[derive(Debug, Clone, Copy, PartialEq, Eq, Structural, Hash)]
pub enum EventKind {
    Activate,
    ActivateDefault,
    ActivateFocus,
    ActivateLink,
    Add,
    Backspace,
    ChangeValue,
    Changed,
    Clicked,
    Close,
    DeleteEvent,
    EnterNotify,
    Hide,
    LeaveNotify,
    ModifiedChanged,
    MotionNotify,
    PageAdded,
    PageRemoved,
    PageReordered,
    Remove,
    Response,
    Show,
    SwitchPage,
    Toggled,
}

/// Whether the callback of an event of this kind decides if the event is
/// propagated further.
pub open spec fn decides(kind: EventKind) -> bool {
    match kind {
        EventKind::ActivateLink => true,
        EventKind::ChangeValue => true,
        EventKind::DeleteEvent => true,
        EventKind::EnterNotify => true,
        EventKind::LeaveNotify => true,
        EventKind::MotionNotify => true,
        _ => false,
    }
}

/// The answer that a callback for `kind` gives when the caller chose
/// `inhibit`: the caller's choice where the callback decides, none where it
/// returns nothing.
pub open spec fn decision_of(kind: EventKind, inhibit: bool) -> Option<bool> {
    if decides(kind) {
        Some(inhibit)
    } else {
        None
    }
}

impl EventKind {
    /// Whether the callback of an event of this kind decides if the event is
    /// propagated further.
    pub fn returns_decision(&self) -> (deciding: bool)
        ensures
            deciding == decides(*self),
    {
        match self {
            EventKind::ActivateLink => true,
            EventKind::ChangeValue => true,
            EventKind::DeleteEvent => true,
            EventKind::EnterNotify => true,
            EventKind::LeaveNotify => true,
            EventKind::MotionNotify => true,
            _ => false,
        }
    }
}

/// The source of a stream that is fed by one callback slot of the toolkit:
/// one kind of event on one widget.
pub struct EventSource<T> {
    widget: WidgetId,
    kind: EventKind,
    inhibit: Option<bool>,
    pushed: Ghost<Seq<T>>,
}

impl<T> View for EventSource<T> {
    type V = Seq<T>;

    /// Every value pushed into the stream so far, oldest first.
    closed spec fn view(&self) -> Seq<T> {
        self.pushed@
    }
}

/// `source` is newly connected to the events of `kind` on `widget`, with
/// `inhibit` as the caller's choice.
pub open spec fn connected_to<T>(
    source: EventSource<T>,
    widget: WidgetId,
    kind: EventKind,
    inhibit: bool,
) -> bool {
    &&& source@ == Seq::<T>::empty()
    &&& source.widget() == widget
    &&& source.kind() == kind
    &&& source.decision() == decision_of(kind, inhibit)
}

impl<T> EventSource<T> {
    /// The widget whose events feed the stream.
    pub closed spec fn widget(&self) -> WidgetId {
        self.widget
    }

    /// The kind of event that feeds the stream.
    pub closed spec fn kind(&self) -> EventKind {
        self.kind
    }

    /// The answer that every invocation of the callback is given.
    pub closed spec fn decision(&self) -> Option<bool> {
        self.inhibit
    }

    /// A source for the events of `kind` on `widget`. Where the callback
    /// decides on propagation, every invocation is answered with `inhibit`;
    /// where it returns nothing, `inhibit` has no effect.
    pub fn connect(widget: WidgetId, kind: EventKind, inhibit: bool) -> (source: Self)
        ensures
            connected_to(source, widget, kind, inhibit),
    {
        let answer = if kind.returns_decision() {
            Some(inhibit)
        } else {
            None
        };
        EventSource { widget, kind, inhibit: answer, pushed: Ghost(Seq::empty()) }
    }

    /// The widget whose events feed the stream.
    pub fn widget_id(&self) -> (widget: WidgetId)
        ensures
            widget == self.widget(),
    {
        self.widget
    }

    /// The kind of event that feeds the stream.
    pub fn event_kind(&self) -> (kind: EventKind)
        ensures
            kind == self.kind(),
    {
        self.kind
    }

    /// The answer that every invocation of the callback is given.
    pub fn answer(&self) -> (answer: Option<bool>)
        ensures
            answer == self.decision(),
    {
        self.inhibit
    }

    /// The toolkit invokes the callback with an event that stands for
    /// `value`. Exactly this value goes into the stream, and the fixed
    /// answer back to the toolkit.
    pub fn fire(&mut self, value: T) -> (emission: Emission<T>)
        ensures
            emission.value == value,
            emission.inhibit == old(self).decision(),
            final(self)@ == after_event(old(self)@, value),
            final(self).decision() == old(self).decision(),
            final(self).widget() == old(self).widget(),
            final(self).kind() == old(self).kind(),
    {
        proof {
            self.pushed@ = self.pushed@.push(value);
        }
        Emission { value, inhibit: self.inhibit }
    }

    /// The toolkit invokes the callback with the arguments `native`. What
    /// `extract` makes of them goes into the stream, and the fixed answer
    /// back to the toolkit.
    pub fn fire_with<A, F: FnOnce(A) -> T>(&mut self, native: A, extract: F) -> (emission:
        Emission<T>)
        requires
            call_requires(extract, (native,)),
        ensures
            call_ensures(extract, (native,), emission.value),
            emission.inhibit == old(self).decision(),
            final(self)@ == after_event(old(self)@, emission.value),
            final(self).decision() == old(self).decision(),
            final(self).widget() == old(self).widget(),
            final(self).kind() == old(self).kind(),
    {
        let value = extract(native);
        self.fire(value)
    }
}

/// A stream that is connected before `events` occur carries, after them,
/// what it carried before followed by exactly one value for each event, in
/// the order in which the events occurred.
pub proof fn law_one_value_per_event<T>(stream: Seq<T>, events: Seq<T>)
    ensures
        after_events(stream, events) == stream + events,
        after_events(stream, events).len() == stream.len() + events.len(),
        forall|i: int|
            0 <= i < events.len() ==> after_events(stream, events)[stream.len() + i] == events[i],
    decreases events.len(),
{
    if events.len() == 0 {
        assert(stream + events =~= stream);
    } else {
        law_one_value_per_event(after_event(stream, events[0]), events.drop_first());
        assert(after_event(stream, events[0]) + events.drop_first() =~= stream + events);
    }
}

/// A freshly connected stream carries, after `events`, exactly the values of
/// these events: as many as there were events, in firing order.
pub proof fn law_fresh_stream_carries_the_events<T>(events: Seq<T>)
    ensures
        after_events(Seq::<T>::empty(), events) == events,
{
    law_one_value_per_event(Seq::<T>::empty(), events);
    assert(Seq::<T>::empty() + events =~= events);
}

/// A signal whose value is whatever an accessor of a toolkit object returns
/// at the moment of sampling.
pub struct PollingSignal<H, F> {
    target: Fragile<H>,
    accessor: F,
}

impl<H, F> PollingSignal<H, F> {
    /// The wrapped object whose accessor is called.
    pub closed spec fn target(&self) -> Fragile<H> {
        self.target
    }

    /// The accessor.
    pub closed spec fn accessor(&self) -> F {
        self.accessor
    }

    /// Lifts `accessor` on `target` into a signal. The target is wrapped for
    /// the thread `current`, which is the calling thread, so that the signal
    /// can be stored and handed around freely.
    pub fn lift(target: H, current: ThreadTag, accessor: F) -> (signal: Self)
        ensures
            signal.target().owner() == current,
            signal.target().payload() == target,
            signal.accessor() == accessor,
    {
        PollingSignal { target: Fragile::new(target, current), accessor }
    }

    /// The thread that may sample the signal.
    pub fn owner_tag(&self) -> (owner: ThreadTag)
        ensures
            owner == self.target().owner(),
    {
        self.target.owner_tag()
    }

    /// Samples the signal on the owning thread: calls the accessor on the
    /// target now and returns what it returns.
    pub fn sample<T>(&self, caller: ThreadTag) -> (value: T) where F: Fn(&H) -> T
        requires
            caller == self.target().owner(),
            call_requires(self.accessor(), (&self.target().payload(),)),
        ensures
            call_ensures(self.accessor(), (&self.target().payload(),), value),
    {
        (self.accessor)(self.target.get(caller))
    }

    /// Samples the signal if `caller` owns the target; otherwise the accessor
    /// is not called and the violation is returned.
    pub fn try_sample<T>(&self, caller: ThreadTag) -> (outcome: Result<
        T,
        InvalidThreadAccess,
    >) where F: Fn(&H) -> T
        requires
            caller == self.target().owner() ==> call_requires(
                self.accessor(),
                (&self.target().payload(),),
            ),
        ensures
            match outcome {
                Ok(value) => caller == self.target().owner() && call_ensures(
                    self.accessor(),
                    (&self.target().payload(),),
                    value,
                ),
                Err(violation) => access(self.target().owner(), self.target().payload(), caller)
                    == Err::<H, InvalidThreadAccess>(violation),
            },
    {
        match self.target.try_get(caller) {
            Ok(target) => Ok((self.accessor)(target)),
            Err(violation) => Err(violation),
        }
    }
}

impl<H: Clone, F: Clone> Clone for PollingSignal<H, F> {
    /// The copy samples the same accessor on a copy of the target, and
    /// belongs to the same thread. Any thread may make one.
    fn clone(&self) -> (copy: Self)
        ensures
            copy.target().owner() == self.target().owner(),
            cloned(self.target().payload(), copy.target().payload()),
            cloned(self.accessor(), copy.accessor()),
    {
        PollingSignal { target: self.target.clone(), accessor: self.accessor.clone() }
    }
}

} // verus!
