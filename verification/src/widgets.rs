//! The bindings of the widget classes, by name.
//!
//! Every widget class has the same two kinds of binding. A `stream_…`
//! method says what a stream value does to the widget: the setter call to
//! make if the widget is still alive, nothing if it is gone. An `…_events`
//! method connects a stream to one kind of event of the widget. The methods
//! work on handles; making the calls and registering the callbacks is the
//! caller's part.

use crate::affinity::{Fragile, ThreadTag};
use crate::event::{connected_to, EventKind, EventSource};
use crate::handle::{
    destroy_in, follows, issued_in, law_dead_stays_dead, live_in, Registry, Slot, WidgetId,
};
use crate::sink::MutatingSink;
use crate::types::{GridArgs, NotebookPage, PackArgs, RangeValue, ToggleState};
use vstd::prelude::*;

verus! {

/// Where a window is placed on screen.
#[derive(Debug, Clone, Copy, PartialEq, Eq, Structural, Hash)]
pub enum WindowPosition {
    Unset,
    Center,
    Mouse,
    CenterAlways,
    CenterOnParent,
}

/// A setter call on a widget.
#[derive(Debug, PartialEq)]
pub enum WidgetCall {
    PackStart(PackArgs<WidgetId>),
    PackEnd(PackArgs<WidgetId>),
    Attach(GridArgs<WidgetId>),
    Add(WidgetId),
    Remove(WidgetId),
    AddOverlay(WidgetId),
    SetLabel(String),
    SetText(String),
    SetTitle(String),
    SetExpanded(bool),
    SetActive(bool),
    SetModified(bool),
    SetSensitive(bool),
    SetVisible(bool),
    SetPosition(WindowPosition),
    Resize(i32, i32),
    Show,
    ShowAll,
}

impl Clone for WidgetCall {
    /// The same call with the same arguments.
    fn clone(&self) -> (copy: Self)
        ensures
            copy == *self,
    {
        match self {
            WidgetCall::PackStart(args) => WidgetCall::PackStart(
                PackArgs {
                    child: args.child,
                    expand: args.expand,
                    fill: args.fill,
                    padding: args.padding,
                },
            ),
            WidgetCall::PackEnd(args) => WidgetCall::PackEnd(
                PackArgs {
                    child: args.child,
                    expand: args.expand,
                    fill: args.fill,
                    padding: args.padding,
                },
            ),
            WidgetCall::Attach(args) => WidgetCall::Attach(
                GridArgs {
                    child: args.child,
                    left: args.left,
                    top: args.top,
                    width: args.width,
                    height: args.height,
                },
            ),
            WidgetCall::Add(child) => WidgetCall::Add(*child),
            WidgetCall::Remove(child) => WidgetCall::Remove(*child),
            WidgetCall::AddOverlay(child) => WidgetCall::AddOverlay(*child),
            WidgetCall::SetLabel(label) => WidgetCall::SetLabel(label.clone()),
            WidgetCall::SetText(text) => WidgetCall::SetText(text.clone()),
            WidgetCall::SetTitle(title) => WidgetCall::SetTitle(title.clone()),
            WidgetCall::SetExpanded(expanded) => WidgetCall::SetExpanded(*expanded),
            WidgetCall::SetActive(active) => WidgetCall::SetActive(*active),
            WidgetCall::SetModified(modified) => WidgetCall::SetModified(*modified),
            WidgetCall::SetSensitive(sensitive) => WidgetCall::SetSensitive(*sensitive),
            WidgetCall::SetVisible(visible) => WidgetCall::SetVisible(*visible),
            WidgetCall::SetPosition(position) => WidgetCall::SetPosition(*position),
            WidgetCall::Resize(width, height) => WidgetCall::Resize(*width, *height),
            WidgetCall::Show => WidgetCall::Show,
            WidgetCall::ShowAll => WidgetCall::ShowAll,
        }
    }
}

/// A setter call together with the live widget it is to be made on.
#[derive(Debug, PartialEq)]
pub struct Mutation {
    pub target: WidgetId,
    pub call: WidgetCall,
}

impl Clone for Mutation {
    /// The same call on the same target.
    fn clone(&self) -> (copy: Self)
        ensures
            copy == *self,
    {
        Mutation { target: self.target, call: self.call.clone() }
    }
}

/// What a stream value that asks for `call` does to `target`: the call, if
/// the target is alive, and nothing otherwise.
pub open spec fn applied(table: Seq<Slot>, target: WidgetId, call: WidgetCall) -> Option<
    Mutation,
> {
    if live_in(table, target) {
        Some(Mutation { target, call })
    } else {
        None
    }
}

/// Resolves `target` as a sink bound to it does, and pairs it with `call`.
fn apply(target: &WidgetId, registry: &Registry, call: WidgetCall) -> (mutation: Option<Mutation>)
    ensures
        mutation == applied(registry@, *target, call),
{
    match MutatingSink::bind(target).deliver(registry, call) {
        Some((target, call)) => Some(Mutation { target, call }),
        None => None,
    }
}

/// What has a widget handle.
pub trait Widget: Sized {
    /// The handle of the widget.
    spec fn id(&self) -> WidgetId;

    /// The handle of the widget.
    fn handle(&self) -> (id: WidgetId)
        ensures
            id == self.id(),
    ;
}

impl Widget for WidgetId {
    open spec fn id(&self) -> WidgetId {
        *self
    }

    fn handle(&self) -> (id: WidgetId) {
        *self
    }
}

/// Bindings of a box.
pub trait FrpBoxExt: Widget {
    /// Pack arguments arrive: their child is packed at the start of the box.
    fn stream_pack_start(&self, registry: &Registry, args: PackArgs<WidgetId>) -> (mutation:
        Option<Mutation>)
        ensures
            mutation == applied(registry@, self.id(), WidgetCall::PackStart(args)),
    ;

    /// Pack arguments arrive: their child is packed at the end of the box.
    fn stream_pack_end(&self, registry: &Registry, args: PackArgs<WidgetId>) -> (mutation: Option<
        Mutation,
    >)
        ensures
            mutation == applied(registry@, self.id(), WidgetCall::PackEnd(args)),
    ;
}

impl FrpBoxExt for WidgetId {
    fn stream_pack_start(&self, registry: &Registry, args: PackArgs<WidgetId>) -> (mutation:
        Option<Mutation>) {
        apply(self, registry, WidgetCall::PackStart(args))
    }

    fn stream_pack_end(&self, registry: &Registry, args: PackArgs<WidgetId>) -> (mutation: Option<
        Mutation,
    >) {
        apply(self, registry, WidgetCall::PackEnd(args))
    }
}

/// Bindings of a button.
pub trait FrpButtonExt: Widget {
    /// A text arrives: it becomes the label of the button.
    fn stream_label(&self, registry: &Registry, label: String) -> (mutation: Option<Mutation>)
        ensures
            mutation == applied(registry@, self.id(), WidgetCall::SetLabel(label)),
    ;

    /// A stream of the clicks on the button.
    fn clicked_events(&self) -> (source: EventSource<()>)
        ensures
            connected_to(source, self.id(), EventKind::Clicked, false),
    ;
}

impl FrpButtonExt for WidgetId {
    fn stream_label(&self, registry: &Registry, label: String) -> (mutation: Option<Mutation>) {
        apply(self, registry, WidgetCall::SetLabel(label))
    }

    fn clicked_events(&self) -> (source: EventSource<()>) {
        EventSource::connect(*self, EventKind::Clicked, false)
    }
}

/// Bindings of a check menu item.
pub trait FrpCheckMenuItemExt: Widget {
    /// A stream of the states that the item is toggled to.
    fn toggled_events(&self) -> (source: EventSource<ToggleState>)
        ensures
            connected_to(source, self.id(), EventKind::Toggled, false),
    ;
}

impl FrpCheckMenuItemExt for WidgetId {
    fn toggled_events(&self) -> (source: EventSource<ToggleState>) {
        EventSource::connect(*self, EventKind::Toggled, false)
    }
}

/// Bindings of a container.
pub trait FrpContainerExt: Widget {
    /// A widget arrives: it is added to the container.
    fn stream_add(&self, registry: &Registry, child: WidgetId) -> (mutation: Option<Mutation>)
        ensures
            mutation == applied(registry@, self.id(), WidgetCall::Add(child)),
    ;

    /// A widget arrives: it is removed from the container.
    fn stream_remove(&self, registry: &Registry, child: WidgetId) -> (mutation: Option<Mutation>)
        ensures
            mutation == applied(registry@, self.id(), WidgetCall::Remove(child)),
    ;

    /// A stream of the widgets that are added to the container.
    fn add_events(&self) -> (source: EventSource<WidgetId>)
        ensures
            connected_to(source, self.id(), EventKind::Add, false),
    ;

    /// A stream of the widgets that are removed from the container.
    fn remove_events(&self) -> (source: EventSource<WidgetId>)
        ensures
            connected_to(source, self.id(), EventKind::Remove, false),
    ;
}

impl FrpContainerExt for WidgetId {
    fn stream_add(&self, registry: &Registry, child: WidgetId) -> (mutation: Option<Mutation>) {
        apply(self, registry, WidgetCall::Add(child))
    }

    fn stream_remove(&self, registry: &Registry, child: WidgetId) -> (mutation: Option<Mutation>) {
        apply(self, registry, WidgetCall::Remove(child))
    }

    fn add_events(&self) -> (source: EventSource<WidgetId>) {
        EventSource::connect(*self, EventKind::Add, false)
    }

    fn remove_events(&self) -> (source: EventSource<WidgetId>) {
        EventSource::connect(*self, EventKind::Remove, false)
    }
}

/// Bindings of a dialog.
pub trait FrpDialogExt: Widget {
    /// A stream of the times the dialog is closed.
    fn close_events(&self) -> (source: EventSource<()>)
        ensures
            connected_to(source, self.id(), EventKind::Close, false),
    ;

    /// A stream of the response codes of the dialog.
    fn response_events(&self) -> (source: EventSource<i32>)
        ensures
            connected_to(source, self.id(), EventKind::Response, false),
    ;
}

impl FrpDialogExt for WidgetId {
    fn close_events(&self) -> (source: EventSource<()>) {
        EventSource::connect(*self, EventKind::Close, false)
    }

    fn response_events(&self) -> (source: EventSource<i32>) {
        EventSource::connect(*self, EventKind::Response, false)
    }
}

/// Bindings of a text entry.
pub trait FrpEntryExt: Widget {
    /// A text arrives: it becomes the content of the entry.
    fn stream_text(&self, registry: &Registry, text: String) -> (mutation: Option<Mutation>)
        ensures
            mutation == applied(registry@, self.id(), WidgetCall::SetText(text)),
    ;

    /// A stream of the activations of the entry.
    fn activate_events(&self) -> (source: EventSource<()>)
        ensures
            connected_to(source, self.id(), EventKind::Activate, false),
    ;

    /// A stream of the backspaces typed into the entry.
    fn backspace_events(&self) -> (source: EventSource<()>)
        ensures
            connected_to(source, self.id(), EventKind::Backspace, false),
    ;
}

impl FrpEntryExt for WidgetId {
    fn stream_text(&self, registry: &Registry, text: String) -> (mutation: Option<Mutation>) {
        apply(self, registry, WidgetCall::SetText(text))
    }

    fn activate_events(&self) -> (source: EventSource<()>) {
        EventSource::connect(*self, EventKind::Activate, false)
    }

    fn backspace_events(&self) -> (source: EventSource<()>) {
        EventSource::connect(*self, EventKind::Backspace, false)
    }
}

/// Bindings of an expander.
pub trait FrpExpanderExt: Widget {
    /// A flag arrives: the expander is opened or closed.
    fn stream_expanded(&self, registry: &Registry, expanded: bool) -> (mutation: Option<Mutation>)
        ensures
            mutation == applied(registry@, self.id(), WidgetCall::SetExpanded(expanded)),
    ;
}

impl FrpExpanderExt for WidgetId {
    fn stream_expanded(&self, registry: &Registry, expanded: bool) -> (mutation: Option<
        Mutation,
    >) {
        apply(self, registry, WidgetCall::SetExpanded(expanded))
    }
}

/// Bindings of a grid.
pub trait FrpGridExt: Widget {
    /// Grid arguments arrive: their child is attached at their cell.
    fn stream_attach(&self, registry: &Registry, args: GridArgs<WidgetId>) -> (mutation: Option<
        Mutation,
    >)
        ensures
            mutation == applied(registry@, self.id(), WidgetCall::Attach(args)),
    ;
}

impl FrpGridExt for WidgetId {
    fn stream_attach(&self, registry: &Registry, args: GridArgs<WidgetId>) -> (mutation: Option<
        Mutation,
    >) {
        apply(self, registry, WidgetCall::Attach(args))
    }
}

/// Bindings of a window.
pub trait FrpGtkWindowExt: Widget {
    /// A position arrives: the window is placed there.
    fn stream_position(&self, registry: &Registry, position: WindowPosition) -> (mutation: Option<
        Mutation,
    >)
        ensures
            mutation == applied(registry@, self.id(), WidgetCall::SetPosition(position)),
    ;

    /// A width and a height arrive: the window is resized to them.
    fn stream_size(&self, registry: &Registry, size: (i32, i32)) -> (mutation: Option<Mutation>)
        ensures
            mutation == applied(registry@, self.id(), WidgetCall::Resize(size.0, size.1)),
    ;

    /// A text arrives: it becomes the title of the window.
    fn stream_title(&self, registry: &Registry, title: String) -> (mutation: Option<Mutation>)
        ensures
            mutation == applied(registry@, self.id(), WidgetCall::SetTitle(title)),
    ;

    /// A stream of the activations of the default widget of the window.
    fn activate_default_events(&self) -> (source: EventSource<()>)
        ensures
            connected_to(source, self.id(), EventKind::ActivateDefault, false),
    ;

    /// A stream of the activations of the focused widget of the window.
    fn activate_focus_events(&self) -> (source: EventSource<()>)
        ensures
            connected_to(source, self.id(), EventKind::ActivateFocus, false),
    ;
}

impl FrpGtkWindowExt for WidgetId {
    fn stream_position(&self, registry: &Registry, position: WindowPosition) -> (mutation: Option<
        Mutation,
    >) {
        apply(self, registry, WidgetCall::SetPosition(position))
    }

    fn stream_size(&self, registry: &Registry, size: (i32, i32)) -> (mutation: Option<Mutation>) {
        apply(self, registry, WidgetCall::Resize(size.0, size.1))
    }

    fn stream_title(&self, registry: &Registry, title: String) -> (mutation: Option<Mutation>) {
        apply(self, registry, WidgetCall::SetTitle(title))
    }

    fn activate_default_events(&self) -> (source: EventSource<()>) {
        EventSource::connect(*self, EventKind::ActivateDefault, false)
    }

    fn activate_focus_events(&self) -> (source: EventSource<()>) {
        EventSource::connect(*self, EventKind::ActivateFocus, false)
    }
}

/// Bindings of a label.
pub trait FrpLabelExt: Widget {
    /// A text arrives: it becomes the text of the label.
    fn stream_label(&self, registry: &Registry, label: String) -> (mutation: Option<Mutation>)
        ensures
            mutation == applied(registry@, self.id(), WidgetCall::SetLabel(label)),
    ;
}

impl FrpLabelExt for WidgetId {
    fn stream_label(&self, registry: &Registry, label: String) -> (mutation: Option<Mutation>) {
        apply(self, registry, WidgetCall::SetLabel(label))
    }
}

/// Bindings of a link button.
pub trait FrpLinkButtonExt: Widget {
    /// A stream of the activations of the link. Each is answered with
    /// `inhibit`.
    fn activate_link_events(&self, inhibit: bool) -> (source: EventSource<()>)
        ensures
            connected_to(source, self.id(), EventKind::ActivateLink, inhibit),
    ;
}

impl FrpLinkButtonExt for WidgetId {
    fn activate_link_events(&self, inhibit: bool) -> (source: EventSource<()>) {
        EventSource::connect(*self, EventKind::ActivateLink, inhibit)
    }
}

/// Bindings of a menu item.
pub trait FrpMenuItemExt: Widget {
    /// A stream of the activations of the item.
    fn activate_events(&self) -> (source: EventSource<()>)
        ensures
            connected_to(source, self.id(), EventKind::Activate, false),
    ;
}

impl FrpMenuItemExt for WidgetId {
    fn activate_events(&self) -> (source: EventSource<()>) {
        EventSource::connect(*self, EventKind::Activate, false)
    }
}

/// Bindings of a notebook.
pub trait FrpNotebookExt: Widget {
    /// A stream of the pages that are added.
    fn page_added_events(&self) -> (source: EventSource<NotebookPage<WidgetId>>)
        ensures
            connected_to(source, self.id(), EventKind::PageAdded, false),
    ;

    /// A stream of the pages that are removed.
    fn page_removed_events(&self) -> (source: EventSource<NotebookPage<WidgetId>>)
        ensures
            connected_to(source, self.id(), EventKind::PageRemoved, false),
    ;

    /// A stream of the pages that are moved.
    fn page_reordered_events(&self) -> (source: EventSource<NotebookPage<WidgetId>>)
        ensures
            connected_to(source, self.id(), EventKind::PageReordered, false),
    ;

    /// A stream of the pages that are switched to.
    fn switch_page_events(&self) -> (source: EventSource<NotebookPage<WidgetId>>)
        ensures
            connected_to(source, self.id(), EventKind::SwitchPage, false),
    ;
}

impl FrpNotebookExt for WidgetId {
    fn page_added_events(&self) -> (source: EventSource<NotebookPage<WidgetId>>) {
        EventSource::connect(*self, EventKind::PageAdded, false)
    }

    fn page_removed_events(&self) -> (source: EventSource<NotebookPage<WidgetId>>) {
        EventSource::connect(*self, EventKind::PageRemoved, false)
    }

    fn page_reordered_events(&self) -> (source: EventSource<NotebookPage<WidgetId>>) {
        EventSource::connect(*self, EventKind::PageReordered, false)
    }

    fn switch_page_events(&self) -> (source: EventSource<NotebookPage<WidgetId>>) {
        EventSource::connect(*self, EventKind::SwitchPage, false)
    }
}

/// Wrapping of object handles.
pub trait FrpObjectExt: Sized {
    /// Wraps a copy of this handle for the thread `current`, which is the
    /// calling thread.
    fn wrap_fragile(&self, current: ThreadTag) -> (wrapped: Fragile<Self>)
        ensures
            wrapped.owner() == current,
            wrapped.payload() == *self,
    ;
}

impl FrpObjectExt for WidgetId {
    fn wrap_fragile(&self, current: ThreadTag) -> (wrapped: Fragile<Self>) {
        Fragile::new(*self, current)
    }
}

/// Bindings of an overlay.
pub trait FrpOverlayExt: Widget {
    /// A widget arrives: it is laid over the content of the overlay.
    fn stream_add_overlay(&self, registry: &Registry, child: WidgetId) -> (mutation: Option<
        Mutation,
    >)
        ensures
            mutation == applied(registry@, self.id(), WidgetCall::AddOverlay(child)),
    ;
}

impl FrpOverlayExt for WidgetId {
    fn stream_add_overlay(&self, registry: &Registry, child: WidgetId) -> (mutation: Option<
        Mutation,
    >) {
        apply(self, registry, WidgetCall::AddOverlay(child))
    }
}

/// Bindings of a range.
pub trait FrpRangeExt: Widget {
    /// A stream of the values that the range is changed to. Each change is
    /// answered with `inhibit`.
    fn change_value_events<S, V>(&self, inhibit: bool) -> (source: EventSource<RangeValue<S, V>>)
        ensures
            connected_to(source, self.id(), EventKind::ChangeValue, inhibit),
    ;
}

impl FrpRangeExt for WidgetId {
    fn change_value_events<S, V>(&self, inhibit: bool) -> (source: EventSource<RangeValue<S, V>>) {
        EventSource::connect(*self, EventKind::ChangeValue, inhibit)
    }
}

/// Bindings of a spinner.
pub trait FrpSpinnerExt: Widget {
    /// A flag arrives: the spinner is started or stopped.
    fn stream_active(&self, registry: &Registry, active: bool) -> (mutation: Option<Mutation>)
        ensures
            mutation == applied(registry@, self.id(), WidgetCall::SetActive(active)),
    ;
}

impl FrpSpinnerExt for WidgetId {
    fn stream_active(&self, registry: &Registry, active: bool) -> (mutation: Option<Mutation>) {
        apply(self, registry, WidgetCall::SetActive(active))
    }
}

/// Bindings of a text buffer.
pub trait FrpTextBufferExt: Widget {
    /// A flag arrives: the buffer is marked as modified or not.
    fn stream_modified(&self, registry: &Registry, modified: bool) -> (mutation: Option<Mutation>)
        ensures
            mutation == applied(registry@, self.id(), WidgetCall::SetModified(modified)),
    ;

    /// A text arrives: it becomes the content of the buffer.
    fn stream_text(&self, registry: &Registry, text: String) -> (mutation: Option<Mutation>)
        ensures
            mutation == applied(registry@, self.id(), WidgetCall::SetText(text)),
    ;

    /// A stream of the changes of the content.
    fn changed_events(&self) -> (source: EventSource<()>)
        ensures
            connected_to(source, self.id(), EventKind::Changed, false),
    ;

    /// A stream of the values that the modified flag changes to.
    fn modified_changed_events(&self) -> (source: EventSource<bool>)
        ensures
            connected_to(source, self.id(), EventKind::ModifiedChanged, false),
    ;
}

impl FrpTextBufferExt for WidgetId {
    fn stream_modified(&self, registry: &Registry, modified: bool) -> (mutation: Option<
        Mutation,
    >) {
        apply(self, registry, WidgetCall::SetModified(modified))
    }

    fn stream_text(&self, registry: &Registry, text: String) -> (mutation: Option<Mutation>) {
        apply(self, registry, WidgetCall::SetText(text))
    }

    fn changed_events(&self) -> (source: EventSource<()>) {
        EventSource::connect(*self, EventKind::Changed, false)
    }

    fn modified_changed_events(&self) -> (source: EventSource<bool>) {
        EventSource::connect(*self, EventKind::ModifiedChanged, false)
    }
}

/// Bindings of a toggle button.
pub trait FrpToggleButtonExt: Widget {
    /// A stream of the states that the button is toggled to.
    fn toggled_events(&self) -> (source: EventSource<ToggleState>)
        ensures
            connected_to(source, self.id(), EventKind::Toggled, false),
    ;
}

impl FrpToggleButtonExt for WidgetId {
    fn toggled_events(&self) -> (source: EventSource<ToggleState>) {
        EventSource::connect(*self, EventKind::Toggled, false)
    }
}

/// Bindings of a tool button.
pub trait FrpToolButtonExt: Widget {
    /// A stream of the clicks on the button.
    fn clicked_events(&self) -> (source: EventSource<()>)
        ensures
            connected_to(source, self.id(), EventKind::Clicked, false),
    ;
}

impl FrpToolButtonExt for WidgetId {
    fn clicked_events(&self) -> (source: EventSource<()>) {
        EventSource::connect(*self, EventKind::Clicked, false)
    }
}

/// Bindings of every widget.
pub trait FrpWidgetExt: Widget {
    /// A flag arrives: the widget is made to react to input or not.
    fn stream_sensitive(&self, registry: &Registry, sensitive: bool) -> (mutation: Option<
        Mutation,
    >)
        ensures
            mutation == applied(registry@, self.id(), WidgetCall::SetSensitive(sensitive)),
    ;

    /// A flag arrives: the widget is shown or hidden.
    fn stream_visible(&self, registry: &Registry, visible: bool) -> (mutation: Option<Mutation>)
        ensures
            mutation == applied(registry@, self.id(), WidgetCall::SetVisible(visible)),
    ;

    /// A stream of the requests to close the window. Each is answered with
    /// `inhibit`.
    fn delete_events(&self, inhibit: bool) -> (source: EventSource<()>)
        ensures
            connected_to(source, self.id(), EventKind::DeleteEvent, inhibit),
    ;

    /// A stream of the pointer events that enter the widget. Each is
    /// answered with `inhibit`.
    fn enter_notify_events<E>(&self, inhibit: bool) -> (source: EventSource<E>)
        ensures
            connected_to(source, self.id(), EventKind::EnterNotify, inhibit),
    ;

    /// A stream of the pointer events that leave the widget. Each is
    /// answered with `inhibit`.
    fn leave_notify_events<E>(&self, inhibit: bool) -> (source: EventSource<E>)
        ensures
            connected_to(source, self.id(), EventKind::LeaveNotify, inhibit),
    ;

    /// A stream of the pointer movements over the widget. Each is answered
    /// with `inhibit`.
    fn motion_notify_events<E>(&self, inhibit: bool) -> (source: EventSource<E>)
        ensures
            connected_to(source, self.id(), EventKind::MotionNotify, inhibit),
    ;

    /// A stream of the times the widget is shown.
    fn show_events(&self) -> (source: EventSource<()>)
        ensures
            connected_to(source, self.id(), EventKind::Show, false),
    ;

    /// A stream of the times the widget is hidden.
    fn hide_events(&self) -> (source: EventSource<()>)
        ensures
            connected_to(source, self.id(), EventKind::Hide, false),
    ;

    /// Asks for the widget to be shown, by one more call at the end of
    /// `calls`, and hands the widget back.
    fn show_(self, calls: &mut Vec<Mutation>) -> (widget: Self)
        ensures
            widget == self,
            final(calls)@ == old(calls)@.push(
                (Mutation { target: self.id(), call: WidgetCall::Show }),
            ),
    ;

    /// Asks for the widget and everything in it to be shown, by one more
    /// call at the end of `calls`, and hands the widget back.
    fn show_all_(self, calls: &mut Vec<Mutation>) -> (widget: Self)
        ensures
            widget == self,
            final(calls)@ == old(calls)@.push(
                (Mutation { target: self.id(), call: WidgetCall::ShowAll }),
            ),
    ;
}

impl FrpWidgetExt for WidgetId {
    fn stream_sensitive(&self, registry: &Registry, sensitive: bool) -> (mutation: Option<
        Mutation,
    >) {
        apply(self, registry, WidgetCall::SetSensitive(sensitive))
    }

    fn stream_visible(&self, registry: &Registry, visible: bool) -> (mutation: Option<Mutation>) {
        apply(self, registry, WidgetCall::SetVisible(visible))
    }

    fn delete_events(&self, inhibit: bool) -> (source: EventSource<()>) {
        EventSource::connect(*self, EventKind::DeleteEvent, inhibit)
    }

    fn enter_notify_events<E>(&self, inhibit: bool) -> (source: EventSource<E>) {
        EventSource::connect(*self, EventKind::EnterNotify, inhibit)
    }

    fn leave_notify_events<E>(&self, inhibit: bool) -> (source: EventSource<E>) {
        EventSource::connect(*self, EventKind::LeaveNotify, inhibit)
    }

    fn motion_notify_events<E>(&self, inhibit: bool) -> (source: EventSource<E>) {
        EventSource::connect(*self, EventKind::MotionNotify, inhibit)
    }

    fn show_events(&self) -> (source: EventSource<()>) {
        EventSource::connect(*self, EventKind::Show, false)
    }

    fn hide_events(&self) -> (source: EventSource<()>) {
        EventSource::connect(*self, EventKind::Hide, false)
    }

    fn show_(self, calls: &mut Vec<Mutation>) -> (widget: Self) {
        calls.push(Mutation { target: self, call: WidgetCall::Show });
        self
    }

    fn show_all_(self, calls: &mut Vec<Mutation>) -> (widget: Self) {
        calls.push(Mutation { target: self, call: WidgetCall::ShowAll });
        self
    }
}

/// A stream value that arrives after its widget was destroyed asks for no
/// call, whatever was registered or destroyed in between.
pub proof fn law_gone_widget_takes_no_call(
    before: Seq<Slot>,
    after: Seq<Slot>,
    target: WidgetId,
    call: WidgetCall,
)
    requires
        issued_in(before, target),
        follows(destroy_in(before, target), after),
    ensures
        applied(after, target, call) is None,
{
    law_dead_stays_dead(destroy_in(before, target), after, target);
}

} // verus!
