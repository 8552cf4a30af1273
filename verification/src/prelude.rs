//! The traits and types that most callers need, for one import.

pub use crate::affinity::{unwrap_fragile, wrap_fragile, Fragile, InvalidThreadAccess, ThreadTag};
pub use crate::delivery::{IdleTask, MainQueue, RunOutcome};
pub use crate::dialog::{
    Busy, Cleanup, DialogAdapter, DialogCall, DialogState, OptDialogAdapter, OptStart,
};
pub use crate::event::{Emission, EventKind, EventSource, PollingSignal};
pub use crate::handle::{Registry, WeakWidget, WidgetId};
pub use crate::sink::MutatingSink;
pub use crate::types::{GridArgs, NotebookPage, PackArgs, RangeValue, ToggleState};
pub use crate::widgets::{
    FrpBoxExt, FrpButtonExt, FrpCheckMenuItemExt, FrpContainerExt, FrpDialogExt, FrpEntryExt,
    FrpExpanderExt, FrpGridExt, FrpGtkWindowExt, FrpLabelExt, FrpLinkButtonExt, FrpMenuItemExt,
    FrpNotebookExt, FrpObjectExt, FrpOverlayExt, FrpRangeExt, FrpSpinnerExt, FrpTextBufferExt,
    FrpToggleButtonExt, FrpToolButtonExt, FrpWidgetExt, Mutation, Widget, WidgetCall,
    WindowPosition,
};
