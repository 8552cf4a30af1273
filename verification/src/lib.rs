//! Bindings between a reactive dataflow model and a single-threaded,
//! callback-based widget toolkit.
//!
//! The crate holds the decisions of the binding layer as plain state
//! machines over plain values: what a toolkit callback pushes into a stream,
//! what a stream value does to a widget, who may touch a thread-bound value,
//! when a value handed over from a worker thread is delivered, and how a
//! modal dialog is driven from request to response. Performing the toolkit
//! calls and moving values through streams is left to the caller.
//!
//! Widgets are known by handle. The [`handle::Registry`] tells which handles
//! are alive; everything that reaches for a widget asks it first.

pub mod affinity;
pub mod delivery;
pub mod dialog;
pub mod event;
pub mod handle;
pub mod prelude;
pub mod sink;
pub mod types;
pub mod widgets;
