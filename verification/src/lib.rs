//! Core of a terminal dashboard for browsing public-transit stations and
//! their live departures.
//!
//! The crate holds the parts with real design content: the application
//! state machine that merges key presses, ticks and a synthetic refresh
//! trigger into ordered state transitions, the incremental substring
//! search over the station catalog, and the circular selection cursors
//! used by both station lists. Network fetches, terminal handling and
//! widget layout are collaborators that live outside this crate; they
//! exchange plain values with it.

pub mod api;
pub mod app;
pub mod eta;
pub mod event;
pub mod search;
pub mod selection;
pub mod update;

pub use selection::SelectionState;
