//! A fixed-timestep run loop with statically dispatched application states.
//!
//! The crate separates an interactive application into a set of *states*
//! (a closed tagged union), a *context* holding the window handle and the
//! application payload, and a *scheduler* that feeds platform events to the
//! current state, renders once per frame, and advances simulation time in
//! fixed steps paced by a target frame rate.

pub mod app;
pub mod clock;
pub mod demo;
pub mod error;
pub mod state;

pub use app::Data;
pub use error::{AppError, MaybeResult, NoError};
pub use state::{Action, Event, State};
