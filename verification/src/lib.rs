//! Embeds a tick-driven Bevy application in a host engine that owns the
//! frame loop.
//!
//! The host reports a visual frame and a physics step on independent
//! schedules. Each report runs exactly one scheduler pass of the embedded
//! application, and the two delta times are reconciled into one clock that
//! every system of the application reads.
//!
//! Times are whole nanoseconds and the relative speed is counted in
//! millionths, so that every step of the reconciliation is exact integer
//! arithmetic.

pub mod app;
pub mod prelude;
pub mod timing;
pub mod utils;

pub use app::BevyApp;
