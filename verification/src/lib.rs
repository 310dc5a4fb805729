//! Verified Model-View-Update core of a counter page whose number lives on a
//! remote contract.
//!
//! The page runtime owns the event loop, the asynchronous gateway calls and the
//! markup. This crate owns every decision: how a [`Msg`] changes the
//! [`State`], which [`Effect`] the runtime has to carry out next, which
//! [`Msg`] a finished gateway call resolves into, and what the page shows for
//! a given state.

pub mod app;
pub mod command;
pub mod decimal;
pub mod laws;
pub mod message;
pub mod state;
pub mod view;

pub use app::App;
pub use command::{Command, Effect};
pub use message::{GatewayError, Msg};
pub use state::State;
pub use view::{MainView, Screen};
