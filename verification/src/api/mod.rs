//! The monitor's HTTP API: which chain clients it serves, and how it answers
//! a request that names a chain.

pub mod settings;
pub mod state;

pub use state::{AppState, RouteError};
