//! Multi-chain block monitor: chain identities, block and metrics records,
//! the decision logic behind the chain RPC clients, the API's request
//! routing, and the terminal dashboard's state machine.

pub mod api;
pub mod chains;
pub mod clock;
pub mod error;
pub mod net;
pub mod text;
pub mod tui;

pub use api::AppState;
pub use error::{Error, Result};
