//! The terminal dashboard's state: what it knows of each chain, its log,
//! and how keys move it.

pub mod app;
pub mod events;
pub mod view;

pub use app::App;
pub use events::EventHandler;

