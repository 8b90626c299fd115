//! The HTTP applications of a block relay, assembled from the relay's services and handlers.
//!
//! Each application is a router with a known table of routes, the layers around them, and the
//! services that the handlers find at their disposal.

pub mod builder;
pub mod channels;
pub mod combined;
pub mod constraints;
pub mod data;
pub mod guarantees;
pub mod laws;
pub mod pattern;
pub mod pattern_laws;
pub mod proposer;
pub mod reply;
pub mod routing;
pub mod runtime;

pub use builder::{builder_api_app, builder_api_app_on_own_runtime};
pub use combined::app;
pub use constraints::constraints_api_app;
pub use data::data_api_app;
pub use proposer::proposer_api_app;
