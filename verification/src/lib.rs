//! `fs_registry` — the service capability registry of FreeSynergy.
//!
//! The registry answers the question *"which capabilities are available on
//! this node right now?"*.  A capability is a named ability that a service
//! advertises (`"iam"`, `"mail"`, `"storage"`).  Services register their
//! capabilities on startup and deregister on shutdown; callers look up the
//! endpoint that serves a capability.
//!
//! Every operation of the registry is a verified function over an explicit
//! model: the table of entries is a sequence of [`models::EntryView`]s, in the
//! order in which the rows were first inserted.
pub mod bus_handler;
pub mod cli;
pub mod clock;
pub mod config;
pub mod error;
pub mod grpc;
pub mod keys;
pub mod laws;
pub mod models;
pub mod registry;
pub mod rest;
pub mod stored;
pub mod text;

pub use bus_handler::{RegistryBusHandler, ServiceStartedPayload, ServiceStoppedPayload};
pub use error::RegistryError;
pub use models::{ServiceEntry, ServiceStatus};
pub use registry::Registry;
