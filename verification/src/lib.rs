//! Reloading of shared libraries while the program that uses them runs.
//!
//! The engine in this crate decides; it performs no input or output itself.
//! Each operation yields a [`Request`] that its caller carries out, and takes
//! the result back as a [`Reply`] until the operation is finished.
//!
//! - [`engine`] holds the engine itself, [`protocol`] what it asks and is
//!   answered, and [`model`] the state machine that its contracts speak of.
//! - [`naming`] forms file names, [`paths`] takes paths apart, [`module`]
//!   holds the loaded library and [`error`] what can go wrong.
//! - [`setup`], [`search`], [`staging`], [`outcome`] and [`dispatch`] state
//!   and prove what construction, the search for a file, staging, a whole
//!   registration or reload, and a dispatch come to.
pub mod dispatch;
pub mod engine;
pub mod error;
pub mod model;
pub mod module;
pub mod naming;
pub mod outcome;
pub mod paths;
pub mod protocol;
pub mod search;
pub mod setup;
pub mod staging;

pub use crate::engine::DynamicReload;
pub use crate::error::Error;
pub use crate::module::Lib;
pub use crate::naming::{Platform, PlatformName};
pub use crate::protocol::{ReclaimPolicy, Reply, Request, Search, UpdateState, WatchEvent};
