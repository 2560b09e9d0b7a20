//! Deployment environments and values that vary with them.
//!
//! [`types::EnvType`] names the environment a program runs in and is read from
//! loosely written strings. A [`context::Context`] holds one value for each
//! environment, with a fallback, under a marker type that fixes the type of the
//! values. An [`environment::Environment`] holds the current environment and
//! any number of contexts, each found again by its marker type.
//!
//! [`is_debug`] is one such context, ready made: whether the program runs in
//! debug mode. [`secret_store`] reads the current environment from a store of
//! secrets. [`slot`] is where a context gives up its marker type to be held
//! beside contexts of other markers, and gets it back.
pub mod context;
pub mod environment;
pub mod is_debug;
mod registry;
pub mod secret_store;
pub mod slot;
mod tag_map;
pub mod types;
