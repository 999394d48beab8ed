//! Guest-side bindings of a plugin to the runtime that embeds it.
//!
//! A plugin talks to its runtime through a narrow set of calls: it reads the
//! invocation's input, writes an output or an error, looks up configuration
//! and variables, logs, allocates and frees blocks of the runtime's memory,
//! and sends one outbound request at a time. This crate holds those calls
//! and the marshalling between the runtime's bytes and strings and JSON.
//!
//! The runtime is a value here: [`host::Host`] holds what a plugin can
//! observe of it, and [`model::HostView`] is its mathematical value. Every
//! call takes the runtime as an argument and its contract says how the
//! runtime's value changes and what comes back.
//!
//! - [`model`]: the view of the runtime and the functions that describe it.
//! - [`host`]: the runtime and its primitive calls.
//! - [`memory`]: a handle on one allocation.
//! - [`surface`]: input, output, error, configuration, variables, logging.
//! - [`http`]: the outbound request and its response.
//! - [`json`], [`text`]: JSON and UTF-8 marshalling.
//! - [`plugin`]: the calling convention of an entry point, and a greeting
//!   plugin that follows it.
//! - [`laws`]: what holds across several calls.

use vstd::prelude::*;

pub mod method;
pub mod model;
pub mod host;
pub mod error;
pub mod text;
pub mod memory;
pub mod json;
pub mod surface;
pub mod http;
pub mod plugin;
pub mod laws;

verus! {

} // verus!
