//! Startup decisions and request dispatch for a server-rendered site.
//!
//! The crate holds what a site decides for itself before and while it
//! serves: the configuration it is started with, the dispatch table that
//! says which handler answers a path, and the order of the steps that take
//! it from nothing to serving. Whether a route's pattern accepts a path is
//! asked of `matchit`, the matcher that the HTTP router is built on. Reading
//! the configuration, rendering pages and talking to the network are left
//! to the program around it.

pub mod bootstrap;
pub mod config;
pub mod pattern;
pub mod router;
