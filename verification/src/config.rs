//! The configuration a site is started with.
//!
//! The values are read once, before anything is served, and are never
//! changed afterwards: whoever needs them is handed them.

use vstd::prelude::*;

verus! {

/// The host part of a socket address.
#[derive(Clone, Copy, Debug, PartialEq, Eq)]
pub enum Host {
    /// The four octets of an IPv4 address.
    V4([u8; 4]),
    /// The eight groups of an IPv6 address.
    V6([u16; 8]),
}

/// The socket address the site listens on.
#[derive(Clone, Copy, Debug, PartialEq, Eq)]
pub struct SiteAddr {
    pub host: Host,
    pub port: u16,
}

/// Whether the site runs for development or for production.
#[derive(Clone, Copy, Debug, PartialEq, Eq)]
pub enum Environment {
    Development,
    Production,
}

/// What the renderer and the listener are configured with.
#[derive(Clone, Debug, PartialEq, Eq)]
pub struct ServerOptions {
    /// The address to bind.
    pub site_addr: SiteAddr,
    /// The name of the generated script and style files.
    pub output_name: String,
    /// The directory that static assets are served from.
    pub site_root: String,
    /// The directory below the site root that holds the generated files.
    pub site_pkg_dir: String,
    /// The environment that pages are rendered for.
    pub environment: Environment,
    /// The port of the reload socket used during development.
    pub reload_port: u32,
}

/// Why no configuration could be had.
#[derive(Clone, Copy, Debug, PartialEq, Eq)]
pub enum ConfigurationError {
    /// The source of the configuration is absent.
    Missing,
    /// The source is there but cannot be read as a configuration.
    Malformed,
}

impl ServerOptions {
    /// The address to bind.
    pub fn site_addr(&self) -> (addr: SiteAddr)
        ensures
            addr == self.site_addr,
    {
        self.site_addr
    }
}

} // verus!
