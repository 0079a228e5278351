//! The server's own settings.
use vstd::prelude::*;

use crate::helpers::{decimal_of, push_decimal};

verus! {

/// Where the HTTP server listens.
#[derive(Debug, Clone)]
pub struct ServerConfig {
    pub host: String,
    pub port: u16,
}

impl ServerConfig {
    /// The address to bind: `host:port`.
    pub fn bind_address(&self) -> (r: String)
        ensures
            r@ == self.host@ + ":"@ + decimal_of(self.port as nat),
    {
        let mut out = self.host.clone().concat(":");
        push_decimal(&mut out, self.port);
        out
    }
}

} // verus!
