//! The immutable process configuration: the account credentials, the two
//! upstream URLs, and the address the service binds to. How the values are
//! obtained (environment, file) is the caller's concern; this module only
//! holds them and derives the bind address.

use vstd::prelude::*;
use crate::digits::dec_digits;
use crate::digits::u16_to_string;

verus! {

/// Loaded once at process start and never changed afterwards.
#[derive(Clone, Debug)]
pub struct Config {
    pub xcvpn_email: String,
    pub xcvpn_password: String,
    pub server_host: String,
    pub server_port: u16,
    pub login_url: String,
    pub subscribe_url: String,
}

impl Config {
    /// The bind address: the host, a colon, and the port in decimal.
    pub fn addr(&self) -> (r: String)
        ensures
            r@ == self.server_host@ + ":"@ + dec_digits(self.server_port as nat),
    {
        let mut s = self.server_host.clone();
        s.append(":");
        let p = u16_to_string(self.server_port);
        s.append(p.as_str());
        s
    }
}

} // verus!
