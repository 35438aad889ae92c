//! Application configuration.

use vstd::prelude::*;

use crate::strutil::dec_rep;
use crate::strutil::push_char;
use crate::strutil::u64_to_string;

verus! {

/// Application configuration: where the database lives, where the
/// server binds, and how long a session lives.
#[derive(Debug, Clone)]
pub struct Config {
    pub database_url: String,
    pub server_host: String,
    pub server_port: u16,
    pub session_duration_hours: i64,
}

impl Config {
    /// The `host:port` address the server binds to.
    pub fn server_address(&self) -> (r: String)
        ensures
            r@ == self.server_host@ + seq![':'] + dec_rep(self.server_port as nat),
    {
        let mut out = self.server_host.clone();
        push_char(&mut out, ':');
        out.append(u64_to_string(self.server_port as u64).as_str());
        proof {
            assert(out@ =~= self.server_host@ + seq![':'] + dec_rep(self.server_port as nat));
        }
        out
    }
}

} // verus!
