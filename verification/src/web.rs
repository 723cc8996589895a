//! What the configuration says about the admin web server.

use vstd::prelude::*;

verus! {

/// The web section of the configuration.
#[derive(Debug, Clone, PartialEq, Eq)]
pub struct Web {
    /// The address the web server listens on.
    pub addr: String,
}

impl Web {
    /// The address where the configuration names none: `0.0.0.0:8888`, which
    /// is every interface.
    pub fn default_addr() -> (addr: String)
        ensures
            addr@ == "0.0.0.0:8888"@,
    {
        "0.0.0.0:8888".to_owned()
    }
}

impl Default for Web {
    fn default() -> (web: Web)
        ensures
            web.addr@ == "0.0.0.0:8888"@,
    {
        Web { addr: Self::default_addr() }
    }
}

} // verus!
