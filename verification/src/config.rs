//! What a listener's configuration says about its transport.

use vstd::prelude::*;
use vstd::string::StringExecFns;

verus! {

/// The transport a listener accepts connections on.
#[derive(Debug, Clone, Copy, PartialEq, Eq, Hash, Structural)]
pub enum Protocol {
    Tcp,
    Tls,
    Ws,
    Wss,
}

impl Protocol {
    /// The transport that a name in the configuration stands for: `tcp`,
    /// `tls`, `ws` or `wss`, in lower case.
    pub open spec fn spec_from(s: Seq<char>) -> Option<Protocol> {
        if s == "tcp"@ {
            Some(Protocol::Tcp)
        } else if s == "tls"@ {
            Some(Protocol::Tls)
        } else if s == "ws"@ {
            Some(Protocol::Ws)
        } else if s == "wss"@ {
            Some(Protocol::Wss)
        } else {
            None
        }
    }

    /// Reads the name of a transport. Any other text is refused with the
    /// message `unknown protocol: ` followed by the text.
    pub fn from_str(s: &str) -> (res: Result<Protocol, String>)
        ensures
            match Protocol::spec_from(s@) {
                Some(p) => res matches Ok(got) && got == p,
                None => res matches Err(msg) && msg@ == "unknown protocol: "@ + s@,
            },
    {
        let name = s.to_owned();
        if name == "tcp".to_owned() {
            Ok(Protocol::Tcp)
        } else if name == "tls".to_owned() {
            Ok(Protocol::Tls)
        } else if name == "ws".to_owned() {
            Ok(Protocol::Ws)
        } else if name == "wss".to_owned() {
            Ok(Protocol::Wss)
        } else {
            Err("unknown protocol: ".to_owned().concat(s))
        }
    }
}

} // verus!
