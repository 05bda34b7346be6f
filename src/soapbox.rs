use vstd::prelude::*;
use vstd::string::StringExecFns;
use vstd::utf8::encode_utf8;

use crate::hub::{is_envelope, Hub};
use crate::net::{ip_text, Endpoint, IpAddress, NetError};
use crate::{listen, open, send};

verus! {

/// The text of a refused bind: the address, then the operating system's
/// reason.
pub open spec fn bind_error_text(address: IpAddress, reason: Seq<char>) -> Seq<char> {
    "Could not bind to "@ + ip_text(address) + ": "@ + reason
}

/// A socket bound to one endpoint, which sends to that endpoint and reads
/// what arrives on it.
pub struct Soapbox {
    hub: Hub,
}

impl Soapbox {
    /// The endpoint the socket is bound to.
    pub closed spec fn endpoint(&self) -> Endpoint {
        self.hub.endpoint()
    }

    /// Binds a socket to `address` and `port`; the error names the address
    /// and says why the operating system refused.
    pub fn new(address: &IpAddress, port: u16) -> (r: Result<Soapbox, String>)
        ensures
            r matches Ok(s) ==> s.endpoint().ip == *address,
            port != 0 ==> (r matches Ok(s) ==> s.endpoint().port == port),
            r matches Err(t) ==> exists|reason: Seq<char>| t@ == bind_error_text(*address, reason),
    {
        match open(address, port) {
            Ok(hub) => Ok(Soapbox { hub }),
            Err(e) => {
                let mut t = String::from_str("Could not bind to ");
                t.append(crate::net::address_text(address).as_str());
                t.append(": ");
                t.append(e.reason.as_str());
                proof {
                    reveal_strlit("Could not bind to ");
                    reveal_strlit(": ");
                    assert(t@ =~= bind_error_text(*address, e.reason@));
                }
                Err(t)
            },
        }
    }

    /// The endpoint the socket is bound to.
    pub fn local(&self) -> (r: Endpoint)
        ensures
            r == self.endpoint(),
    {
        self.hub.local()
    }

    /// Enables broadcast, then sends `message` in one datagram to the bound
    /// endpoint. Returns the count of bytes sent.
    pub fn send(&self, message: &str) -> (r: Result<usize, NetError>)
        ensures
            r matches Ok(n) ==> n <= encode_utf8(message@).len(),
    {
        send(&self.hub, message)
    }

    /// One read attempt: `Ok(None)` when no datagram waits, the socket's error
    /// when it fails, else the envelope of the datagram that came.
    pub fn listen(&self) -> (r: Result<Option<String>, NetError>)
        ensures
            r matches Ok(Some(e)) ==> is_envelope(e@),
    {
        listen(&self.hub)
    }
}

} // verus!
