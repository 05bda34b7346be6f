use vstd::prelude::*;
use vstd::utf8::encode_utf8;

pub mod envelope;
pub mod hub;
pub mod net;
pub mod soapbox;

pub use mio::net::UdpSocket;

use crate::hub::{is_envelope, Hub};
use crate::net::{Endpoint, IpAddress, NetError};

verus! {

/// Binds a non-blocking UDP socket to `address` and `port`. With port 0 the
/// operating system picks the port, and the hub records the one it picked.
pub fn open(address: &IpAddress, port: u16) -> (r: Result<Hub, NetError>)
    ensures
        r matches Ok(h) ==> h.endpoint().ip == *address,
        port != 0 ==> (r matches Ok(h) ==> h.endpoint().port == port),
{
    Hub::bind(address, port)
}

/// Enables broadcast on the hub's socket, then sends `message`, as its UTF-8
/// bytes, in one datagram to the endpoint the socket is bound to. Returns the
/// count of bytes sent.
pub fn send(hub: &Hub, message: &str) -> (r: Result<usize, NetError>)
    ensures
        r matches Ok(n) ==> n <= encode_utf8(message@).len(),
{
    hub.send(message)
}

/// Enables broadcast on the hub's socket, then sends `message`, as its UTF-8
/// bytes, in one datagram to `destination`. Returns the count of bytes sent.
pub fn send_to(hub: &Hub, message: &str, destination: &Endpoint) -> (r: Result<usize, NetError>)
    ensures
        r matches Ok(n) ==> n <= encode_utf8(message@).len(),
{
    hub.send_to(message, destination)
}

/// One read attempt on the hub's socket: `Ok(None)` when no datagram waits,
/// the socket's error when it fails, else the envelope of the datagram that
/// came.
pub fn listen(hub: &Hub) -> (r: Result<Option<String>, NetError>)
    ensures
        r matches Ok(Some(e)) ==> is_envelope(e@),
{
    hub.listen()
}

} // verus!
