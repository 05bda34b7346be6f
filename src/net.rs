use vstd::prelude::*;
use vstd::string::StringExecFns;

verus! {

#[verifier::external_type_specification]
#[verifier::external_body]
pub struct ExUdpSocket(mio::net::UdpSocket);

/// An IP address: four octets, or eight 16-bit segments.
#[derive(Clone, Copy, Debug, PartialEq, Eq)]
pub enum IpAddress {
    V4([u8; 4]),
    V6([u16; 8]),
}

/// An IP address together with a port.
#[derive(Clone, Copy, Debug, PartialEq, Eq)]
pub struct Endpoint {
    pub ip: IpAddress,
    pub port: u16,
}

/// A failure reported by the operating system, with its description.
#[derive(Clone, Debug)]
pub struct NetError {
    pub reason: String,
}

/// The outcome of one read attempt that did not fail.
#[derive(Clone, Debug)]
pub enum Received {
    /// A datagram of `amount` bytes came from the host at `source`.
    Datagram { amount: usize, source: IpAddress },
    /// No datagram was waiting.
    Empty,
}

/// The digit for `d` in bases up to sixteen, lower case.
pub open spec fn digit_char(d: nat) -> char {
    seq!['0', '1', '2', '3', '4', '5', '6', '7', '8', '9', 'a', 'b', 'c', 'd', 'e', 'f'][d as int]
}

/// `n` in decimal, without leading zeros.
pub open spec fn decimal(n: nat) -> Seq<char>
    decreases n,
{
    if n < 10 {
        seq![digit_char(n)]
    } else {
        decimal(n / 10) + seq![digit_char(n % 10)]
    }
}

/// How std writes an IPv6 address with these eight segments (shortest
/// form, with `::` for the longest run of zero segments).
pub uninterp spec fn ipv6_display(segments: Seq<u16>) -> Seq<char>;

/// Relies on `core::net::Ipv6Addr`'s `Display`: the address in its textual
/// form, which depends on the segments alone.
#[verifier::external_body]
fn ipv6_text(segments: [u16; 8]) -> (r: String)
    ensures
        r@ == ipv6_display(segments@),
{
    core::net::Ipv6Addr::from(segments).to_string()
}

/// The text of an address: dotted decimal for IPv4, std's form for IPv6.
pub open spec fn ip_text(ip: IpAddress) -> Seq<char> {
    match ip {
        IpAddress::V4(o) => octets_text(o@, 4),
        IpAddress::V6(g) => ipv6_display(g@),
    }
}

fn digit_text(d: u16) -> (r: &'static str)
    requires
        d < 16,
    ensures
        r@ == seq![digit_char(d as nat)],
{
    if d == 0 {
        proof {
            reveal_strlit("0");
        }
        "0"
    } else if d == 1 {
        proof {
            reveal_strlit("1");
        }
        "1"
    } else if d == 2 {
        proof {
            reveal_strlit("2");
        }
        "2"
    } else if d == 3 {
        proof {
            reveal_strlit("3");
        }
        "3"
    } else if d == 4 {
        proof {
            reveal_strlit("4");
        }
        "4"
    } else if d == 5 {
        proof {
            reveal_strlit("5");
        }
        "5"
    } else if d == 6 {
        proof {
            reveal_strlit("6");
        }
        "6"
    } else if d == 7 {
        proof {
            reveal_strlit("7");
        }
        "7"
    } else if d == 8 {
        proof {
            reveal_strlit("8");
        }
        "8"
    } else if d == 9 {
        proof {
            reveal_strlit("9");
        }
        "9"
    } else if d == 10 {
        proof {
            reveal_strlit("a");
        }
        "a"
    } else if d == 11 {
        proof {
            reveal_strlit("b");
        }
        "b"
    } else if d == 12 {
        proof {
            reveal_strlit("c");
        }
        "c"
    } else if d == 13 {
        proof {
            reveal_strlit("d");
        }
        "d"
    } else if d == 14 {
        proof {
            reveal_strlit("e");
        }
        "e"
    } else {
        proof {
            reveal_strlit("f");
        }
        "f"
    }
}

fn push_decimal(s: &mut String, n: u16)
    ensures
        final(s)@ == old(s)@ + decimal(n as nat),
    decreases n,
{
    if n >= 10 {
        push_decimal(s, n / 10);
    }
    s.append(digit_text(n % 10));
}

/// The text of an address, as `ip_text` gives it.
pub fn address_text(ip: &IpAddress) -> (r: String)
    ensures
        r@ == ip_text(*ip),
{
    let mut s = String::new();
    match ip {
        IpAddress::V4(o) => {
            let mut i: usize = 0;
            while i < 4
                invariant
                    i <= 4,
                    *ip == IpAddress::V4(*o),
                    s@ == octets_text(o@, i as int),
                decreases 4 - i,
            {
                if i > 0 {
                    s.append(".");
                    proof {
                        reveal_strlit(".");
                    }
                }
                push_decimal(&mut s, o[i] as u16);
                i = i + 1;
                assert(s@ =~= octets_text(o@, i as int));
            }
            assert(s@ =~= ip_text(*ip));
        },
        IpAddress::V6(g) => {
            s = ipv6_text(*g);
        },
    }
    s
}

/// The first `n` octets in decimal, separated by dots.
pub open spec fn octets_text(o: Seq<u8>, n: int) -> Seq<char>
    decreases n,
{
    if n <= 0 {
        Seq::empty()
    } else if n == 1 {
        decimal(o[0] as nat)
    } else {
        octets_text(o, n - 1) + seq!['.'] + decimal(o[n - 1] as nat)
    }
}

/// Relies on `mio::net::UdpSocket::bind`: a non-blocking UDP socket bound to
/// the endpoint, or the operating system's error.
#[verifier::external_body]
pub(crate) fn bind_socket(at: &Endpoint) -> (r: Result<mio::net::UdpSocket, NetError>) {
    let target = match at.ip {
        IpAddress::V4(octets) => (octets, at.port).into(),
        IpAddress::V6(segments) => (segments, at.port).into(),
    };
    match mio::net::UdpSocket::bind(target) {
        Ok(socket) => Ok(socket),
        Err(e) => Err(NetError { reason: e.to_string() }),
    }
}

/// Relies on `mio::net::UdpSocket::local_addr`: the port the socket is bound
/// to, or the operating system's error.
#[verifier::external_body]
pub(crate) fn bound_port(socket: &mio::net::UdpSocket) -> (r: Result<u16, NetError>) {
    match socket.local_addr() {
        Ok(a) => Ok(a.port()),
        Err(e) => Err(NetError { reason: e.to_string() }),
    }
}

/// Relies on `mio::net::UdpSocket::set_broadcast`: sets `SO_BROADCAST`, which
/// setting again leaves as it is.
#[verifier::external_body]
pub(crate) fn enable_broadcast(socket: &mio::net::UdpSocket) -> (r: Result<(), NetError>) {
    match socket.set_broadcast(true) {
        Ok(()) => Ok(()),
        Err(e) => Err(NetError { reason: e.to_string() }),
    }
}

/// Relies on `mio::net::UdpSocket::send_to`: one datagram to `to`; the count
/// of bytes sent is at most the length of `bytes`.
#[verifier::external_body]
pub(crate) fn send_datagram(socket: &mio::net::UdpSocket, bytes: &[u8], to: &Endpoint) -> (r:
    Result<usize, NetError>)
    ensures
        r matches Ok(n) ==> n <= bytes@.len(),
{
    let target = match to.ip {
        IpAddress::V4(octets) => (octets, to.port).into(),
        IpAddress::V6(segments) => (segments, to.port).into(),
    };
    match socket.send_to(bytes, target) {
        Ok(n) => Ok(n),
        Err(e) => Err(NetError { reason: e.to_string() }),
    }
}

/// Relies on `mio::net::UdpSocket::recv_from`: reads one waiting datagram into
/// `buffer`, at most its length, and reports `WouldBlock` when none waits.
#[verifier::external_body]
pub(crate) fn receive_datagram(socket: &mio::net::UdpSocket, buffer: &mut Vec<u8>) -> (r: Result<
    Received,
    NetError,
>)
    ensures
        final(buffer)@.len() == old(buffer)@.len(),
        r matches Ok(Received::Datagram { amount, .. }) ==> amount <= final(buffer)@.len(),
{
    match socket.recv_from(buffer.as_mut_slice()) {
        Ok((amount, from)) => match from.ip() {
            core::net::IpAddr::V4(a) => Ok(
                Received::Datagram { amount, source: IpAddress::V4(a.octets()) },
            ),
            core::net::IpAddr::V6(a) => Ok(
                Received::Datagram { amount, source: IpAddress::V6(a.segments()) },
            ),
        },
        Err(e) if e.kind() == std::io::ErrorKind::WouldBlock => Ok(Received::Empty),
        Err(e) => Err(NetError { reason: e.to_string() }),
    }
}

} // verus!
