use vstd::prelude::*;
use vstd::utf8::encode_utf8;

use crate::envelope::{envelope, envelope_text, CAPACITY};
use crate::net::{
    address_text, bind_socket, bound_port, ip_text, enable_broadcast, receive_datagram, send_datagram, Endpoint,
    IpAddress, NetError, Received,
};

verus! {

/// Whether `e` is the envelope of a datagram of at most `CAPACITY` bytes
/// from some host, named by its address alone (no port).
pub open spec fn is_envelope(e: Seq<char>) -> bool {
    exists|ip: IpAddress, d: Seq<u8>|
        d.len() <= CAPACITY && e == #[trigger] envelope_text(ip_text(ip), d)
}

/// A zeroed receive buffer of `CAPACITY` bytes.
pub fn fresh_buffer() -> (r: Vec<u8>)
    ensures
        r@ == Seq::new(CAPACITY as nat, |i: int| 0u8),
{
    let mut buffer: Vec<u8> = Vec::new();
    let mut i: usize = 0;
    while i < CAPACITY
        invariant
            i <= CAPACITY,
            buffer@ == Seq::new(i as nat, |k: int| 0u8),
        decreases CAPACITY - i,
    {
        buffer.push(0u8);
        i = i + 1;
        assert(buffer@ =~= Seq::new(i as nat, |k: int| 0u8));
    }
    buffer
}

/// Turns the outcome of one read into `buffer` into the listener's answer:
/// the error as it came, `Ok(None)` when nothing was waiting, and else the
/// envelope of the `amount` bytes read, from the host that sent them.
pub fn envelope_of_read(read: Result<Received, NetError>, buffer: &[u8]) -> (r: Result<
    Option<String>,
    NetError,
>)
    requires
        read matches Ok(Received::Datagram { amount, .. }) ==> amount <= buffer@.len(),
    ensures
        read matches Err(e) ==> r == Err::<Option<String>, NetError>(e),
        read matches Ok(Received::Empty) ==> r == Ok::<Option<String>, NetError>(None),
        read matches Ok(Received::Datagram { amount, source }) ==> (r matches Ok(Some(e)) && e@
            == envelope_text(ip_text(source), buffer@.take(amount as int))),
{
    match read {
        Err(e) => Err(e),
        Ok(Received::Empty) => Ok(None),
        Ok(Received::Datagram { amount, source }) => {
            let datagram = vstd::slice::slice_subrange(buffer, 0, amount);
            assert(datagram@ =~= buffer@.take(amount as int));
            let src = address_text(&source);
            Ok(Some(envelope(src.as_str(), datagram)))
        },
    }
}

/// Reads at most one waiting datagram from `socket` into a fresh buffer of
/// `CAPACITY` bytes: `Ok(None)` when none waits, the socket's error when it
/// fails, and else the envelope of that datagram.
pub(crate) fn receive(socket: &mio::net::UdpSocket) -> (r: Result<Option<String>, NetError>)
    ensures
        r matches Ok(Some(e)) ==> is_envelope(e@),
{
    let mut buffer = fresh_buffer();
    let read = receive_datagram(socket, &mut buffer);
    let ghost seen = read;
    let r = envelope_of_read(read, buffer.as_slice());
    proof {
        if let Ok(Received::Datagram { amount, source }) = seen {
            let d = buffer@.take(amount as int);
            assert(d.len() <= CAPACITY);
            assert(r->Ok_0->Some_0@ == envelope_text(ip_text(source), d));
        }
    }
    r
}

/// The polling loop's event for the outcome of one read attempt.
pub fn event_of(outcome: Result<Option<String>, NetError>) -> (r: PollEvent)
    ensures
        outcome matches Ok(Some(e)) ==> r == PollEvent::Arrived(e),
        outcome matches Ok(None) ==> r == PollEvent::Empty,
        outcome matches Err(err) ==> r == PollEvent::Fault(err),
{
    match outcome {
        Ok(Some(e)) => PollEvent::Arrived(e),
        Ok(None) => PollEvent::Empty,
        Err(err) => PollEvent::Fault(err),
    }
}

/// Where the polling loop stands.
#[derive(Clone, Copy, Debug, PartialEq, Eq, Structural)]
pub enum PollState {
    /// Ready for the next read attempt.
    Polling,
    /// Ended by a fatal error or a cancellation; nothing more comes.
    Finished,
}

/// What the loop learned since its last decision.
#[derive(Clone, Debug)]
pub enum PollEvent {
    /// No datagram was waiting.
    Empty,
    /// A datagram came, already put in its envelope.
    Arrived(String),
    /// The socket failed.
    Fault(NetError),
    /// The consumer asked the loop to stop.
    Cancelled,
}

/// What the loop does next.
#[derive(Clone, Debug)]
pub enum PollAction {
    /// Sleep for the poll interval, then try again.
    Wait,
    /// Hand this envelope to the consumer.
    Emit(String),
    /// End the sequence with this error.
    Fail(NetError),
    /// End the sequence without an error.
    Stop,
}

/// The loop's rule: retry on empty reads, emit each envelope, end for good on
/// a fault or a cancellation.
pub open spec fn transition(state: PollState, event: PollEvent) -> (PollState, PollAction) {
    match state {
        PollState::Finished => (PollState::Finished, PollAction::Stop),
        PollState::Polling => match event {
            PollEvent::Empty => (PollState::Polling, PollAction::Wait),
            PollEvent::Arrived(e) => (PollState::Polling, PollAction::Emit(e)),
            PollEvent::Fault(err) => (PollState::Finished, PollAction::Fail(err)),
            PollEvent::Cancelled => (PollState::Finished, PollAction::Stop),
        },
    }
}

/// The state after a run of events.
pub open spec fn run(state: PollState, events: Seq<PollEvent>) -> PollState
    decreases events.len(),
{
    if events.len() == 0 {
        state
    } else {
        run(transition(state, events[0]).0, events.drop_first())
    }
}

/// Decides the loop's next state and action from the current state and the
/// latest event.
pub fn step(state: PollState, event: PollEvent) -> (r: (PollState, PollAction))
    ensures
        r == transition(state, event),
{
    match state {
        PollState::Finished => (PollState::Finished, PollAction::Stop),
        PollState::Polling => match event {
            PollEvent::Empty => (PollState::Polling, PollAction::Wait),
            PollEvent::Arrived(e) => (PollState::Polling, PollAction::Emit(e)),
            PollEvent::Fault(err) => (PollState::Finished, PollAction::Fail(err)),
            PollEvent::Cancelled => (PollState::Finished, PollAction::Stop),
        },
    }
}

/// Empty reads never end the loop: after any number of them it is still
/// polling, and each one asks only to wait and retry.
pub proof fn lemma_empty_polls_keep_polling(events: Seq<PollEvent>)
    requires
        forall|i: int| 0 <= i < events.len() ==> events[i] is Empty,
    ensures
        run(PollState::Polling, events) == PollState::Polling,
        forall|i: int|
            0 <= i < events.len() ==> #[trigger] transition(PollState::Polling, events[i]) == (
            PollState::Polling,
            PollAction::Wait,
        ),
    decreases events.len(),
{
    if events.len() > 0 {
        let rest = events.drop_first();
        assert forall|i: int| 0 <= i < rest.len() implies rest[i] is Empty by {
            assert(rest[i] == events[i + 1]);
        }
        lemma_empty_polls_keep_polling(rest);
    }
}

/// Once finished, the loop stays finished and produces nothing more,
/// whatever happens after.
pub proof fn lemma_finished_is_final(events: Seq<PollEvent>)
    ensures
        run(PollState::Finished, events) == PollState::Finished,
    decreases events.len(),
{
    if events.len() > 0 {
        lemma_finished_is_final(events.drop_first());
    }
}

/// A listener: owns a socket and the endpoint it is bound to, and turns
/// each datagram on it into an envelope.
pub struct Hub {
    pub socket: mio::net::UdpSocket,
    at: Endpoint,
}

impl Hub {
    /// The endpoint the socket is bound to.
    pub closed spec fn endpoint(&self) -> Endpoint {
        self.at
    }

    /// Binds a socket to `address` and `port`. With port 0 the operating
    /// system picks the port, and the hub records the one it picked.
    pub fn bind(address: &IpAddress, port: u16) -> (r: Result<Hub, NetError>)
        ensures
            r matches Ok(h) ==> h.endpoint().ip == *address,
            port != 0 ==> (r matches Ok(h) ==> h.endpoint().port == port),
    {
        match bind_socket(&Endpoint { ip: *address, port }) {
            Err(e) => Err(e),
            Ok(socket) => {
                if port != 0 {
                    Ok(Hub { socket, at: Endpoint { ip: *address, port } })
                } else {
                    match bound_port(&socket) {
                        Err(e) => Err(e),
                        Ok(p) => Ok(Hub { socket, at: Endpoint { ip: *address, port: p } }),
                    }
                }
            },
        }
    }

    /// The endpoint the socket is bound to.
    pub fn local(&self) -> (r: Endpoint)
        ensures
            r == self.endpoint(),
    {
        self.at
    }

    /// Enables broadcast on the socket, then sends `message`, as its UTF-8
    /// bytes, in one datagram to `destination`. Returns the count of bytes
    /// sent.
    pub fn send_to(&self, message: &str, destination: &Endpoint) -> (r: Result<usize, NetError>)
        ensures
            r matches Ok(n) ==> n <= encode_utf8(message@).len(),
    {
        match enable_broadcast(&self.socket) {
            Err(e) => Err(e),
            Ok(()) => send_datagram(&self.socket, message.as_bytes(), destination),
        }
    }

    /// Sends `message` as `send_to` does, to the endpoint the socket is bound
    /// to.
    pub fn send(&self, message: &str) -> (r: Result<usize, NetError>)
        ensures
            r matches Ok(n) ==> n <= encode_utf8(message@).len(),
    {
        self.send_to(message, &self.at)
    }

    /// One read attempt: `Ok(None)` when no datagram waits, the socket's
    /// error when it fails, else the envelope of the datagram that came.
    pub fn listen(&self) -> (r: Result<Option<String>, NetError>)
        ensures
            r matches Ok(Some(e)) ==> is_envelope(e@),
    {
        receive(&self.socket)
    }

    /// One read attempt, as an event for the polling loop.
    pub fn poll(&self) -> (r: PollEvent)
        ensures
            r matches PollEvent::Arrived(e) ==> is_envelope(e@),
            !(r is Cancelled),
    {
        event_of(self.listen())
    }
}

} // verus!
