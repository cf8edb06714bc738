//! The leaf future of one HTTP GET over a non-blocking connection.
//!
//! The future does no I/O itself. Each poll of it is a short exchange: the
//! caller reports what happened on the socket, and [`HttpGetFuture::advance`]
//! answers with what to do next, until the answer ends the poll.

use crate::runtime::reactor::id_after;
use crate::runtime::reactor::Reactor;
use crate::runtime::waker::Waker;
use vstd::prelude::*;
use vstd::string::StringExecFns;
use vstd::utf8::decode_utf8;
use vstd::utf8::valid_utf8;

verus! {

/// The size of the buffer that one read fills at most.
pub const READ_CHUNK: usize = 4096;

/// The text of the request for `path`.
pub open spec fn request_text(path: Seq<char>) -> Seq<char> {
    "GET "@ + path + " HTTP/1.1\r\nHost: localhost\r\nConnection: close\r\n\r\n"@
}

/// Builds the request for `path`: the bytes that are written to the
/// connection once it is open.
pub fn get_req(path: &str) -> (request: String)
    ensures
        request@ == request_text(path@),
{
    let mut request = String::from_str("GET ");
    request.append(path);
    request.append(" HTTP/1.1\r\nHost: localhost\r\nConnection: close\r\n\r\n");
    request
}

/// The text that `String::from_utf8_lossy` makes of `bytes`.
pub uninterp spec fn lossy_text(bytes: Seq<u8>) -> Seq<char>;

/// `String::from_utf8_lossy` of std: decodes `bytes` as UTF-8 and puts the
/// replacement character in place of each invalid sequence, so it never
/// fails. Bytes that are valid UTF-8 come out as the text they encode.
#[verifier::external_body]
fn decode_lossy(bytes: &Vec<u8>) -> (text: String)
    ensures
        text@ == lossy_text(bytes@),
        valid_utf8(bytes@) ==> text@ == decode_utf8(bytes@),
{
    String::from_utf8_lossy(bytes).into_owned()
}

/// Where a request stands.
#[derive(Clone, Copy, Debug, PartialEq, Eq, Structural)]
pub enum Phase {
    /// Not polled yet: no connection is open.
    NotStarted,
    /// The request is sent; the response is read as it arrives.
    AwaitingReadable,
    /// The operation is over: the peer has closed the connection, or a read
    /// has failed.
    Done,
}

/// One attempt to read from the connection, as the caller saw it.
#[derive(Debug, PartialEq, Eq)]
pub enum ReadOutcome {
    /// The read returned these bytes; none means that the peer has closed
    /// the connection.
    Bytes(Vec<u8>),
    /// The read would block: nothing has arrived yet.
    WouldBlock,
    /// The read was interrupted before it got anything.
    Interrupted,
    /// The read failed for any other reason.
    Failed,
}

/// What the caller reports to the future.
#[derive(Debug, PartialEq, Eq)]
pub enum IoEvent {
    /// The future is being polled.
    Polled,
    /// The read that the future asked for has returned.
    Read(ReadOutcome),
}

/// What the caller has to do next.
#[derive(Debug, PartialEq, Eq)]
pub enum IoAction {
    /// Open a non-blocking connection, write `request` to it and register
    /// it with the event source for reading under `id`. The poll then
    /// returns `NotReady`.
    Open { request: String, id: usize },
    /// Try to read from the connection and report the outcome.
    Read,
    /// The poll returns `NotReady`; the current waker is registered.
    Suspend,
    /// Take the connection out of the event source. The poll returns
    /// `Ready` with this text.
    Finish(String),
    /// Take the connection out of the event source and fail: the operation
    /// cannot recover.
    Abort,
}

/// An event, with the bytes read as a sequence.
pub enum Input {
    Polled,
    Bytes(Seq<u8>),
    WouldBlock,
    Interrupted,
    Failed,
}

/// An action, with its texts as sequences.
pub enum Effect {
    Open { request: Seq<char>, id: usize },
    Read,
    Suspend,
    Finish(Seq<char>),
    Abort,
}

impl View for IoEvent {
    type V = Input;

    open spec fn view(&self) -> Input {
        match self {
            IoEvent::Polled => Input::Polled,
            IoEvent::Read(ReadOutcome::Bytes(bytes)) => Input::Bytes(bytes@),
            IoEvent::Read(ReadOutcome::WouldBlock) => Input::WouldBlock,
            IoEvent::Read(ReadOutcome::Interrupted) => Input::Interrupted,
            IoEvent::Read(ReadOutcome::Failed) => Input::Failed,
        }
    }
}

impl View for IoAction {
    type V = Effect;

    open spec fn view(&self) -> Effect {
        match self {
            IoAction::Open { request, id } => Effect::Open { request: request@, id: *id },
            IoAction::Read => Effect::Read,
            IoAction::Suspend => Effect::Suspend,
            IoAction::Finish(text) => Effect::Finish(text@),
            IoAction::Abort => Effect::Abort,
        }
    }
}

/// The state of a request: its phase, the path it asks for, the bytes of
/// the response received so far, and the id of its operation at the
/// reactor (zero until the operation has started).
pub struct Request {
    pub phase: Phase,
    pub path: Seq<char>,
    pub received: Seq<u8>,
    pub id: usize,
}

/// A request and a reactor after one step, and the action that the step
/// answers with.
pub struct Advance {
    pub request: Request,
    pub wakers: Map<usize, Waker>,
    pub upcoming_id: usize,
    pub effect: Effect,
}

/// One step of a request that is not done.
///
/// * Not started: the operation takes the reactor's next id, `waker` is
///   registered under it, and the caller is told to open the connection.
/// * Awaiting, polled or interrupted: read (again).
/// * Awaiting, bytes read: they are added to what was received; read again.
/// * Awaiting, none read: the peer has closed. The operation leaves the
///   registry and finishes with the text of all that was received.
/// * Awaiting, would block: `waker` replaces the waker registered for the
///   operation, and the poll is suspended.
/// * Awaiting, failed: the operation leaves the registry and aborts.
pub open spec fn advanced(
    request: Request,
    wakers: Map<usize, Waker>,
    upcoming_id: usize,
    waker: Waker,
    input: Input,
) -> Advance {
    match request.phase {
        Phase::NotStarted => Advance {
            request: Request { phase: Phase::AwaitingReadable, id: upcoming_id, ..request },
            wakers: wakers.insert(upcoming_id, waker),
            upcoming_id: id_after(upcoming_id),
            effect: Effect::Open { request: request_text(request.path), id: upcoming_id },
        },
        Phase::AwaitingReadable => match input {
            Input::Polled | Input::Interrupted => Advance {
                request,
                wakers,
                upcoming_id,
                effect: Effect::Read,
            },
            Input::Bytes(bytes) => if bytes.len() > 0 {
                Advance {
                    request: Request { received: request.received + bytes, ..request },
                    wakers,
                    upcoming_id,
                    effect: Effect::Read,
                }
            } else {
                Advance {
                    request: Request { phase: Phase::Done, ..request },
                    wakers: wakers.remove(request.id),
                    upcoming_id,
                    effect: Effect::Finish(lossy_text(request.received)),
                }
            },
            Input::WouldBlock => Advance {
                request,
                wakers: wakers.insert(request.id, waker),
                upcoming_id,
                effect: Effect::Suspend,
            },
            Input::Failed => Advance {
                request: Request { phase: Phase::Done, ..request },
                wakers: wakers.remove(request.id),
                upcoming_id,
                effect: Effect::Abort,
            },
        },
        Phase::Done => Advance { request, wakers, upcoming_id, effect: Effect::Abort },
    }
}

/// The entry point for requests.
pub struct Http;

impl Http {
    /// A future for the response to a GET of `path`. Nothing happens until
    /// it is polled.
    pub fn get(path: &str) -> (future: HttpGetFuture)
        ensures
            future@ == (Request {
                phase: Phase::NotStarted,
                path: path@,
                received: Seq::<u8>::empty(),
                id: 0,
            }),
    {
        HttpGetFuture::new(path.to_owned())
    }
}

/// One GET in flight: the request, and the bytes of the response that have
/// arrived.
///
/// A request that is dropped while it awaits its response stays in the
/// registry of the reactor: there is no cancellation.
pub struct HttpGetFuture {
    phase: Phase,
    path: String,
    buffer: Vec<u8>,
    id: usize,
}

impl View for HttpGetFuture {
    type V = Request;

    closed spec fn view(&self) -> Request {
        Request { phase: self.phase, path: self.path@, received: self.buffer@, id: self.id }
    }
}

impl HttpGetFuture {
    /// A request for `path` that has not started.
    pub fn new(path: String) -> (future: HttpGetFuture)
        ensures
            future@ == (Request {
                phase: Phase::NotStarted,
                path: path@,
                received: Seq::<u8>::empty(),
                id: 0,
            }),
    {
        HttpGetFuture { phase: Phase::NotStarted, path, buffer: Vec::new(), id: 0 }
    }

    /// Where the request stands.
    pub fn phase(&self) -> (phase: Phase)
        ensures
            phase == self@.phase,
    {
        self.phase
    }

    /// The id of the operation at the reactor.
    pub fn id(&self) -> (id: usize)
        ensures
            id == self@.id,
    {
        self.id
    }

    /// Takes one step of the current poll.
    ///
    /// A poll begins with `IoEvent::Polled`. After an answer of `Read` the
    /// caller reads and calls again with the outcome; any other answer ends
    /// the poll. `waker` is the waker of the poll, `reactor` the reactor that
    /// watches the connection. A request that is done is not polled again.
    pub fn advance(&mut self, reactor: &mut Reactor, waker: &Waker, event: IoEvent) -> (action:
        IoAction)
        requires
            old(self)@.phase != Phase::Done,
        ensures
            ({
                let next = advanced(
                    old(self)@,
                    old(reactor).wakers(),
                    old(reactor).upcoming_id(),
                    *waker,
                    event@,
                );
                &&& final(self)@ == next.request
                &&& final(reactor).wakers() == next.wakers
                &&& final(reactor).upcoming_id() == next.upcoming_id
                &&& action@ == next.effect
            }),
            action matches IoAction::Finish(text) ==> (valid_utf8(old(self)@.received) ==> text@
                == decode_utf8(old(self)@.received)),
    {
        match self.phase {
            Phase::NotStarted => {
                let id: usize = reactor.next_id();
                reactor.set_waker(waker, id);
                self.id = id;
                self.phase = Phase::AwaitingReadable;
                IoAction::Open { request: get_req(self.path.as_str()), id }
            },
            Phase::AwaitingReadable => match event {
                IoEvent::Polled => IoAction::Read,
                IoEvent::Read(ReadOutcome::Interrupted) => IoAction::Read,
                IoEvent::Read(ReadOutcome::Bytes(mut bytes)) => {
                    if bytes.len() > 0 {
                        self.buffer.append(&mut bytes);
                        IoAction::Read
                    } else {
                        let text = decode_lossy(&self.buffer);
                        if reactor.is_registered(self.id) {
                            reactor.deregister(self.id);
                        }
                        self.phase = Phase::Done;
                        IoAction::Finish(text)
                    }
                },
                IoEvent::Read(ReadOutcome::WouldBlock) => {
                    reactor.set_waker(waker, self.id);
                    IoAction::Suspend
                },
                IoEvent::Read(ReadOutcome::Failed) => {
                    if reactor.is_registered(self.id) {
                        reactor.deregister(self.id);
                    }
                    self.phase = Phase::Done;
                    IoAction::Abort
                },
            },
            Phase::Done => vstd::pervasive::unreached(),
        }
    }
}

/// Whether `input` leaves a request open: it is neither the end of the
/// response nor a failure.
pub open spec fn keeps_open(input: Input) -> bool {
    match input {
        Input::Bytes(bytes) => bytes.len() > 0,
        Input::Failed => false,
        _ => true,
    }
}

/// The bytes that `inputs` bring, in order.
pub open spec fn payload(inputs: Seq<Input>) -> Seq<u8>
    decreases inputs.len(),
{
    if inputs.len() == 0 {
        Seq::empty()
    } else {
        match inputs.last() {
            Input::Bytes(bytes) => payload(inputs.drop_last()) + bytes,
            _ => payload(inputs.drop_last()),
        }
    }
}

/// The request and the reactor after the request has taken a step on each
/// input of `inputs`, first to last; with no input, the request as it
/// stands, about to read.
pub open spec fn fed(
    request: Request,
    wakers: Map<usize, Waker>,
    upcoming_id: usize,
    waker: Waker,
    inputs: Seq<Input>,
) -> Advance
    decreases inputs.len(),
{
    if inputs.len() == 0 {
        Advance { request, wakers, upcoming_id, effect: Effect::Read }
    } else {
        let before = fed(request, wakers, upcoming_id, waker, inputs.drop_last());
        advanced(before.request, before.wakers, before.upcoming_id, waker, inputs.last())
    }
}

/// The response is all that was read: however the bytes of the response
/// arrive, in pieces of any size and with any number of polls, blocked reads
/// and interruptions in between, the request stays open and keeps what it
/// has received, and when the peer closes the connection it finishes with
/// the text of exactly the bytes received, in order, and leaves the
/// registry.
pub proof fn law_response_is_all_that_was_read(
    request: Request,
    wakers: Map<usize, Waker>,
    upcoming_id: usize,
    waker: Waker,
    inputs: Seq<Input>,
)
    requires
        request.phase == Phase::AwaitingReadable,
        forall|i: int| 0 <= i < inputs.len() ==> keeps_open(#[trigger] inputs[i]),
    ensures
        ({
            let open = fed(request, wakers, upcoming_id, waker, inputs);
            let closed = advanced(
                open.request,
                open.wakers,
                open.upcoming_id,
                waker,
                Input::Bytes(Seq::empty()),
            );
            &&& open.request == (Request {
                received: request.received + payload(inputs),
                ..request
            })
            &&& closed.effect == Effect::Finish(lossy_text(request.received + payload(inputs)))
            &&& closed.request.phase == Phase::Done
            &&& !closed.wakers.contains_key(request.id)
        }),
    decreases inputs.len(),
{
    if inputs.len() > 0 {
        let earlier = inputs.drop_last();
        law_response_is_all_that_was_read(request, wakers, upcoming_id, waker, earlier);
        match inputs.last() {
            Input::Bytes(bytes) => {
                assert(request.received + payload(earlier) + bytes == request.received + payload(
                    inputs,
                ));
            },
            _ => {},
        }
    }
}

/// A request that is over is not polled again: the step that ends a
/// request, with `Finish` or with `Abort`, and no other step, leaves it
/// done, and `advance` does not admit a request that is done.
pub proof fn law_finished_request_is_done(
    request: Request,
    wakers: Map<usize, Waker>,
    upcoming_id: usize,
    waker: Waker,
    input: Input,
)
    requires
        request.phase != Phase::Done,
    ensures
        ({
            let next = advanced(request, wakers, upcoming_id, waker, input);
            (next.effect is Finish || next.effect is Abort) <==> next.request.phase == Phase::Done
        }),
{
}

/// A poll that is suspended leaves the waker of that poll in the registry,
/// whatever was registered for the operation before.
pub proof fn law_suspended_poll_registers_its_waker(
    request: Request,
    wakers: Map<usize, Waker>,
    upcoming_id: usize,
    waker: Waker,
    input: Input,
)
    requires
        request.phase == Phase::AwaitingReadable,
        advanced(request, wakers, upcoming_id, waker, input).effect is Suspend,
    ensures
        advanced(request, wakers, upcoming_id, waker, input).wakers.contains_key(request.id),
        advanced(request, wakers, upcoming_id, waker, input).wakers[request.id] == waker,
        advanced(request, wakers, upcoming_id, waker, input).request == request,
{
}

} // verus!
