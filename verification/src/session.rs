//! The per-connection handler: a state machine that decides, from the current
//! phase and one observed transport event, the next phase and the duty the
//! surrounding runtime must perform on that connection.
//!
//! The runtime owns the sockets. It performs exactly the duty the last
//! transition asked for (handshake, read, run the listing action, write), then
//! reports the outcome as the next [`Event`]. Every decision — how a received
//! line is decoded, trimmed and dispatched, what is written back, and when the
//! connection closes — is made here and is verified.

use vstd::prelude::*;
use vstd::utf8::{decode_utf8, valid_utf8};
use crate::command::{resolve, resolve_spec, Action, exit_chars, foo_chars};
use crate::text::{bytes_to_str, trim_spec, trim_str};

verus! {

/// Phases of one connection's handler.
#[derive(Clone, Copy, Debug, PartialEq, Eq)]
pub enum HandlerState {
    /// The raw connection is accepted; the TLS handshake is under way.
    Handshaking,
    /// The encrypted channel is up; the handler awaits the next line.
    Reading,
    /// A listing command was dispatched; the handler awaits its outcome.
    AwaitingListing,
    /// A response payload is being written back.
    Writing,
    /// Terminal: the session is released, nothing more happens on it.
    Closed,
}

/// What one read from the encrypted stream produced.
#[derive(Debug, PartialEq, Eq)]
pub enum ReadOutcome {
    /// The peer closed its write side: zero bytes.
    Eof,
    /// The bytes of one read.
    Data(Vec<u8>),
    /// A transport-level read error.
    Failed,
}

/// Spec-level image of [`ReadOutcome`].
pub enum ReadOutcomeModel {
    Eof,
    Data(Seq<u8>),
    Failed,
}

impl View for ReadOutcome {
    type V = ReadOutcomeModel;

    open spec fn view(&self) -> ReadOutcomeModel {
        match self {
            ReadOutcome::Eof => ReadOutcomeModel::Eof,
            ReadOutcome::Data(bytes) => ReadOutcomeModel::Data(bytes@),
            ReadOutcome::Failed => ReadOutcomeModel::Failed,
        }
    }
}

/// A transport event the runtime reports to the handler.
#[derive(Debug, PartialEq, Eq)]
pub enum Event {
    /// The TLS handshake finished; `true` on success.
    Handshake(bool),
    /// One read from the stream finished.
    Read(ReadOutcome),
    /// The listing action finished, with its captured output on success.
    ListingDone(Option<Vec<u8>>),
    /// The pending payload write finished; `true` on success.
    WriteDone(bool),
}

/// Spec-level image of [`Event`].
pub enum EventModel {
    Handshake(bool),
    Read(ReadOutcomeModel),
    ListingDone(Option<Seq<u8>>),
    WriteDone(bool),
}

impl View for Event {
    type V = EventModel;

    open spec fn view(&self) -> EventModel {
        match self {
            Event::Handshake(ok) => EventModel::Handshake(*ok),
            Event::Read(outcome) => EventModel::Read(outcome@),
            Event::ListingDone(output) => EventModel::ListingDone(
                match output {
                    Some(bytes) => Some(bytes@),
                    None => None,
                },
            ),
            Event::WriteDone(ok) => EventModel::WriteDone(*ok),
        }
    }
}

/// What the runtime must do next on this connection.
#[derive(Debug, PartialEq, Eq)]
pub enum Directive {
    /// Read the next line from the stream.
    AwaitRead,
    /// Run the directory-listing action.
    RunListing,
    /// Write this payload, then report the write's outcome.
    Write(Vec<u8>),
    /// Write this payload, then close whatever the write's outcome.
    WriteAndClose(Vec<u8>),
    /// Release the session.
    Close,
}

/// Spec-level image of [`Directive`].
pub enum DirectiveModel {
    AwaitRead,
    RunListing,
    Write(Seq<u8>),
    WriteAndClose(Seq<u8>),
    Close,
}

impl View for Directive {
    type V = DirectiveModel;

    open spec fn view(&self) -> DirectiveModel {
        match self {
            Directive::AwaitRead => DirectiveModel::AwaitRead,
            Directive::RunListing => DirectiveModel::RunListing,
            Directive::Write(payload) => DirectiveModel::Write(payload@),
            Directive::WriteAndClose(payload) => DirectiveModel::WriteAndClose(payload@),
            Directive::Close => DirectiveModel::Close,
        }
    }
}

/// The farewell line written back when the peer asks to exit.
pub open spec fn farewell_model() -> Seq<u8> {
    seq![71u8, 111u8, 111u8, 100u8, 98u8, 121u8, 101u8, 33u8, 10u8]
}

/// Build the farewell line, the bytes of `Goodbye!` and a newline.
pub fn farewell_payload() -> (r: Vec<u8>)
    ensures
        r@ == farewell_model(),
{
    let mut v: Vec<u8> = Vec::new();
    v.push(71u8);
    v.push(111u8);
    v.push(111u8);
    v.push(100u8);
    v.push(98u8);
    v.push(121u8);
    v.push(101u8);
    v.push(33u8);
    v.push(10u8);
    proof {
        assert(v@ =~= farewell_model());
    }
    v
}

/// How one received line is dispatched once the channel is up: bytes that are
/// not valid UTF-8 are a protocol violation and close the connection; a valid
/// line is trimmed and looked up in the registry.
pub open spec fn dispatch_model(bytes: Seq<u8>) -> (HandlerState, DirectiveModel) {
    if !valid_utf8(bytes) {
        (HandlerState::Closed, DirectiveModel::Close)
    } else {
        match resolve_spec(trim_spec(decode_utf8(bytes))) {
            Some(Action::ListDirectory) => (
                HandlerState::AwaitingListing,
                DirectiveModel::RunListing,
            ),
            Some(Action::Acknowledge) => (HandlerState::Reading, DirectiveModel::AwaitRead),
            Some(Action::Terminate) => (
                HandlerState::Closed,
                DirectiveModel::WriteAndClose(farewell_model()),
            ),
            None => (HandlerState::Reading, DirectiveModel::AwaitRead),
        }
    }
}

/// The full transition relation of the handler. An event that does not belong
/// to the current phase is a protocol violation and closes the connection.
pub open spec fn step_model(state: HandlerState, event: EventModel) -> (
    HandlerState,
    DirectiveModel,
) {
    match (state, event) {
        (HandlerState::Handshaking, EventModel::Handshake(ok)) => {
            if ok {
                (HandlerState::Reading, DirectiveModel::AwaitRead)
            } else {
                (HandlerState::Closed, DirectiveModel::Close)
            }
        },
        (HandlerState::Reading, EventModel::Read(outcome)) => match outcome {
            ReadOutcomeModel::Eof => (HandlerState::Closed, DirectiveModel::Close),
            ReadOutcomeModel::Failed => (HandlerState::Closed, DirectiveModel::Close),
            ReadOutcomeModel::Data(bytes) => dispatch_model(bytes),
        },
        (HandlerState::AwaitingListing, EventModel::ListingDone(output)) => match output {
            Some(payload) => (HandlerState::Writing, DirectiveModel::Write(payload)),
            None => (HandlerState::Reading, DirectiveModel::AwaitRead),
        },
        (HandlerState::Writing, EventModel::WriteDone(ok)) => {
            if ok {
                (HandlerState::Reading, DirectiveModel::AwaitRead)
            } else {
                (HandlerState::Closed, DirectiveModel::Close)
            }
        },
        _ => (HandlerState::Closed, DirectiveModel::Close),
    }
}

/// Dispatch one received line.
fn dispatch(bytes: Vec<u8>) -> (r: (HandlerState, Directive))
    ensures
        (r.0, r.1@) == dispatch_model(bytes@),
{
    match bytes_to_str(bytes.as_slice()) {
        None => (HandlerState::Closed, Directive::Close),
        Some(line) => {
            let token = trim_str(line);
            match resolve(token) {
                Some(Action::ListDirectory) => (
                    HandlerState::AwaitingListing,
                    Directive::RunListing,
                ),
                Some(Action::Acknowledge) => (HandlerState::Reading, Directive::AwaitRead),
                Some(Action::Terminate) => (
                    HandlerState::Closed,
                    Directive::WriteAndClose(farewell_payload()),
                ),
                None => (HandlerState::Reading, Directive::AwaitRead),
            }
        },
    }
}

/// One transition of the connection handler.
pub fn step(state: HandlerState, event: Event) -> (r: (HandlerState, Directive))
    ensures
        (r.0, r.1@) == step_model(state, event@),
{
    match (state, event) {
        (HandlerState::Handshaking, Event::Handshake(ok)) => {
            if ok {
                (HandlerState::Reading, Directive::AwaitRead)
            } else {
                (HandlerState::Closed, Directive::Close)
            }
        },
        (HandlerState::Reading, Event::Read(outcome)) => match outcome {
            ReadOutcome::Eof => (HandlerState::Closed, Directive::Close),
            ReadOutcome::Failed => (HandlerState::Closed, Directive::Close),
            ReadOutcome::Data(bytes) => dispatch(bytes),
        },
        (HandlerState::AwaitingListing, Event::ListingDone(output)) => match output {
            Some(payload) => (HandlerState::Writing, Directive::Write(payload)),
            None => (HandlerState::Reading, Directive::AwaitRead),
        },
        (HandlerState::Writing, Event::WriteDone(ok)) => {
            if ok {
                (HandlerState::Reading, Directive::AwaitRead)
            } else {
                (HandlerState::Closed, Directive::Close)
            }
        },
        _ => (HandlerState::Closed, Directive::Close),
    }
}

/// The handler state after a sequence of events, starting from a fresh raw
/// connection.
pub open spec fn run_model(events: Seq<EventModel>) -> HandlerState
    decreases events.len(),
{
    if events.len() == 0 {
        HandlerState::Handshaking
    } else {
        step_model(run_model(events.drop_last()), events.last()).0
    }
}

/// The events of one of two connections, picked out of an interleaved trace.
/// `mine` tags the events of the first connection.
pub open spec fn project(trace: Seq<(bool, EventModel)>, mine: bool) -> Seq<EventModel>
    decreases trace.len(),
{
    if trace.len() == 0 {
        Seq::empty()
    } else if trace.last().0 == mine {
        project(trace.drop_last(), mine).push(trace.last().1)
    } else {
        project(trace.drop_last(), mine)
    }
}

/// The pair of handler states after an interleaved trace of two connections,
/// each transition applied only to the connection the event belongs to.
pub open spec fn run_pair(trace: Seq<(bool, EventModel)>) -> (HandlerState, HandlerState)
    decreases trace.len(),
{
    if trace.len() == 0 {
        (HandlerState::Handshaking, HandlerState::Handshaking)
    } else {
        let prev = run_pair(trace.drop_last());
        if trace.last().0 {
            (step_model(prev.0, trace.last().1).0, prev.1)
        } else {
            (prev.0, step_model(prev.1, trace.last().1).0)
        }
    }
}

/// Two concurrent connections never contaminate each other: however their
/// events interleave, each connection's state is exactly the state it reaches
/// on its own events alone.
pub proof fn lemma_connections_independent(trace: Seq<(bool, EventModel)>)
    ensures
        run_pair(trace).0 == run_model(project(trace, true)),
        run_pair(trace).1 == run_model(project(trace, false)),
    decreases trace.len(),
{
    if trace.len() > 0 {
        lemma_connections_independent(trace.drop_last());
        let mine = trace.last().0;
        let event = trace.last().1;
        let own = project(trace.drop_last(), mine);
        assert(own.push(event).drop_last() =~= own);
    }
}

/// A successful handshake opens the read loop; a failed one closes the
/// connection before anything is written to the peer.
pub proof fn lemma_handshake_outcome(ok: bool)
    ensures
        ok ==> step_model(HandlerState::Handshaking, EventModel::Handshake(ok)) == (
            HandlerState::Reading,
            DirectiveModel::AwaitRead,
        ),
        !ok ==> step_model(HandlerState::Handshaking, EventModel::Handshake(ok)) == (
            HandlerState::Closed,
            DirectiveModel::Close,
        ),
{
}

/// Once closed, a connection stays closed: no event reaches its stream again.
pub proof fn lemma_closed_is_terminal(event: EventModel)
    ensures
        step_model(HandlerState::Closed, event).0 == HandlerState::Closed,
{
}

/// A line that trims to `exit`, received on an open channel, always yields
/// exactly the farewell payload and closes the connection, whatever events
/// came before on that connection.
pub proof fn lemma_exit_always_farewell(history: Seq<EventModel>, bytes: Seq<u8>)
    requires
        run_model(history) == HandlerState::Reading,
        valid_utf8(bytes),
        trim_spec(decode_utf8(bytes)) == exit_chars(),
    ensures
        step_model(run_model(history), EventModel::Read(ReadOutcomeModel::Data(bytes))) == (
            HandlerState::Closed,
            DirectiveModel::WriteAndClose(farewell_model()),
        ),
{
}

/// A line that is not valid UTF-8 is a protocol violation: the connection
/// closes and nothing is written to the peer.
pub proof fn lemma_invalid_utf8_closes(history: Seq<EventModel>, bytes: Seq<u8>)
    requires
        run_model(history) == HandlerState::Reading,
        !valid_utf8(bytes),
    ensures
        step_model(run_model(history), EventModel::Read(ReadOutcomeModel::Data(bytes))) == (
            HandlerState::Closed,
            DirectiveModel::Close,
        ),
{
}

/// An unrecognized token produces no payload and leaves the connection open;
/// a later `exit` on the same connection still closes it with the farewell.
pub proof fn lemma_unknown_token_keeps_open(
    history: Seq<EventModel>,
    bytes: Seq<u8>,
    exit_bytes: Seq<u8>,
)
    requires
        run_model(history) == HandlerState::Reading,
        valid_utf8(bytes),
        resolve_spec(trim_spec(decode_utf8(bytes))) is None,
        valid_utf8(exit_bytes),
        trim_spec(decode_utf8(exit_bytes)) == exit_chars(),
    ensures
        step_model(run_model(history), EventModel::Read(ReadOutcomeModel::Data(bytes))) == (
            HandlerState::Reading,
            DirectiveModel::AwaitRead,
        ),
        step_model(
            run_model(history.push(EventModel::Read(ReadOutcomeModel::Data(bytes)))),
            EventModel::Read(ReadOutcomeModel::Data(exit_bytes)),
        ) == (HandlerState::Closed, DirectiveModel::WriteAndClose(farewell_model())),
{
    let extended = history.push(EventModel::Read(ReadOutcomeModel::Data(bytes)));
    assert(extended.drop_last() =~= history);
    assert(run_model(extended) == HandlerState::Reading);
    lemma_exit_always_farewell(extended, exit_bytes);
}

/// A line that trims to `foo` dispatches the listing action, and whatever
/// output that action captures is written back unchanged as the response.
pub proof fn lemma_listing_output_is_payload(
    history: Seq<EventModel>,
    bytes: Seq<u8>,
    output: Seq<u8>,
)
    requires
        run_model(history) == HandlerState::Reading,
        valid_utf8(bytes),
        trim_spec(decode_utf8(bytes)) == foo_chars(),
    ensures
        step_model(run_model(history), EventModel::Read(ReadOutcomeModel::Data(bytes))) == (
            HandlerState::AwaitingListing,
            DirectiveModel::RunListing,
        ),
        step_model(HandlerState::AwaitingListing, EventModel::ListingDone(Some(output))) == (
            HandlerState::Writing,
            DirectiveModel::Write(output),
        ),
{
}

} // verus!
