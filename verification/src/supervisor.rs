//! The life of the tunnel as a state machine: connect, pair, read commands,
//! call the local service, answer, and reconnect when the connection is
//! lost. The machine decides; its caller does the connecting, reading,
//! fetching, sending and waiting, and reports what happened.

use vstd::prelude::*;
use crate::codec::{client_text, decode_server, decoded, encode_client, DecodeError};
use crate::dispatch::{answer, plan, planned, reply, Context, PairingContext};
use crate::json::{text_of, ClientEnvelope, HOSClientReq};

verus! {

/// The delay between a failed connection attempt and the next, in
/// milliseconds.
pub const RETRY_DELAY_MILLIS: u64 = 3000;

/// The view of a [`State`].
pub enum Phase {
    Connecting,
    Backoff,
    Reading,
    Calling { id: Option<Seq<char>>, url: Seq<char> },
}

/// Where the tunnel stands.
#[derive(Debug, PartialEq, Clone)]
pub enum State {
    /// A connection to the relay is being established.
    Connecting,
    /// The last attempt failed; the next one waits.
    Backoff,
    /// The connection is up and the next command is awaited.
    Reading,
    /// The local service is being asked on behalf of the command with the
    /// correlation id `id`.
    Calling { id: Option<String>, url: String },
}

impl View for State {
    type V = Phase;

    open spec fn view(&self) -> Phase {
        match self {
            State::Connecting => Phase::Connecting,
            State::Backoff => Phase::Backoff,
            State::Reading => Phase::Reading,
            State::Calling { id, url } => Phase::Calling { id: text_of(*id), url: url@ },
        }
    }
}

/// The view of an [`Event`].
pub enum Occurrence {
    Connected,
    ConnectFailed,
    BackoffElapsed,
    Frame(Seq<char>),
    ReadFailed,
    StreamEnded,
    LocalAnswer { status: u16, body: Seq<u8> },
    LocalFailed,
}

/// What the caller reports to the machine.
#[derive(Debug, PartialEq, Clone)]
pub enum Event {
    /// The connection to the relay stands.
    Connected,
    /// The connection could not be established.
    ConnectFailed,
    /// The retry delay is over.
    BackoffElapsed,
    /// A text frame arrived.
    Frame(String),
    /// Reading from the connection failed.
    ReadFailed,
    /// The connection yields no more frames.
    StreamEnded,
    /// The local service replied.
    LocalAnswer { status: u16, body: Vec<u8> },
    /// The local service could not be reached.
    LocalFailed,
}

impl View for Event {
    type V = Occurrence;

    open spec fn view(&self) -> Occurrence {
        match self {
            Event::Connected => Occurrence::Connected,
            Event::ConnectFailed => Occurrence::ConnectFailed,
            Event::BackoffElapsed => Occurrence::BackoffElapsed,
            Event::Frame(text) => Occurrence::Frame(text@),
            Event::ReadFailed => Occurrence::ReadFailed,
            Event::StreamEnded => Occurrence::StreamEnded,
            Event::LocalAnswer { status, body } => Occurrence::LocalAnswer {
                status: *status,
                body: body@,
            },
            Event::LocalFailed => Occurrence::LocalFailed,
        }
    }
}

/// What the caller should tell its user or its log.
#[derive(Debug, PartialEq, Eq, Structural, Clone, Copy)]
pub enum Notice {
    Connected,
    Disconnected,
    ConnectFailed,
    BadFrame(DecodeError),
    LocalFailed,
}

/// The view of an [`Operation`].
pub enum Task {
    Connect,
    Wait { millis: u64 },
    Receive,
    Fetch(Seq<char>),
}

/// What the caller does while the machine is in a state, to get the next
/// event.
#[derive(Debug, PartialEq, Clone)]
pub enum Operation {
    /// Try to connect to the relay.
    Connect,
    /// Wait for so many milliseconds.
    Wait { millis: u64 },
    /// Take the next frame from the connection.
    Receive,
    /// Fetch this address from the local service with GET.
    Fetch(String),
}

impl View for Operation {
    type V = Task;

    open spec fn view(&self) -> Task {
        match self {
            Operation::Connect => Task::Connect,
            Operation::Wait { millis } => Task::Wait { millis: *millis },
            Operation::Receive => Task::Receive,
            Operation::Fetch(url) => Task::Fetch(url@),
        }
    }
}

/// The view of a [`Step`].
pub struct Outcome {
    pub state: Phase,
    pub send: Option<Seq<char>>,
    pub notice: Option<Notice>,
}

/// What an event leads to: the next state, a frame to send first, if any,
/// and a notice, if any.
#[derive(Debug, PartialEq, Clone)]
pub struct Step {
    pub state: State,
    pub send: Option<String>,
    pub notice: Option<Notice>,
}

impl View for Step {
    type V = Outcome;

    open spec fn view(&self) -> Outcome {
        Outcome { state: self.state@, send: text_of(self.send), notice: self.notice }
    }
}

/// The frame that opens a connection: the pairing envelope and a newline.
pub open spec fn pairing_frame(c: Context) -> Seq<char> {
    client_text(
        ClientEnvelope {
            kind: "pairing"@,
            id: None,
            code: c.code,
            status: None,
            content: None,
        },
    ) + "\n"@
}

/// The task that belongs to a state.
pub open spec fn task_of(p: Phase) -> Task {
    match p {
        Phase::Connecting => Task::Connect,
        Phase::Backoff => Task::Wait { millis: RETRY_DELAY_MILLIS },
        Phase::Reading => Task::Receive,
        Phase::Calling { id, url } => Task::Fetch(url),
    }
}

/// An outcome that only changes the state.
pub open spec fn quiet(state: Phase) -> Outcome {
    Outcome { state, send: None, notice: None }
}

/// What a frame leads to while commands are read.
pub open spec fn on_frame(c: Context, text: Seq<char>) -> Outcome {
    match decoded(text) {
        Err(e) => Outcome {
            state: Phase::Reading,
            send: None,
            notice: Some(Notice::BadFrame(e)),
        },
        Ok(request) => match planned(c, request) {
            Some(url) => quiet(Phase::Calling { id: request.id, url }),
            None => quiet(Phase::Reading),
        },
    }
}

/// The transition function of the tunnel. An event that cannot occur in a
/// state changes nothing.
pub open spec fn next(c: Context, p: Phase, o: Occurrence) -> Outcome {
    match (p, o) {
        (Phase::Connecting, Occurrence::Connected) => Outcome {
            state: Phase::Reading,
            send: Some(pairing_frame(c)),
            notice: Some(Notice::Connected),
        },
        (Phase::Connecting, Occurrence::ConnectFailed) => Outcome {
            state: Phase::Backoff,
            send: None,
            notice: Some(Notice::ConnectFailed),
        },
        (Phase::Backoff, Occurrence::BackoffElapsed) => quiet(Phase::Connecting),
        (Phase::Reading, Occurrence::Frame(text)) => on_frame(c, text),
        (Phase::Reading, Occurrence::ReadFailed) => Outcome {
            state: Phase::Connecting,
            send: None,
            notice: Some(Notice::Disconnected),
        },
        (Phase::Reading, Occurrence::StreamEnded) => Outcome {
            state: Phase::Connecting,
            send: None,
            notice: Some(Notice::Disconnected),
        },
        (Phase::Calling { id, url }, Occurrence::LocalAnswer { status, body }) => Outcome {
            state: Phase::Reading,
            send: Some(client_text(answer(c, id, status, body))),
            notice: None,
        },
        (Phase::Calling { id, url }, Occurrence::LocalFailed) => Outcome {
            state: Phase::Reading,
            send: None,
            notice: Some(Notice::LocalFailed),
        },
        _ => quiet(p),
    }
}

impl State {
    /// The state in which the tunnel starts.
    pub fn initial() -> (r: State)
        ensures
            r@ == Phase::Connecting,
    {
        State::Connecting
    }

    /// What the caller does in this state.
    pub fn operation(&self) -> (r: Operation)
        ensures
            r@ == task_of(self@),
    {
        match self {
            State::Connecting => Operation::Connect,
            State::Backoff => Operation::Wait { millis: RETRY_DELAY_MILLIS },
            State::Reading => Operation::Receive,
            State::Calling { id, url } => Operation::Fetch(url.clone()),
        }
    }
}

fn only(state: State) -> (r: Step)
    ensures
        r@ == quiet(state@),
{
    Step { state, send: None, notice: None }
}

/// The text frame that opens a connection.
pub fn pairing_message(context: &PairingContext) -> (r: String)
    ensures
        r@ == pairing_frame(context@),
{
    let envelope = HOSClientReq::pairing(crate::json::copy_text(context.pairing_code()));
    let mut frame = encode_client(&envelope);
    frame.append("\n");
    frame
}

/// Handles a frame that arrived while commands are read: a frame that is no
/// command is reported and passed over, a command that is no GET request is
/// passed over in silence, and a GET request starts a local call.
pub fn handle_message(context: &PairingContext, text: &str) -> (r: Step)
    ensures
        r@ == on_frame(context@, text@),
{
    match decode_server(text) {
        Err(e) => Step { state: State::Reading, send: None, notice: Some(Notice::BadFrame(e)) },
        Ok(request) => match plan(context, &request) {
            Some(url) => only(State::Calling { id: request.id, url }),
            None => only(State::Reading),
        },
    }
}

/// Advances the tunnel by one event.
pub fn step(context: &PairingContext, state: State, event: Event) -> (r: Step)
    ensures
        r@ == next(context@, state@, event@),
{
    match state {
        State::Connecting => match event {
            Event::Connected => Step {
                state: State::Reading,
                send: Some(pairing_message(context)),
                notice: Some(Notice::Connected),
            },
            Event::ConnectFailed => Step {
                state: State::Backoff,
                send: None,
                notice: Some(Notice::ConnectFailed),
            },
            _ => only(State::Connecting),
        },
        State::Backoff => match event {
            Event::BackoffElapsed => only(State::Connecting),
            _ => only(State::Backoff),
        },
        State::Reading => match event {
            Event::Frame(text) => handle_message(context, text.as_str()),
            Event::ReadFailed => Step {
                state: State::Connecting,
                send: None,
                notice: Some(Notice::Disconnected),
            },
            Event::StreamEnded => Step {
                state: State::Connecting,
                send: None,
                notice: Some(Notice::Disconnected),
            },
            _ => only(State::Reading),
        },
        State::Calling { id, url } => match event {
            Event::LocalAnswer { status, body } => {
                let envelope = reply(context, id, status, body.as_slice());
                Step { state: State::Reading, send: Some(encode_client(&envelope)), notice: None }
            },
            Event::LocalFailed => Step {
                state: State::Reading,
                send: None,
                notice: Some(Notice::LocalFailed),
            },
            _ => only(State::Calling { id, url }),
        },
    }
}

/// A frame that is no command is reported; the connection stays up and the
/// next frame is read.
pub proof fn lemma_bad_frame_is_skipped(c: Context, text: Seq<char>)
    requires
        decoded(text) is Err,
    ensures
        next(c, Phase::Reading, Occurrence::Frame(text)) == (Outcome {
            state: Phase::Reading,
            send: None,
            notice: Some(Notice::BadFrame(decoded(text)->Err_0)),
        }),
        task_of(next(c, Phase::Reading, Occurrence::Frame(text)).state) == Task::Receive,
{
}

/// A command that is no GET request gets no reply and no local call.
pub proof fn lemma_other_command_is_ignored(c: Context, text: Seq<char>)
    requires
        decoded(text) is Ok,
        !(decoded(text)->Ok_0).is_get_request(),
    ensures
        next(c, Phase::Reading, Occurrence::Frame(text)) == quiet(Phase::Reading),
{
}

/// After a failed attempt the tunnel waits for the retry delay and then
/// connects again, whatever happened before.
pub proof fn lemma_retry_after_delay(c: Context)
    ensures
        next(c, Phase::Connecting, Occurrence::ConnectFailed).state == Phase::Backoff,
        next(c, Phase::Connecting, Occurrence::ConnectFailed).send is None,
        task_of(Phase::Backoff) == (Task::Wait { millis: 3000 }),
        next(c, Phase::Backoff, Occurrence::BackoffElapsed) == quiet(Phase::Connecting),
        task_of(Phase::Connecting) == Task::Connect,
{
}

/// A local call that fails sends nothing, and the next frame is read.
pub proof fn lemma_local_failure_sends_nothing(
    c: Context,
    id: Option<Seq<char>>,
    url: Seq<char>,
)
    ensures
        next(c, Phase::Calling { id, url }, Occurrence::LocalFailed) == (Outcome {
            state: Phase::Reading,
            send: None,
            notice: Some(Notice::LocalFailed),
        }),
        task_of(Phase::Reading) == Task::Receive,
{
}

/// A frame is sent only when a connection was opened or the local service
/// answered.
pub proof fn lemma_send_only_on_pairing_or_answer(c: Context, p: Phase, o: Occurrence)
    requires
        next(c, p, o).send is Some,
    ensures
        (p is Connecting && o is Connected) || (p is Calling && o is LocalAnswer),
{
}

/// The state that a run of events leads to, from the state `p`.
pub open spec fn state_after(c: Context, p: Phase, events: Seq<Occurrence>) -> Phase
    decreases events.len(),
{
    if events.len() == 0 {
        p
    } else {
        next(c, state_after(c, p, events.drop_last()), events.last()).state
    }
}

/// The frames that are sent during a run of events, in order.
pub open spec fn sent_during(c: Context, p: Phase, events: Seq<Occurrence>) -> Seq<Seq<char>>
    decreases events.len(),
{
    if events.len() == 0 {
        Seq::empty()
    } else {
        let earlier = sent_during(c, p, events.drop_last());
        match next(c, state_after(c, p, events.drop_last()), events.last()).send {
            Some(frame) => earlier.push(frame),
            None => earlier,
        }
    }
}

/// `n` attempts to connect that fail, each followed by the retry delay.
pub open spec fn failed_attempts(n: nat) -> Seq<Occurrence>
    decreases n,
{
    if n == 0 {
        Seq::empty()
    } else {
        failed_attempts((n - 1) as nat).push(Occurrence::ConnectFailed).push(
            Occurrence::BackoffElapsed,
        )
    }
}

/// However often connecting fails, the tunnel connects again after the
/// delay, and sends nothing meanwhile.
pub proof fn lemma_retries_without_end(c: Context, n: nat)
    ensures
        state_after(c, Phase::Connecting, failed_attempts(n)) == Phase::Connecting,
        sent_during(c, Phase::Connecting, failed_attempts(n)).len() == 0,
    decreases n,
{
    if n > 0 {
        let earlier = failed_attempts((n - 1) as nat);
        let failed = earlier.push(Occurrence::ConnectFailed);
        lemma_retries_without_end(c, (n - 1) as nat);
        assert(failed.drop_last() == earlier);
        assert(failed_attempts(n).drop_last() == failed);
        assert(state_after(c, Phase::Connecting, failed) == Phase::Backoff);
        assert(sent_during(c, Phase::Connecting, failed).len() == 0);
    }
}

/// Whether an event is a frame that asks for no local call: one that is no
/// command, or a command that is no GET request.
pub open spec fn asks_nothing(o: Occurrence) -> bool {
    match o {
        Occurrence::Frame(text) => match decoded(text) {
            Err(_) => true,
            Ok(request) => !request.is_get_request(),
        },
        _ => false,
    }
}

/// Frames that ask for no local call, however many, leave the connection
/// up and get no reply.
pub proof fn lemma_idle_frames_keep_reading(c: Context, events: Seq<Occurrence>)
    requires
        forall|i: int| 0 <= i < events.len() ==> asks_nothing(#[trigger] events[i]),
    ensures
        state_after(c, Phase::Reading, events) == Phase::Reading,
        sent_during(c, Phase::Reading, events).len() == 0,
    decreases events.len(),
{
    if events.len() > 0 {
        lemma_idle_frames_keep_reading(c, events.drop_last());
        assert(asks_nothing(events[events.len() - 1]));
    }
}

/// Whatever happens, the first frame that the tunnel sends is the pairing
/// frame, and until it is sent the tunnel is connecting or waiting.
pub proof fn lemma_pairing_is_sent_first(c: Context, events: Seq<Occurrence>)
    ensures
        sent_during(c, Phase::Connecting, events).len() == 0 ==> (state_after(
            c,
            Phase::Connecting,
            events,
        ) is Connecting || state_after(c, Phase::Connecting, events) is Backoff),
        sent_during(c, Phase::Connecting, events).len() > 0 ==> sent_during(
            c,
            Phase::Connecting,
            events,
        )[0] == pairing_frame(c),
    decreases events.len(),
{
    if events.len() > 0 {
        lemma_pairing_is_sent_first(c, events.drop_last());
    }
}

} // verus!
