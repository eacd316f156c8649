//! Per-client session protocol and the ingress loop, as step functions.
//!
//! A session runs two directions over one socket. Client→link: read a
//! 4-byte header, validate the declared length, read exactly that many
//! payload bytes, hand them to the egress path, repeat. Link→client:
//! receive from the session's fan-out subscription, encode, write.
//! The surrounding process performs the reads, writes and waits; each
//! decision between them is one call of a step function here.

use vstd::prelude::*;

use crate::codec;
use crate::fanout::{FanOutChannel, RecvOutcome};

verus! {

/// Client→link state of one session.
#[derive(Clone, Copy, PartialEq, Eq, Structural, Debug)]
pub enum SessionState {
    /// Waiting for the 4-byte length header.
    ReadingHeader,
    /// Header accepted; waiting for exactly `expected` payload bytes.
    ReadingPayload { expected: u32 },
    /// Peer closed the connection; the session is over, normally.
    Ended,
    /// Protocol violation; the session is over, with an error.
    Failed,
}

/// What one exact-length socket read produced.
pub enum SocketEvent {
    /// The read completed with these bytes.
    Bytes(Vec<u8>),
    /// The read failed or hit end of stream: the peer is gone.
    Disconnected,
}

/// Abstract form of a socket event.
pub enum SocketEventView {
    Bytes(Seq<u8>),
    Disconnected,
}

impl View for SocketEvent {
    type V = SocketEventView;

    open spec fn view(&self) -> SocketEventView {
        match self {
            SocketEvent::Bytes(b) => SocketEventView::Bytes(b@),
            SocketEvent::Disconnected => SocketEventView::Disconnected,
        }
    }
}

/// What the session driver must do next in the client→link direction.
pub enum ClientAction {
    /// Nothing to emit; keep reading per the new state.
    Continue,
    /// Hand this payload to the egress path, then keep reading.
    Transmit(Vec<u8>),
    /// Session over: the peer closed; not an error.
    CloseNormal,
    /// Session over: the declared length exceeds `MAX_FRAME_SIZE`.
    CloseProtocolError,
}

/// Abstract form of a client→link action.
pub enum ClientActionView {
    Continue,
    Transmit(Seq<u8>),
    CloseNormal,
    CloseProtocolError,
}

impl View for ClientAction {
    type V = ClientActionView;

    open spec fn view(&self) -> ClientActionView {
        match self {
            ClientAction::Continue => ClientActionView::Continue,
            ClientAction::Transmit(p) => ClientActionView::Transmit(p@),
            ClientAction::CloseNormal => ClientActionView::CloseNormal,
            ClientAction::CloseProtocolError => ClientActionView::CloseProtocolError,
        }
    }
}

/// A state in which the session still reads from the socket.
pub open spec fn session_live(state: SessionState) -> bool {
    state matches SessionState::ReadingHeader || state matches SessionState::ReadingPayload { .. }
}

/// How many bytes the driver reads next in a live state: a whole header,
/// or exactly the declared payload length.
pub open spec fn expected_read_len(state: SessionState) -> nat {
    match state {
        SessionState::ReadingHeader => 4,
        SessionState::ReadingPayload { expected } => expected as nat,
        _ => 0,
    }
}

/// The client→link transition: what each state does with each event.
/// A disconnect in either reading state ends the session normally. A
/// header within bounds moves to the payload read; one above
/// `MAX_FRAME_SIZE` is fatal before any payload is read. A complete
/// payload is handed to egress and the cycle restarts.
pub open spec fn client_step_spec(state: SessionState, event: SocketEventView) -> (SessionState,
    ClientActionView) {
    match event {
        SocketEventView::Disconnected => (SessionState::Ended, ClientActionView::CloseNormal),
        SocketEventView::Bytes(b) => match state {
            SessionState::ReadingHeader => {
                if codec::header_value(b) as nat <= codec::MAX_FRAME_SIZE as nat {
                    (
                        SessionState::ReadingPayload { expected: codec::header_value(b) },
                        ClientActionView::Continue,
                    )
                } else {
                    (SessionState::Failed, ClientActionView::CloseProtocolError)
                }
            },
            SessionState::ReadingPayload { expected } => (
                SessionState::ReadingHeader,
                ClientActionView::Transmit(b),
            ),
            _ => (state, ClientActionView::CloseNormal),
        },
    }
}

/// One client→link step: decodes and validates a header, or passes a
/// complete payload on for transmission. Called only in a live state,
/// with exactly the bytes that state asked for.
pub fn client_to_link_step(state: SessionState, event: SocketEvent) -> (r: (
    SessionState,
    ClientAction,
))
    requires
        session_live(state),
        event matches SocketEvent::Bytes(b) ==> b@.len() == expected_read_len(state),
    ensures
        r.0 == client_step_spec(state, event@).0,
        r.1@ == client_step_spec(state, event@).1,
{
    match event {
        SocketEvent::Disconnected => (SessionState::Ended, ClientAction::CloseNormal),
        SocketEvent::Bytes(b) => match state {
            SessionState::ReadingHeader => {
                let n = codec::decode_header(b.as_slice());
                if n as usize <= codec::MAX_FRAME_SIZE {
                    (SessionState::ReadingPayload { expected: n }, ClientAction::Continue)
                } else {
                    (SessionState::Failed, ClientAction::CloseProtocolError)
                }
            },
            SessionState::ReadingPayload { expected: _ } => (
                SessionState::ReadingHeader,
                ClientAction::Transmit(b),
            ),
            SessionState::Ended => (state, ClientAction::CloseNormal),
            SessionState::Failed => (state, ClientAction::CloseNormal),
        },
    }
}

/// An oversized declared length is fatal before any payload is touched:
/// the step on such a header rejects the session with a protocol error,
/// transmits nothing, and leaves it in a state that reads nothing more.
pub proof fn lemma_oversized_header_fatal(h: Seq<u8>)
    requires
        h.len() == 4,
        codec::header_value(h) as nat > codec::MAX_FRAME_SIZE as nat,
    ensures
        client_step_spec(SessionState::ReadingHeader, SocketEventView::Bytes(h)).0
            == SessionState::Failed,
        client_step_spec(SessionState::ReadingHeader, SocketEventView::Bytes(h)).1
            == ClientActionView::CloseProtocolError,
        !session_live(SessionState::Failed),
{
}

/// The actions a client→link cycle emits on a sequence of socket events,
/// one per event, starting from `state`.
pub open spec fn client_run_actions(state: SessionState, events: Seq<SocketEventView>) -> Seq<
    ClientActionView,
>
    decreases events.len(),
{
    if events.len() == 0 {
        Seq::empty()
    } else {
        seq![client_step_spec(state, events[0]).1] + client_run_actions(
            client_step_spec(state, events[0]).0,
            events.skip(1),
        )
    }
}

/// A session that is no longer live transmits nothing, whatever socket
/// events still arrive: every later action only closes.
pub proof fn lemma_terminal_session_never_transmits(
    state: SessionState,
    events: Seq<SocketEventView>,
)
    requires
        !session_live(state),
    ensures
        client_run_actions(state, events).len() == events.len(),
        forall|i: int|
            0 <= i < events.len() ==> !(#[trigger] client_run_actions(state, events)[i] matches
                ClientActionView::Transmit(_)),
    decreases events.len(),
{
    if events.len() > 0 {
        let next = client_step_spec(state, events[0]).0;
        lemma_terminal_session_never_transmits(next, events.skip(1));
    }
}

/// Oversized declared lengths end the session without any payload going
/// onward: the step on such a header reports the protocol error, and no
/// sequence of further socket events can make the session transmit.
pub proof fn lemma_oversized_header_never_transmits(h: Seq<u8>, events: Seq<SocketEventView>)
    requires
        h.len() == 4,
        codec::header_value(h) as nat > codec::MAX_FRAME_SIZE as nat,
    ensures
        ({
            let run = client_run_actions(
                SessionState::ReadingHeader,
                seq![SocketEventView::Bytes(h)] + events,
            );
            &&& run[0] == ClientActionView::CloseProtocolError
            &&& forall|i: int|
                0 <= i < run.len() ==> !(#[trigger] run[i] matches ClientActionView::Transmit(_))
        }),
{
    let all = seq![SocketEventView::Bytes(h)] + events;
    assert(all[0] == SocketEventView::Bytes(h));
    assert(all.skip(1) =~= events);
    lemma_oversized_header_fatal(h);
    lemma_terminal_session_never_transmits(SessionState::Failed, events);
}

/// What the session driver must do next in the link→client direction.
pub enum LinkToClientAction {
    /// Write this whole wire message to the socket and flush it.
    WriteWire(Vec<u8>),
    /// The subscription lagged; report the count and keep receiving.
    ContinueAfterLag(usize),
    /// The channel has shut down; end this direction normally.
    EndNormal,
}

/// Abstract form of a link→client action.
pub enum LinkToClientActionView {
    WriteWire(Seq<u8>),
    ContinueAfterLag(nat),
    EndNormal,
}

impl View for LinkToClientAction {
    type V = LinkToClientActionView;

    open spec fn view(&self) -> LinkToClientActionView {
        match self {
            LinkToClientAction::WriteWire(w) => LinkToClientActionView::WriteWire(w@),
            LinkToClientAction::ContinueAfterLag(n) => LinkToClientActionView::ContinueAfterLag(
                *n as nat,
            ),
            LinkToClientAction::EndNormal => LinkToClientActionView::EndNormal,
        }
    }
}

/// One link→client step: a received frame becomes one whole wire message
/// to write; a lag is reported and receiving resumes; channel shutdown
/// ends the direction. Called once the wait on the subscription yielded
/// something, so never on `Empty`.
pub fn link_to_client_step(outcome: RecvOutcome) -> (a: LinkToClientAction)
    requires
        !(outcome matches RecvOutcome::Empty),
        outcome matches RecvOutcome::Frame(f) ==> f@.len() <= u32::MAX,
    ensures
        match outcome {
            RecvOutcome::Frame(f) => a@ == LinkToClientActionView::WriteWire(
                codec::wire_message(f@),
            ),
            RecvOutcome::Lagged(n) => a@ == LinkToClientActionView::ContinueAfterLag(n as nat),
            RecvOutcome::Closed => a@ == LinkToClientActionView::EndNormal,
            RecvOutcome::Empty => false,
        },
{
    match outcome {
        RecvOutcome::Frame(f) => LinkToClientAction::WriteWire(codec::encode(&f)),
        RecvOutcome::Lagged(n) => LinkToClientAction::ContinueAfterLag(n),
        RecvOutcome::Closed => LinkToClientAction::EndNormal,
        RecvOutcome::Empty => {
            proof {
                assert(false);
            }
            LinkToClientAction::EndNormal
        },
    }
}

/// What one read attempt on the interface's receive handle produced.
pub enum IngressEvent {
    /// A frame, as the exact raw bytes received.
    Frame(Vec<u8>),
    /// A transient read error; the loop goes on.
    ReadError,
    /// The receive handle itself failed terminally; ingress is over.
    Terminal,
}

/// One turn of the ingress loop against the shared channel: a received
/// frame is published to every subscription exactly as it was read, a
/// transient error is logged and skipped, and a terminal failure closes
/// the channel and exits the loop — existing sessions then observe
/// `Closed` once they drain what was already published.
pub fn ingress_step(channel: &mut FanOutChannel, event: IngressEvent) -> (exit: bool)
    requires
        old(channel).wf(),
        old(channel)@.history.len() < usize::MAX,
    ensures
        final(channel).wf(),
        final(channel)@.capacity == old(channel)@.capacity,
        match event {
            IngressEvent::Frame(f) => {
                &&& !exit
                &&& final(channel)@.history == old(channel)@.history.push(f@)
                &&& final(channel)@.closed == old(channel)@.closed
            },
            IngressEvent::ReadError => {
                &&& !exit
                &&& final(channel)@ == old(channel)@
            },
            IngressEvent::Terminal => {
                &&& exit
                &&& final(channel)@.history == old(channel)@.history
                &&& final(channel)@.closed
            },
        },
{
    match event {
        IngressEvent::Frame(f) => {
            channel.send(f);
            false
        },
        IngressEvent::ReadError => false,
        IngressEvent::Terminal => {
            channel.close();
            true
        },
    }
}

} // verus!
