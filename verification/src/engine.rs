//! The session bridging engine: the per-session state machine that relays
//! bytes between a terminal connection and a PTY until either side ends,
//! then cleans up.
//!
//! The decision core is `step`: a function from the next event to the next
//! phase and the action to perform. The loop that waits on a real
//! transport runs outside; `run_session` is the engine run against the
//! simulated backend and a scripted connection, with the whole lifecycle —
//! registration, bridging, cleanup, deregistration — verified.

use vstd::prelude::*;
use vstd::slice::slice_to_vec;
use vstd::string::StringExecFns;

use crate::memory_pty::{cwd_bytes_of, welcome_of, MemoryPty};
use crate::pty::PtyConfig;
use crate::session::{ConnectionType, Session, SessionRegistry};
use crate::sim;
use vstd::string::StringSliceAdditionalSpecFns;

verus! {

/// A message on the duplex terminal channel.
#[derive(Debug)]
pub enum TerminalMessage {
    Text(String),
    Binary(Vec<u8>),
    Ping,
    Pong,
    Close,
}

/// The mathematical shape of a terminal message.
pub enum MessageView {
    Text(Seq<char>),
    Binary(Seq<u8>),
    Ping,
    Pong,
    Close,
}

impl View for TerminalMessage {
    type V = MessageView;

    open spec fn view(&self) -> MessageView {
        match self {
            TerminalMessage::Text(t) => MessageView::Text(t@),
            TerminalMessage::Binary(b) => MessageView::Binary(b@),
            TerminalMessage::Ping => MessageView::Ping,
            TerminalMessage::Pong => MessageView::Pong,
            TerminalMessage::Close => MessageView::Close,
        }
    }
}

impl Clone for TerminalMessage {
    fn clone(&self) -> (r: TerminalMessage)
        ensures
            r@ == self@,
    {
        match self {
            TerminalMessage::Text(t) => TerminalMessage::Text(t.clone()),
            TerminalMessage::Binary(b) => TerminalMessage::Binary(clone_bytes(b)),
            TerminalMessage::Ping => TerminalMessage::Ping,
            TerminalMessage::Pong => TerminalMessage::Pong,
            TerminalMessage::Close => TerminalMessage::Close,
        }
    }
}

/// An exact copy of a byte buffer.
fn clone_bytes(v: &Vec<u8>) -> (r: Vec<u8>)
    ensures
        r@ == v@,
{
    slice_to_vec(v.as_slice())
}

/// Lifecycle of one bridging run.
#[derive(Debug, Clone, Copy, PartialEq, Eq, Structural)]
pub enum SessionPhase {
    Created,
    Active,
    Closing,
    Closed,
}

/// What the connection side produced: the next message, a transport
/// failure, or the end of the stream.
#[derive(Debug)]
pub enum ConnEvent {
    Received(TerminalMessage),
    Failed(String),
    Ended,
}

/// The mathematical shape of a connection event.
pub enum ConnEventView {
    Received(MessageView),
    Failed(Seq<char>),
    Ended,
}

impl View for ConnEvent {
    type V = ConnEventView;

    open spec fn view(&self) -> ConnEventView {
        match self {
            ConnEvent::Received(m) => ConnEventView::Received(m@),
            ConnEvent::Failed(e) => ConnEventView::Failed(e@),
            ConnEvent::Ended => ConnEventView::Ended,
        }
    }
}

impl Clone for ConnEvent {
    fn clone(&self) -> (r: ConnEvent)
        ensures
            r@ == self@,
    {
        match self {
            ConnEvent::Received(m) => ConnEvent::Received(m.clone()),
            ConnEvent::Failed(e) => ConnEvent::Failed(e.clone()),
            ConnEvent::Ended => ConnEvent::Ended,
        }
    }
}

/// What the PTY side produced: output bytes (none of them meaning end of
/// output), or a read failure.
#[derive(Debug)]
pub enum PtyEvent {
    Output(Vec<u8>),
    Failed(String),
}

/// The next thing that happened to an active session, from whichever of
/// the two sources became ready first.
#[derive(Debug)]
pub enum SessionEvent {
    Conn(ConnEvent),
    Pty(PtyEvent),
}

/// What the engine does in response to one event.
#[derive(Debug)]
pub enum EngineAction {
    /// Write these bytes to the PTY; a write failure ends the session.
    WriteToPty(Vec<u8>),
    /// Answer an application-level ping.
    SendPong,
    /// Forward these PTY output bytes to the connection.
    Forward(Vec<u8>),
    /// Begin the cleanup sequence.
    StartClosing,
    /// Nothing to do for this event.
    Continue,
}

/// The phase an active session moves to on this event: inbound data and
/// pings keep it active; a close message, a connection failure, the end of
/// the connection's stream, PTY end-of-output, and a PTY failure all move
/// it to Closing.
pub open spec fn phase_after(event: SessionEvent) -> SessionPhase {
    match event {
        SessionEvent::Conn(ConnEvent::Received(m)) => match m {
            TerminalMessage::Close => SessionPhase::Closing,
            _ => SessionPhase::Active,
        },
        SessionEvent::Conn(ConnEvent::Failed(_)) => SessionPhase::Closing,
        SessionEvent::Conn(ConnEvent::Ended) => SessionPhase::Closing,
        SessionEvent::Pty(PtyEvent::Output(d)) => if d@.len() == 0 {
            SessionPhase::Closing
        } else {
            SessionPhase::Active
        },
        SessionEvent::Pty(PtyEvent::Failed(_)) => SessionPhase::Closing,
    }
}

/// One decision of the bridging engine: given an active session and the
/// next event, the next phase and the action. Text and binary messages are
/// written verbatim to the PTY; a ping is answered; PTY output is
/// forwarded verbatim; everything that ends the session starts cleanup.
pub fn step(event: SessionEvent) -> (r: (SessionPhase, EngineAction))
    ensures
        r.0 == phase_after(event),
        event matches SessionEvent::Conn(ConnEvent::Received(TerminalMessage::Text(t)))
            ==> (r.1 matches EngineAction::WriteToPty(b) && b@ == vstd::utf8::encode_utf8(t@)),
        event matches SessionEvent::Conn(ConnEvent::Received(TerminalMessage::Binary(d)))
            ==> (r.1 matches EngineAction::WriteToPty(b) && b@ == d@),
        event matches SessionEvent::Conn(ConnEvent::Received(TerminalMessage::Ping)) ==> r.1
            is SendPong,
        event matches SessionEvent::Conn(ConnEvent::Received(TerminalMessage::Pong)) ==> r.1
            is Continue,
        r.0 is Closing <==> r.1 is StartClosing,
        event matches SessionEvent::Pty(PtyEvent::Output(d)) ==> (d@.len() > 0 ==> (r.1
            matches EngineAction::Forward(b) && b@ == d@)),
        r.1 matches EngineAction::WriteToPty(b) ==> (event matches SessionEvent::Conn(
            ConnEvent::Received(m),
        ) && ((m matches TerminalMessage::Text(t) && b@ == vstd::utf8::encode_utf8(t@)) || (m
            matches TerminalMessage::Binary(d) && b@ == d@))),
        r.1 is SendPong ==> event matches SessionEvent::Conn(
            ConnEvent::Received(TerminalMessage::Ping),
        ),
        r.1 is Continue ==> event matches SessionEvent::Conn(
            ConnEvent::Received(TerminalMessage::Pong),
        ),
        r.1 matches EngineAction::Forward(b) ==> (event matches SessionEvent::Pty(
            PtyEvent::Output(d),
        ) && b@ == d@ && d@.len() > 0),
{
    match event {
        SessionEvent::Conn(conn_event) => match conn_event {
            ConnEvent::Received(message) => match message {
                TerminalMessage::Text(t) => (
                    SessionPhase::Active,
                    EngineAction::WriteToPty(slice_to_vec(t.as_str().as_bytes())),
                ),
                TerminalMessage::Binary(d) => (SessionPhase::Active, EngineAction::WriteToPty(d)),
                TerminalMessage::Ping => (SessionPhase::Active, EngineAction::SendPong),
                TerminalMessage::Pong => (SessionPhase::Active, EngineAction::Continue),
                TerminalMessage::Close => (SessionPhase::Closing, EngineAction::StartClosing),
            },
            ConnEvent::Failed(_) => (SessionPhase::Closing, EngineAction::StartClosing),
            ConnEvent::Ended => (SessionPhase::Closing, EngineAction::StartClosing),
        },
        SessionEvent::Pty(pty_event) => match pty_event {
            PtyEvent::Output(d) => {
                if d.len() == 0 {
                    (SessionPhase::Closing, EngineAction::StartClosing)
                } else {
                    (SessionPhase::Active, EngineAction::Forward(d))
                }
            },
            PtyEvent::Failed(_) => (SessionPhase::Closing, EngineAction::StartClosing),
        },
    }
}

/// Law: every session-ending condition of the protocol — an inbound close,
/// a connection failure, the end of the connection's stream, PTY
/// end-of-output, a PTY failure — moves an active session to Closing, and
/// nothing else does.
pub proof fn law_session_ending_events(event: SessionEvent)
    ensures
        phase_after(event) is Closing <==> (event matches SessionEvent::Conn(
            ConnEvent::Received(TerminalMessage::Close),
        ) || event matches SessionEvent::Conn(ConnEvent::Failed(_)) || event
            matches SessionEvent::Conn(ConnEvent::Ended) || (event matches SessionEvent::Pty(
            PtyEvent::Output(d),
        ) && d@.len() == 0) || event matches SessionEvent::Pty(PtyEvent::Failed(_))),
        phase_after(event) is Closing || phase_after(event) is Active,
{
}

/// Relies on String::from_utf8: it succeeds exactly on UTF-8 input; the
/// successful string's bytes are the input bytes, and a rejected input is
/// handed back unchanged (via into_bytes on the error).
#[verifier::external_body]
fn decode_utf8(bytes: Vec<u8>) -> (r: Result<String, Vec<u8>>)
    ensures
        r matches Ok(s) ==> vstd::utf8::encode_utf8(s@) == bytes@,
        r matches Err(b) ==> b@ == bytes@,
{
    match String::from_utf8(bytes) {
        Ok(s) => Ok(s),
        Err(e) => Err(e.into_bytes()),
    }
}

/// The message in which PTY output is forwarded: a text message when the
/// bytes are UTF-8, a binary message otherwise — either way the bytes are
/// carried verbatim.
pub fn forward_form(data: Vec<u8>) -> (r: TerminalMessage)
    ensures
        r matches TerminalMessage::Text(t) ==> vstd::utf8::encode_utf8(t@) == data@,
        r matches TerminalMessage::Binary(b) ==> b@ == data@,
        r is Text || r is Binary,
{
    match decode_utf8(data) {
        Ok(s) => TerminalMessage::Text(s),
        Err(b) => TerminalMessage::Binary(b),
    }
}

/// A deterministic, in-memory terminal connection: it plays back a script
/// of inbound events, records what the engine sends, and can simulate a
/// transport whose sends fail.
pub struct ScriptedConnection {
    id: String,
    connection_type: ConnectionType,
    script: Vec<ConnEvent>,
    next: usize,
    sent: Vec<TerminalMessage>,
    closed: bool,
    send_fails: bool,
}

impl ScriptedConnection {
    /// The connection's stable id.
    pub closed spec fn id_spec(self) -> Seq<char> {
        self.id@
    }

    /// The inbound events not yet delivered.
    pub closed spec fn remaining(self) -> Seq<ConnEventView> {
        if self.next <= self.script@.len() {
            self.script@.skip(self.next as int).map_values(|e: ConnEvent| e@)
        } else {
            Seq::<ConnEventView>::empty()
        }
    }

    /// Everything the engine has sent over this connection, in order.
    pub closed spec fn sent_seq(self) -> Seq<MessageView> {
        self.sent@.map_values(|m: TerminalMessage| m@)
    }

    pub closed spec fn closed_spec(self) -> bool {
        self.closed
    }

    pub closed spec fn send_fails_spec(self) -> bool {
        self.send_fails
    }

    pub closed spec fn connection_type_spec(self) -> ConnectionType {
        self.connection_type
    }

    /// A connection that will deliver `script` and then end its stream;
    /// with `send_fails` it simulates a transport whose sends all fail.
    pub fn new(
        id: String,
        connection_type: ConnectionType,
        script: Vec<ConnEvent>,
        send_fails: bool,
    ) -> (r: ScriptedConnection)
        ensures
            r.id_spec() == id@,
            r.connection_type_spec() == connection_type,
            r.remaining() == script@.map_values(|e: ConnEvent| e@),
            r.sent_seq().len() == 0,
            !r.closed_spec(),
            r.send_fails_spec() == send_fails,
    {
        let r = ScriptedConnection {
            id,
            connection_type,
            script,
            next: 0,
            sent: Vec::new(),
            closed: false,
            send_fails,
        };
        proof {
            assert(r.script@.skip(0) =~= r.script@);
        }
        r
    }

    pub fn id(&self) -> (r: &String)
        ensures
            r@ == self.id_spec(),
    {
        &self.id
    }

    pub fn connection_type(&self) -> (r: ConnectionType)
        ensures
            r == self.connection_type_spec(),
    {
        self.connection_type
    }

    /// The next inbound event: the script's head, or the end of the stream
    /// once the script is exhausted.
    pub fn receive(&mut self) -> (r: ConnEvent)
        ensures
            final(self).id_spec() == old(self).id_spec(),
            final(self).sent_seq() == old(self).sent_seq(),
            final(self).closed_spec() == old(self).closed_spec(),
            final(self).send_fails_spec() == old(self).send_fails_spec(),
            final(self).connection_type_spec() == old(self).connection_type_spec(),
            old(self).remaining().len() == 0 ==> (r is Ended && final(self).remaining()
                == old(self).remaining()),
            old(self).remaining().len() > 0 ==> (r@ == old(self).remaining()[0] && final(
                self).remaining() == old(self).remaining().drop_first()),
    {
        if self.next < self.script.len() {
            let event = self.script[self.next].clone();
            self.next += 1;
            proof {
                let f = |e: ConnEvent| e@;
                assert(old(self).script@.skip(old(self).next as int).drop_first()
                    =~= self.script@.skip(self.next as int));
                assert(old(self).remaining().drop_first() =~= self.script@.skip(
                    self.next as int,
                ).map_values(f));
                assert(old(self).remaining()[0] == old(self).script@[old(self).next as int]@);
            }
            event
        } else {
            proof {
                if self.next <= self.script.len() {
                    assert(self.script@.skip(self.script@.len() as int) =~= Seq::<
                        ConnEvent,
                    >::empty());
                }
                assert(old(self).remaining().len() == 0);
            }
            ConnEvent::Ended
        }
    }

    /// Send a text message to the client: recorded in order, unless the
    /// connection is closed or the transport is failing.
    pub fn send_text(&mut self, text: &str) -> (r: Result<(), String>)
        ensures
            final(self).id_spec() == old(self).id_spec(),
            final(self).remaining() == old(self).remaining(),
            final(self).closed_spec() == old(self).closed_spec(),
            final(self).send_fails_spec() == old(self).send_fails_spec(),
            final(self).connection_type_spec() == old(self).connection_type_spec(),
            old(self).closed_spec() || old(self).send_fails_spec() ==> (r is Err
                && final(self).sent_seq() == old(self).sent_seq()),
            !(old(self).closed_spec() || old(self).send_fails_spec()) ==> (r is Ok
                && final(self).sent_seq() == old(self).sent_seq().push(MessageView::Text(text@))),
    {
        if self.closed || self.send_fails {
            return Err(String::from_str("connection unavailable"));
        }
        let message = TerminalMessage::Text(String::from_str(text));
        proof {
            let f = |m: TerminalMessage| m@;
            assert(old(self).sent@.push(message).map_values(f) =~= old(self).sent@.map_values(
                f,
            ).push(message@));
        }
        self.sent.push(message);
        Ok(())
    }

    /// Send a binary message to the client: recorded in order, unless the
    /// connection is closed or the transport is failing.
    pub fn send_binary(&mut self, data: &Vec<u8>) -> (r: Result<(), String>)
        ensures
            final(self).id_spec() == old(self).id_spec(),
            final(self).remaining() == old(self).remaining(),
            final(self).closed_spec() == old(self).closed_spec(),
            final(self).send_fails_spec() == old(self).send_fails_spec(),
            final(self).connection_type_spec() == old(self).connection_type_spec(),
            old(self).closed_spec() || old(self).send_fails_spec() ==> (r is Err
                && final(self).sent_seq() == old(self).sent_seq()),
            !(old(self).closed_spec() || old(self).send_fails_spec()) ==> (r is Ok
                && final(self).sent_seq() == old(self).sent_seq().push(
                MessageView::Binary(data@),
            )),
    {
        if self.closed || self.send_fails {
            return Err(String::from_str("connection unavailable"));
        }
        let message = TerminalMessage::Binary(clone_bytes(data));
        proof {
            let f = |m: TerminalMessage| m@;
            assert(old(self).sent@.push(message).map_values(f) =~= old(self).sent@.map_values(
                f,
            ).push(message@));
        }
        self.sent.push(message);
        Ok(())
    }

    /// Send whichever form a forwarded message took.
    pub fn send_message(&mut self, message: TerminalMessage) -> (r: Result<(), String>)
        ensures
            final(self).id_spec() == old(self).id_spec(),
            final(self).remaining() == old(self).remaining(),
            final(self).closed_spec() == old(self).closed_spec(),
            final(self).send_fails_spec() == old(self).send_fails_spec(),
            final(self).connection_type_spec() == old(self).connection_type_spec(),
            old(self).closed_spec() || old(self).send_fails_spec() ==> (r is Err
                && final(self).sent_seq() == old(self).sent_seq()),
            !(old(self).closed_spec() || old(self).send_fails_spec()) ==> (r is Ok
                && final(self).sent_seq() == old(self).sent_seq().push(message@)),
    {
        if self.closed || self.send_fails {
            return Err(String::from_str("connection unavailable"));
        }
        proof {
            let f = |m: TerminalMessage| m@;
            assert(old(self).sent@.push(message).map_values(f) =~= old(self).sent@.map_values(
                f,
            ).push(message@));
        }
        self.sent.push(message);
        Ok(())
    }

    /// Whether the connection has been closed.
    pub fn is_closed(&self) -> (r: bool)
        ensures
            r == self.closed_spec(),
    {
        self.closed
    }

    /// Copies of everything the engine has sent, in order.
    pub fn sent_messages(&self) -> (r: Vec<TerminalMessage>)
        ensures
            r@.map_values(|m: TerminalMessage| m@) == self.sent_seq(),
    {
        let mut out: Vec<TerminalMessage> = Vec::new();
        let mut i: usize = 0;
        while i < self.sent.len()
            invariant
                i <= self.sent@.len(),
                out@.len() == i,
                forall|j: int| 0 <= j < i ==> (#[trigger] out@[j])@ == self.sent@[j]@,
            decreases self.sent@.len() - i,
        {
            out.push(self.sent[i].clone());
            i += 1;
        }
        proof {
            assert(out@.map_values(|m: TerminalMessage| m@) =~= self.sent@.map_values(
                |m: TerminalMessage| m@,
            ));
        }
        out
    }

    /// Close the connection. Idempotent, and never fails: closing an
    /// already-closed connection is a no-op.
    pub fn close(&mut self) -> (r: Result<(), String>)
        ensures
            r is Ok,
            final(self).closed_spec(),
            final(self).id_spec() == old(self).id_spec(),
            final(self).remaining() == old(self).remaining(),
            final(self).sent_seq() == old(self).sent_seq(),
            final(self).send_fails_spec() == old(self).send_fails_spec(),
            final(self).connection_type_spec() == old(self).connection_type_spec(),
    {
        self.closed = true;
        Ok(())
    }
}

/// Ranking used for loop termination: an active session still works; any
/// other phase has left the loop.
pub open spec fn phase_weight(phase: SessionPhase) -> int {
    if phase is Active {
        1
    } else {
        0
    }
}

/// The cleanup sequence run on Closing: close the connection, kill the
/// PTY, and remove the session from the registry. All three execute —
/// cleanup is not short-circuited by an individual failure — and the
/// session ends Closed, its entry gone from the registry.
pub fn cleanup_session(
    registry: &mut SessionRegistry,
    conn: &mut ScriptedConnection,
    pty: &mut MemoryPty,
    session_id: &String,
) -> (r: SessionPhase)
    requires
        old(registry).wf(),
    ensures
        r is Closed,
        final(conn).closed_spec(),
        !final(pty).alive_spec(),
        final(registry).wf(),
        !final(registry).contains_id(session_id@),
        old(registry).contains_id(session_id@) ==> final(registry).sessions_seq() == old(
            registry,
        ).sessions_seq().remove(crate::session::id_index(
            old(registry).sessions_seq(),
            session_id@,
        ) as int),
        !old(registry).contains_id(session_id@) ==> *final(registry) == *old(registry),
        final(conn).id_spec() == old(conn).id_spec(),
        final(conn).sent_seq() == old(conn).sent_seq(),
        final(pty).buffered() == old(pty).buffered(),
        final(pty).exit_reported_spec() == old(pty).exit_reported_spec(),
{
    let _ = conn.close();
    let _ = pty.kill();
    let _ = registry.remove_session(session_id);
    SessionPhase::Closed
}

/// The Created-to-Closed failure path: when no backend could be
/// constructed, the user-visible failure message is sent once over the
/// connection (best effort), the connection is closed, and the session's
/// entry is removed — the cleanup still runs to completion.
pub fn fail_session(
    registry: &mut SessionRegistry,
    conn: &mut ScriptedConnection,
    error_message: &str,
) -> (r: SessionPhase)
    requires
        old(registry).wf(),
    ensures
        r is Closed,
        final(conn).closed_spec(),
        final(conn).id_spec() == old(conn).id_spec(),
        final(registry).wf(),
        !final(registry).contains_id(old(conn).id_spec()),
        old(registry).contains_id(old(conn).id_spec()) ==> final(registry).sessions_seq() == old(
            registry,
        ).sessions_seq().remove(crate::session::id_index(
            old(registry).sessions_seq(),
            old(conn).id_spec(),
        ) as int),
        !old(registry).contains_id(old(conn).id_spec()) ==> *final(registry) == *old(registry),
        !(old(conn).closed_spec() || old(conn).send_fails_spec()) ==> final(conn).sent_seq()
            == old(conn).sent_seq().push(
            MessageView::Text("Error: Failed to create terminal session: "@ + error_message@),
        ),
{
    let mut text = String::from_str("Error: Failed to create terminal session: ");
    text.append(error_message);
    let _ = conn.send_text(text.as_str());
    let _ = conn.close();
    let id = conn.id().clone();
    let _ = registry.remove_session(&id);
    SessionPhase::Closed
}

/// The payload bytes one sent message carries: a text message's encoded
/// characters, a binary message's bytes, nothing for the control kinds.
pub open spec fn message_bytes(m: MessageView) -> Seq<u8> {
    match m {
        MessageView::Text(t) => vstd::utf8::encode_utf8(t),
        MessageView::Binary(b) => b,
        _ => Seq::<u8>::empty(),
    }
}

/// The concatenated payload bytes of a stream of sent messages.
pub open spec fn sent_bytes(s: Seq<MessageView>) -> Seq<u8>
    decreases s.len(),
{
    if s.len() == 0 {
        Seq::<u8>::empty()
    } else {
        message_bytes(s[0]) + sent_bytes(s.drop_first())
    }
}

proof fn lemma_sent_bytes_push(s: Seq<MessageView>, m: MessageView)
    ensures
        sent_bytes(s.push(m)) == sent_bytes(s) + message_bytes(m),
    decreases s.len(),
{
    if s.len() == 0 {
        assert(s.push(m)[0] == m);
        assert(s.push(m).drop_first() =~= Seq::<MessageView>::empty());
        assert(sent_bytes(Seq::<MessageView>::empty()) == Seq::<u8>::empty());
        assert(message_bytes(m) + Seq::<u8>::empty() =~= Seq::<u8>::empty() + message_bytes(m));
    } else {
        assert(s.push(m)[0] == s[0]);
        assert(s.push(m).drop_first() =~= s.drop_first().push(m));
        lemma_sent_bytes_push(s.drop_first(), m);
        assert((message_bytes(s[0]) + sent_bytes(s.drop_first())) + message_bytes(m)
            =~= message_bytes(s[0]) + (sent_bytes(s.drop_first()) + message_bytes(m)));
    }
}

proof fn lemma_concat_assoc(a: Seq<u8>, b: Seq<u8>, c: Seq<u8>)
    ensures
        (a + b) + c == a + (b + c),
{
    assert((a + b) + c =~= a + (b + c));
}

/// Everything the engine sends for a script of inbound events run against
/// a live, drained simulated backend: text and binary messages yield the
/// interpreter's replies to their bytes, a ping yields the pong answer,
/// and the first session-ending condition — an inbound close, a transport
/// failure, the end of the script, or the simulated process's own exit —
/// ends the transcript.
pub open spec fn events_transcript(events: Seq<ConnEventView>, alive: bool, cwd: Seq<u8>) -> Seq<
    u8,
>
    decreases events.len(),
{
    if !alive {
        Seq::<u8>::empty()
    } else if events.len() == 0 {
        Seq::<u8>::empty()
    } else {
        match events[0] {
            ConnEventView::Received(m) => match m {
                MessageView::Text(t) => sim::sim_output(vstd::utf8::encode_utf8(t), cwd)
                    + events_transcript(
                    events.drop_first(),
                    !sim::sim_exits(vstd::utf8::encode_utf8(t)),
                    cwd,
                ),
                MessageView::Binary(d) => sim::sim_output(d, cwd) + events_transcript(
                    events.drop_first(),
                    !sim::sim_exits(d),
                    cwd,
                ),
                MessageView::Ping => "Pong".spec_bytes() + events_transcript(
                    events.drop_first(),
                    alive,
                    cwd,
                ),
                MessageView::Pong => events_transcript(events.drop_first(), alive, cwd),
                MessageView::Close => Seq::<u8>::empty(),
            },
            ConnEventView::Failed(_) => Seq::<u8>::empty(),
            ConnEventView::Ended => Seq::<u8>::empty(),
        }
    }
}

/// What one bridging run left behind: the terminal phase and the simulated
/// backend, so its final state can be inspected.
pub struct SessionRunReport {
    pub phase: SessionPhase,
    pub pty: MemoryPty,
}

/// One whole session against the simulated backend and a scripted
/// connection: register the session, construct the PTY, bridge messages
/// and output until either side ends, then clean up. The registry comes
/// back exactly as it was — the session's entry is added once and removed
/// exactly once, on every path — the connection ends closed, the backend
/// ends dead, and over a working transport the bytes sent to the client
/// are exactly the backend's greeting followed by the transcript of the
/// scripted events.
pub fn run_session(
    registry: &mut SessionRegistry,
    conn: &mut ScriptedConnection,
    config: &PtyConfig,
    session: Session,
) -> (r: SessionRunReport)
    requires
        old(registry).wf(),
        !old(registry).contains_id(session.session_id@),
        session.session_id@ == old(conn).id_spec(),
        config.wf(),
    ensures
        final(registry).sessions_seq() == old(registry).sessions_seq(),
        final(registry).wf(),
        !final(registry).contains_id(session.session_id@),
        r.phase is Closed,
        !r.pty.alive_spec(),
        final(conn).closed_spec(),
        final(conn).id_spec() == old(conn).id_spec(),
        !old(conn).send_fails_spec() && !old(conn).closed_spec() ==> sent_bytes(
            final(conn).sent_seq(),
        ) == sent_bytes(old(conn).sent_seq()) + welcome_of(config.command@) + events_transcript(
            old(conn).remaining(),
            true,
            cwd_bytes_of(config.cwd),
        ),
{
    let ghost reg0 = *registry;
    let ghost session_snap = session;
    let session_id = session.session_id.clone();
    let mut phase = SessionPhase::Created;
    let added = registry.add_session(session);
    proof {
        assert(added);
    }
    let ghost reg1 = *registry;
    let mut pty = MemoryPty::new(config);
    phase = SessionPhase::Active;
    while phase == SessionPhase::Active
        invariant
            registry.wf(),
            registry.sessions_seq() == reg1.sessions_seq(),
            reg1.sessions_seq() == reg0.sessions_seq().push(session_snap),
            registry.contains_id(session_snap.session_id@),
            conn.id_spec() == old(conn).id_spec(),
            conn.send_fails_spec() == old(conn).send_fails_spec(),
            pty.cwd_spec() == cwd_bytes_of(config.cwd),
            !old(conn).send_fails_spec() && !old(conn).closed_spec() ==> {
                &&& !conn.closed_spec()
                &&& (phase is Active ==> sent_bytes(old(conn).sent_seq()) + welcome_of(
                    config.command@,
                ) + events_transcript(old(conn).remaining(), true, cwd_bytes_of(config.cwd))
                    == sent_bytes(conn.sent_seq()) + pty.buffered() + events_transcript(
                    conn.remaining(),
                    pty.alive_spec(),
                    cwd_bytes_of(config.cwd),
                ))
                &&& (!(phase is Active) ==> sent_bytes(old(conn).sent_seq()) + welcome_of(
                    config.command@,
                ) + events_transcript(old(conn).remaining(), true, cwd_bytes_of(config.cwd))
                    == sent_bytes(conn.sent_seq()))
            },
        decreases phase_weight(phase), conn.remaining().len(), pty.buffered().len(),
    {
        let ghost conn0 = *conn;
        let ghost pty0 = pty;
        let ghost cwdv = cwd_bytes_of(config.cwd);
        let ghost hyp = !old(conn).send_fails_spec() && !old(conn).closed_spec();
        match pty.read(4096) {
            Ok(data) => {
                let (next_phase, action) = step(SessionEvent::Pty(PtyEvent::Output(data)));
                phase = next_phase;
                match action {
                    EngineAction::Forward(bytes) => {
                        let ghost bv = bytes@;
                        let message = forward_form(bytes);
                        let ghost mv = message@;
                        if conn.send_message(message).is_err() {
                            phase = SessionPhase::Closing;
                        }
                        proof {
                            if hyp {
                                let n = vstd::math::min(
                                    4096 as int,
                                    pty0.buffered().len() as int,
                                );
                                assert(pty0.buffered().len() > 0);
                                assert(bv == pty0.buffered().take(n));
                                assert(pty.buffered() == pty0.buffered().skip(n));
                                assert(message_bytes(mv) == bv);
                                lemma_sent_bytes_push(conn0.sent_seq(), mv);
                                assert(conn.sent_seq() == conn0.sent_seq().push(mv));
                                assert(pty0.buffered().take(n) + pty0.buffered().skip(n)
                                    =~= pty0.buffered());
                                lemma_concat_assoc(
                                    sent_bytes(conn0.sent_seq()),
                                    pty0.buffered().take(n),
                                    pty0.buffered().skip(n),
                                );
                            }
                        }
                    },
                    _ => {
                        proof {
                            if hyp {
                                assert(pty0.buffered().len() == 0);
                                assert(!pty0.alive_spec());
                                assert(events_transcript(conn0.remaining(), pty0.alive_spec(), cwdv)
                                    == Seq::<u8>::empty());
                                assert(sent_bytes(conn0.sent_seq()) + pty0.buffered()
                                    + Seq::<u8>::empty() =~= sent_bytes(conn0.sent_seq()));
                            }
                        }
                    },
                }
            },
            Err(_) => {
                let ghost rem0 = conn0.remaining();
                let event = conn.receive();
                let (next_phase, action) = step(SessionEvent::Conn(event));
                phase = next_phase;
                match action {
                    EngineAction::WriteToPty(bytes) => {
                        let ghost bv = bytes@;
                        if pty.write(bytes.as_slice()).is_err() {
                            phase = SessionPhase::Closing;
                        }
                        proof {
                            if hyp {
                                assert(pty0.alive_spec() && pty0.buffered().len() == 0);
                                assert(rem0.len() > 0);
                                assert(conn.remaining() == rem0.drop_first());
                                assert(events_transcript(rem0, true, cwdv) == sim::sim_output(
                                    bv,
                                    cwdv,
                                ) + events_transcript(
                                    rem0.drop_first(),
                                    !sim::sim_exits(bv),
                                    cwdv,
                                ));
                                assert(pty.buffered() == pty0.buffered() + sim::sim_output(
                                    bv,
                                    cwdv,
                                ));
                                assert(pty0.buffered() + sim::sim_output(bv, cwdv)
                                    =~= sim::sim_output(bv, cwdv));
                                assert(pty.alive_spec() == !sim::sim_exits(bv));
                                assert(sent_bytes(conn0.sent_seq()) + pty0.buffered()
                                    =~= sent_bytes(conn0.sent_seq()));
                                lemma_concat_assoc(
                                    sent_bytes(conn0.sent_seq()),
                                    sim::sim_output(bv, cwdv),
                                    events_transcript(
                                        rem0.drop_first(),
                                        !sim::sim_exits(bv),
                                        cwdv,
                                    ),
                                );
                            }
                        }
                    },
                    EngineAction::SendPong => {
                        if conn.send_text("Pong").is_err() {
                            phase = SessionPhase::Closing;
                        }
                        proof {
                            if hyp {
                                assert(pty0.alive_spec() && pty0.buffered().len() == 0);
                                assert(rem0.len() > 0);
                                assert(conn.remaining() == rem0.drop_first());
                                assert(events_transcript(rem0, true, cwdv) == "Pong".spec_bytes()
                                    + events_transcript(rem0.drop_first(), true, cwdv));
                                lemma_sent_bytes_push(
                                    conn0.sent_seq(),
                                    MessageView::Text("Pong"@),
                                );
                                assert(conn.sent_seq() == conn0.sent_seq().push(
                                    MessageView::Text("Pong"@),
                                ));
                                assert(message_bytes(MessageView::Text("Pong"@))
                                    == "Pong".spec_bytes());
                                assert(sent_bytes(conn0.sent_seq()) + pty0.buffered()
                                    =~= sent_bytes(conn0.sent_seq()));
                                assert(sent_bytes(conn.sent_seq()) + pty.buffered()
                                    =~= sent_bytes(conn.sent_seq()));
                                lemma_concat_assoc(
                                    sent_bytes(conn0.sent_seq()),
                                    "Pong".spec_bytes(),
                                    events_transcript(rem0.drop_first(), true, cwdv),
                                );
                            }
                        }
                    },
                    _ => {
                        proof {
                            if hyp {
                                assert(pty0.alive_spec() && pty0.buffered().len() == 0);
                                assert(sent_bytes(conn0.sent_seq()) + pty0.buffered()
                                    =~= sent_bytes(conn0.sent_seq()));
                                if phase is Active {
                                    assert(rem0.len() > 0);
                                    assert(conn.remaining() == rem0.drop_first());
                                    assert(events_transcript(rem0, true, cwdv)
                                        == events_transcript(rem0.drop_first(), true, cwdv));
                                } else {
                                    assert(events_transcript(rem0, true, cwdv) == Seq::<
                                        u8,
                                    >::empty());
                                    assert(sent_bytes(conn0.sent_seq()) + Seq::<u8>::empty()
                                        =~= sent_bytes(conn0.sent_seq()));
                                }
                            }
                        }
                    },
                }
            },
        }
    }
    let closed_phase = cleanup_session(registry, conn, &mut pty, &session_id);
    proof {
        crate::session::lemma_id_index(reg1.sessions_seq(), session_snap.session_id@);
        crate::session::law_add_then_remove(reg0, reg1, *registry, session_snap);
    }
    SessionRunReport { phase: closed_phase, pty }
}

} // verus!
