//! The handler of one accepted connection: a line-oriented request/response
//! loop that ends when the peer closes, an I/O error occurs or shutdown is
//! signaled.
//!
//! The handler itself does no I/O. Its runtime races a line read against the
//! shutdown signal, reports what happened as a [`ConnectionEvent`], and
//! writes the [`Reply`] it gets back.

use crate::shutdown::{BroadcastState, Broadcaster, ShutdownSubscription};
use vstd::prelude::*;
use vstd::utf8::{encode_utf8, is_ascii_chars, is_ascii_chars_encode_utf8};

verus! {

/// What the runtime of a connection reports to its handler.
#[derive(Debug, Clone, Copy, PartialEq, Eq, Structural)]
pub enum ConnectionEvent {
    /// A read up to the next newline returned this many bytes. Zero means
    /// that the peer closed the stream.
    LineRead(usize),
    /// Reading from the peer failed.
    ReadFailed,
    /// Writing a reply to the peer failed.
    WriteFailed,
    /// The connection's subscription saw the shutdown signal.
    ShutdownSignaled,
}

/// Why a connection ended.
#[derive(Debug, Clone, Copy, PartialEq, Eq, Structural)]
pub enum CloseReason {
    /// The peer closed the stream.
    PeerClosed,
    /// A read failed.
    ReadFailed,
    /// A write failed.
    WriteFailed,
    /// Shutdown was signaled.
    Shutdown,
}

/// Where a connection is in its life.
#[derive(Debug, Clone, Copy, PartialEq, Eq, Structural)]
pub enum ConnectionPhase {
    /// Lines are read and acknowledged.
    Open,
    /// The handler has finished.
    Closed(CloseReason),
}

/// What the handler wants written to the peer.
#[derive(Debug, Clone, Copy, PartialEq, Eq, Structural)]
pub enum Reply {
    /// Nothing is written.
    Nothing,
    /// The acknowledgement line; the line buffer is cleared and reading goes
    /// on.
    Acknowledge,
    /// The shutdown notice. The write is best effort: the connection is
    /// closed whether it succeeds or not.
    Farewell,
}

/// The phase that follows `phase` when `event` is reported.
pub open spec fn next_phase(phase: ConnectionPhase, event: ConnectionEvent) -> ConnectionPhase {
    match phase {
        ConnectionPhase::Closed(_) => phase,
        ConnectionPhase::Open => match event {
            ConnectionEvent::LineRead(n) => if n == 0 {
                ConnectionPhase::Closed(CloseReason::PeerClosed)
            } else {
                ConnectionPhase::Open
            },
            ConnectionEvent::ReadFailed => ConnectionPhase::Closed(CloseReason::ReadFailed),
            ConnectionEvent::WriteFailed => ConnectionPhase::Closed(CloseReason::WriteFailed),
            ConnectionEvent::ShutdownSignaled => ConnectionPhase::Closed(CloseReason::Shutdown),
        },
    }
}

/// The reply to `event` when it is reported in `phase`.
pub open spec fn reply_to(phase: ConnectionPhase, event: ConnectionEvent) -> Reply {
    match phase {
        ConnectionPhase::Closed(_) => Reply::Nothing,
        ConnectionPhase::Open => match event {
            ConnectionEvent::LineRead(n) => if n == 0 {
                Reply::Nothing
            } else {
                Reply::Acknowledge
            },
            ConnectionEvent::ReadFailed => Reply::Nothing,
            ConnectionEvent::WriteFailed => Reply::Nothing,
            ConnectionEvent::ShutdownSignaled => Reply::Farewell,
        },
    }
}

/// The text of a reply, newline included.
pub open spec fn reply_text(reply: Reply) -> Seq<char> {
    match reply {
        Reply::Nothing => Seq::empty(),
        Reply::Acknowledge => "Command received\n"@,
        Reply::Farewell => "Shutdown started. Closing connection...\n"@,
    }
}

/// The bytes of a reply as they go over the wire.
pub open spec fn reply_bytes(reply: Reply) -> Seq<u8> {
    encode_utf8(reply_text(reply))
}

/// What a woken handler reports to itself: the shutdown signal if it was
/// waiting for this connection, nothing otherwise.
pub open spec fn wake_event(signaled: bool) -> Option<ConnectionEvent> {
    if signaled {
        Some(ConnectionEvent::ShutdownSignaled)
    } else {
        None
    }
}

/// The phase that follows `phase` when `event`, if there is one, is
/// reported.
pub open spec fn next_phase_if(phase: ConnectionPhase, event: Option<ConnectionEvent>) -> ConnectionPhase {
    match event {
        Some(e) => next_phase(phase, e),
        None => phase,
    }
}

/// The reply to `event`, if there is one, when it is reported in `phase`.
pub open spec fn reply_if(phase: ConnectionPhase, event: Option<ConnectionEvent>) -> Reply {
    match event {
        Some(e) => reply_to(phase, e),
        None => Reply::Nothing,
    }
}

impl Reply {
    /// The line to write to the peer; empty for [`Reply::Nothing`].
    pub fn text(&self) -> (line: &'static str)
        ensures
            line@ == reply_text(*self),
    {
        match self {
            Reply::Nothing => {
                proof {
                    reveal_strlit("");
                }
                assert(""@ =~= Seq::<char>::empty());
                ""
            },
            Reply::Acknowledge => "Command received\n",
            Reply::Farewell => "Shutdown started. Closing connection...\n",
        }
    }
}

/// One accepted peer together with the subscription it holds for its whole
/// life.
#[derive(Debug)]
pub struct Connection {
    subscription: ShutdownSubscription,
    phase: ConnectionPhase,
}

impl Connection {
    /// The phase the connection is in.
    pub closed spec fn spec_phase(&self) -> ConnectionPhase {
        self.phase
    }

    /// The subscription the connection was created with.
    pub closed spec fn spec_subscription(&self) -> &ShutdownSubscription {
        &self.subscription
    }

    /// An open connection bound to `subscription`.
    pub fn new(subscription: ShutdownSubscription) -> (connection: Connection)
        ensures
            connection.phase() == ConnectionPhase::Open,
            *connection.subscription() == subscription,
    {
        Connection { subscription, phase: ConnectionPhase::Open }
    }

    /// The phase the connection is in.
    #[verifier::when_used_as_spec(spec_phase)]
    pub fn phase(&self) -> (phase: ConnectionPhase)
        ensures
            phase == self.spec_phase(),
    {
        self.phase
    }

    /// Whether the handler is still running.
    pub fn is_open(&self) -> (open: bool)
        ensures
            open == (self.phase() == ConnectionPhase::Open),
    {
        match self.phase {
            ConnectionPhase::Open => true,
            ConnectionPhase::Closed(_) => false,
        }
    }

    /// The subscription the connection was created with and keeps until it
    /// ends.
    #[verifier::when_used_as_spec(spec_subscription)]
    pub fn subscription(&self) -> (subscription: &ShutdownSubscription)
        ensures
            subscription == self.spec_subscription(),
    {
        &self.subscription
    }

    /// Ends the connection's life and releases its subscription, to be given
    /// up at the broadcaster.
    pub fn into_subscription(self) -> (subscription: ShutdownSubscription)
        ensures
            subscription == *self.subscription(),
    {
        self.subscription
    }

    /// Looks for the shutdown signal after a wake-up, and takes it as an
    /// event if it is there.
    ///
    /// The first look after the signal was fired finds it: an open connection
    /// then says farewell and closes. A wake-up without a signal, or a second
    /// one, changes nothing.
    pub fn on_wake(&mut self, broadcaster: &mut Broadcaster) -> (reply: Reply)
        ensures
            final(broadcaster)@ == old(broadcaster)@.observe(old(self).subscription().id()),
            old(broadcaster)@.wf() ==> final(broadcaster)@.wf(),
            final(broadcaster).bell() == old(broadcaster).bell(),
            reply == reply_if(
                old(self).phase(),
                wake_event(old(broadcaster)@.signaled(old(self).subscription().id())),
            ),
            final(self).phase() == next_phase_if(
                old(self).phase(),
                wake_event(old(broadcaster)@.signaled(old(self).subscription().id())),
            ),
            final(self).subscription() == old(self).subscription(),
    {
        if broadcaster.observe(&self.subscription) {
            self.on_event(ConnectionEvent::ShutdownSignaled)
        } else {
            Reply::Nothing
        }
    }

    /// Takes one event and says what to write.
    ///
    /// An open connection acknowledges every line that has content, says
    /// farewell when shutdown is signaled, and closes silently when the peer
    /// closes or I/O fails. A closed connection ignores every event.
    pub fn on_event(&mut self, event: ConnectionEvent) -> (reply: Reply)
        ensures
            reply == reply_to(old(self).phase(), event),
            final(self).phase() == next_phase(old(self).phase(), event),
            final(self).subscription() == old(self).subscription(),
    {
        match self.phase {
            ConnectionPhase::Closed(_) => Reply::Nothing,
            ConnectionPhase::Open => match event {
                ConnectionEvent::LineRead(n) => {
                    if n == 0 {
                        self.phase = ConnectionPhase::Closed(CloseReason::PeerClosed);
                        Reply::Nothing
                    } else {
                        Reply::Acknowledge
                    }
                },
                ConnectionEvent::ReadFailed => {
                    self.phase = ConnectionPhase::Closed(CloseReason::ReadFailed);
                    Reply::Nothing
                },
                ConnectionEvent::WriteFailed => {
                    self.phase = ConnectionPhase::Closed(CloseReason::WriteFailed);
                    Reply::Nothing
                },
                ConnectionEvent::ShutdownSignaled => {
                    self.phase = ConnectionPhase::Closed(CloseReason::Shutdown);
                    Reply::Farewell
                },
            },
        }
    }
}

/// The phase a connection reaches from `phase` after `events`, first to last.
pub open spec fn phase_after(phase: ConnectionPhase, events: Seq<ConnectionEvent>) -> ConnectionPhase
    decreases events.len(),
{
    if events.len() == 0 {
        phase
    } else {
        next_phase(phase_after(phase, events.drop_last()), events.last())
    }
}

/// Every byte written to the peer while a connection that starts in `phase`
/// takes `events`: the replies, in the order of the events.
pub open spec fn written_during(phase: ConnectionPhase, events: Seq<ConnectionEvent>) -> Seq<u8>
    decreases events.len(),
{
    if events.len() == 0 {
        Seq::empty()
    } else {
        written_during(phase, events.drop_last()) + reply_bytes(
            reply_to(phase_after(phase, events.drop_last()), events.last()),
        )
    }
}

/// Whether `event` ends an open connection.
pub open spec fn is_closing(event: ConnectionEvent) -> bool {
    match event {
        ConnectionEvent::LineRead(n) => n == 0,
        _ => true,
    }
}

/// Runs the handler over the events of a whole session, in order, and returns
/// every byte it wants written to the peer.
///
/// Events that come after the one that closes the connection are ignored.
pub fn handle_connection(connection: &mut Connection, events: &Vec<ConnectionEvent>) -> (written:
    Vec<u8>)
    ensures
        final(connection).phase() == phase_after(old(connection).phase(), events@),
        written@ == written_during(old(connection).phase(), events@),
        final(connection).subscription() == old(connection).subscription(),
{
    let mut written: Vec<u8> = Vec::new();
    let mut i: usize = 0;
    while i < events.len() && connection.is_open()
        invariant
            i <= events.len(),
            connection.phase() == phase_after(old(connection).phase(), events@.take(i as int)),
            written@ == written_during(old(connection).phase(), events@.take(i as int)),
            connection.subscription() == old(connection).subscription(),
        decreases events.len() - i,
    {
        let reply = connection.on_event(events[i]);
        let line = reply.text();
        let ghost before = written@;
        written.extend_from_slice(line.as_bytes());
        proof {
            assert(events@.take(i + 1).drop_last() =~= events@.take(i as int));
            assert(written@ =~= before + reply_bytes(reply));
        }
        i += 1;
    }
    proof {
        let seen = events@.take(i as int);
        let rest = events@.skip(i as int);
        assert(seen + rest =~= events@);
        if i < events.len() {
            closed_connection_ignores_events(old(connection).phase(), seen, rest);
        }
    }
    written
}

/// Once a connection has closed, whatever is reported afterwards changes
/// nothing and writes nothing.
pub proof fn closed_connection_ignores_events(
    phase: ConnectionPhase,
    events: Seq<ConnectionEvent>,
    later: Seq<ConnectionEvent>,
)
    requires
        phase_after(phase, events) is Closed,
    ensures
        phase_after(phase, events + later) == phase_after(phase, events),
        written_during(phase, events + later) == written_during(phase, events),
    decreases later.len(),
{
    if later.len() == 0 {
        assert(events + later =~= events);
    } else {
        closed_connection_ignores_events(phase, events, later.drop_last());
        assert((events + later).drop_last() =~= events + later.drop_last());
        assert(reply_bytes(Reply::Nothing) =~= Seq::<u8>::empty());
    }
}

/// The handler always terminates: the peer closing, a failed read or write,
/// and the shutdown signal each close an open connection, and a session is
/// closed as soon as one of them has been reported.
pub proof fn closing_event_ends_session(
    phase: ConnectionPhase,
    events: Seq<ConnectionEvent>,
    i: int,
)
    requires
        0 <= i < events.len(),
        is_closing(events[i]),
    ensures
        next_phase(ConnectionPhase::Open, events[i]) is Closed,
        phase_after(phase, events) is Closed,
    decreases events.len(),
{
    if i < events.len() - 1 {
        closing_event_ends_session(phase, events.drop_last(), i);
    }
}

/// Whether `bytes` are one line: they end in a newline and hold no other.
pub open spec fn is_one_line(bytes: Seq<u8>) -> bool {
    &&& bytes.len() > 0
    &&& bytes.last() == 10
    &&& forall|i: int| 0 <= i < bytes.len() - 1 ==> bytes[i] != 10
}

/// A reply that is written at all is exactly one line of plain ASCII, so the
/// peer can read the replies with the framing it sends its commands in.
pub proof fn replies_are_whole_lines(reply: Reply)
    requires
        reply != Reply::Nothing,
    ensures
        is_ascii_chars(reply_text(reply)),
        reply_bytes(reply).len() == reply_text(reply).len(),
        is_one_line(reply_bytes(reply)),
        reply_bytes(Reply::Acknowledge).len() == 17,
        reply_bytes(Reply::Farewell).len() == 40,
{
    reveal_strlit("Command received\n");
    reveal_strlit("Shutdown started. Closing connection...\n");
    let ack = reply_text(Reply::Acknowledge);
    let bye = reply_text(Reply::Farewell);
    assert(is_ascii_chars(ack));
    assert(is_ascii_chars(bye));
    is_ascii_chars_encode_utf8(ack);
    is_ascii_chars_encode_utf8(bye);
    assert(forall|i: int| 0 <= i < 16 ==> ack[i] != '\n');
    assert(forall|i: int| 0 <= i < 39 ==> bye[i] != '\n');
    assert(ack[16] == '\n' && bye[39] == '\n');
}

/// `count` copies of `unit`, one after the other.
pub open spec fn repeated(unit: Seq<u8>, count: nat) -> Seq<u8>
    decreases count,
{
    if count == 0 {
        Seq::empty()
    } else {
        repeated(unit, (count - 1) as nat) + unit
    }
}

/// Firing the signal ends an open connection that is waiting for input: woken
/// once, its handler says farewell and closes, and the signal is spent. Woken
/// again, it finds nothing.
pub proof fn shutdown_ends_an_idle_connection(signal: BroadcastState, id: nat)
    requires
        signal.wf(),
        signal.is_live(id),
        !signal.observed[id],
    ensures
        ({
            let fired = signal.fire();
            let woken = wake_event(fired.signaled(id));
            let again = wake_event(fired.observe(id).signaled(id));
            &&& reply_if(ConnectionPhase::Open, woken) == Reply::Farewell
            &&& next_phase_if(ConnectionPhase::Open, woken) == ConnectionPhase::Closed(
                CloseReason::Shutdown,
            )
            &&& again is None
        }),
{
}

/// The events of connection `k` among the events of many connections, each
/// tagged with the connection it belongs to.
pub open spec fn events_of(events: Seq<(nat, ConnectionEvent)>, k: nat) -> Seq<ConnectionEvent>
    decreases events.len(),
{
    if events.len() == 0 {
        Seq::empty()
    } else if events.last().0 == k {
        events_of(events.drop_last(), k).push(events.last().1)
    } else {
        events_of(events.drop_last(), k)
    }
}

/// The phases of many connections after their events, interleaved in any
/// way, have been handled one at a time, each by its own handler.
pub open spec fn phases_after(phases: Seq<ConnectionPhase>, events: Seq<(nat, ConnectionEvent)>) -> Seq<
    ConnectionPhase,
>
    decreases events.len(),
{
    if events.len() == 0 {
        phases
    } else {
        let before = phases_after(phases, events.drop_last());
        let (k, event) = events.last();
        if k < before.len() {
            before.update(k as int, next_phase(before[k as int], event))
        } else {
            before
        }
    }
}

/// The bytes written to connection `k` while the interleaved events of many
/// connections are handled.
pub open spec fn written_to(
    phases: Seq<ConnectionPhase>,
    events: Seq<(nat, ConnectionEvent)>,
    k: nat,
) -> Seq<u8>
    decreases events.len(),
{
    if events.len() == 0 {
        Seq::empty()
    } else {
        let before = phases_after(phases, events.drop_last());
        let earlier = written_to(phases, events.drop_last(), k);
        if events.last().0 == k && k < before.len() {
            earlier + reply_bytes(reply_to(before[k as int], events.last().1))
        } else {
            earlier
        }
    }
}

/// Connections do not affect each other: what one connection is sent, and
/// when it closes, follows from its own events alone, however they are
/// interleaved with the events of the others. A peer that stays silent holds
/// nobody up, and a busy one gets every reply it would get alone.
pub proof fn connections_are_independent(
    phases: Seq<ConnectionPhase>,
    events: Seq<(nat, ConnectionEvent)>,
    k: nat,
)
    requires
        k < phases.len(),
    ensures
        phases_after(phases, events).len() == phases.len(),
        phases_after(phases, events)[k as int] == phase_after(phases[k as int], events_of(events, k)),
        written_to(phases, events, k) == written_during(phases[k as int], events_of(events, k)),
    decreases events.len(),
{
    if events.len() > 0 {
        let earlier = events.drop_last();
        connections_are_independent(phases, earlier, k);
        if events.last().0 == k {
            assert(events_of(events, k).drop_last() =~= events_of(earlier, k));
        }
    }
}

/// A session in which every read returns content and nothing else happens
/// stays open and is answered with one acknowledgement per line, and nothing
/// besides.
pub proof fn every_line_is_acknowledged(events: Seq<ConnectionEvent>)
    requires
        forall|i: int| 0 <= i < events.len() ==> !is_closing(#[trigger] events[i]),
    ensures
        phase_after(ConnectionPhase::Open, events) == ConnectionPhase::Open,
        written_during(ConnectionPhase::Open, events) == repeated(
            reply_bytes(Reply::Acknowledge),
            events.len(),
        ),
    decreases events.len(),
{
    if events.len() > 0 {
        every_line_is_acknowledged(events.drop_last());
    }
}

} // verus!
