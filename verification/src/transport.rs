//! The transport supervisor's decision logic: exponential backoff with
//! jitter, the connection phase machine, and the per-event step of a live
//! session. The socket itself, the timers and the sleeps run outside the
//! library and feed events in; the functions here decide what happens on
//! each of them.

use vstd::arithmetic::power2::{lemma2_to64, lemma_pow2_unfold, pow2};
use vstd::prelude::*;

use crate::commands::IncomingCommand;
use crate::inbound::parse_command_text;
use crate::inbound::spec_parse_command;
use crate::text::lit_str;

verus! {

/// Ceiling of the reconnect delay, in seconds.
pub const MAX_BACKOFF_SECS: u64 = 32;

/// Exclusive ceiling of the per-attempt jitter, in milliseconds.
pub const JITTER_MAX_MS: u64 = 1000;

/// The backoff delay in seconds once `n` waits of the current failure run
/// have been slept through: the (n+1)-th wait sleeps this long, starting at
/// 1 s and doubling up to the 32 s ceiling.
pub open spec fn delay_after_waits(n: nat) -> nat
    decreases n,
{
    if n == 0 {
        1
    } else if 2 * delay_after_waits((n - 1) as nat) < MAX_BACKOFF_SECS {
        2 * delay_after_waits((n - 1) as nat)
    } else {
        MAX_BACKOFF_SECS as nat
    }
}

/// The backoff policy in closed form: once `n` waits have elapsed the next
/// wait is `min(2^n, 32)` seconds — that is, the wait after failure number
/// `N` of a run (counting from 1) is `min(2^(N-1), 32)` seconds, to which
/// the sleep adds a jitter below one second.
pub proof fn lemma_backoff_policy(n: nat)
    ensures
        delay_after_waits(n) == if pow2(n) < 32 {
            pow2(n)
        } else {
            32nat
        },
    decreases n,
{
    lemma2_to64();
    if n > 0 {
        lemma_backoff_policy((n - 1) as nat);
        lemma_pow2_unfold(n);
    }
}

/// Reconnect backoff: the current delay and the attempt counter.
pub struct BackoffState {
    delay_secs: u64,
    attempt: u32,
    waits: Ghost<nat>,
}

impl BackoffState {
    /// The delay in seconds that the next backoff wait will sleep.
    pub closed spec fn delay_secs(&self) -> u64 {
        self.delay_secs
    }

    /// How many attempts were made since the last reset.
    pub closed spec fn attempt(&self) -> u32 {
        self.attempt
    }

    /// How many backoff waits of the current failure run have elapsed.
    pub closed spec fn waits(&self) -> nat {
        self.waits@
    }

    pub open spec fn wf(&self) -> bool {
        &&& self.delay_secs() == delay_after_waits(self.waits())
        &&& 1 <= self.delay_secs() <= 32
    }

    pub fn new() -> (b: BackoffState)
        ensures
            b.wf(),
            b.delay_secs() == 1,
            b.attempt() == 0,
            b.waits() == 0,
    {
        BackoffState { delay_secs: 1, attempt: 0, waits: Ghost(0) }
    }

    /// Counts one connection attempt.
    pub fn record_attempt(&mut self)
        requires
            old(self).attempt() < u32::MAX,
        ensures
            final(self).attempt() == old(self).attempt() + 1,
            final(self).delay_secs() == old(self).delay_secs(),
            final(self).waits() == old(self).waits(),
            old(self).wf() ==> final(self).wf(),
    {
        self.attempt = self.attempt + 1;
    }

    /// The sleep before the next attempt: the current delay plus a jitter
    /// below one second, drawn from the given clock reading.
    pub fn backoff_sleep_ms(&self, clock_ms: u64) -> (ms: u64)
        requires
            self.wf(),
        ensures
            ms == self.delay_secs() * 1000 + clock_ms % JITTER_MAX_MS,
            ms < self.delay_secs() * 1000 + JITTER_MAX_MS,
            ms <= 32999,
    {
        self.delay_secs * 1000 + clock_ms % JITTER_MAX_MS
    }

    /// The backoff wait elapsed: the next wait doubles, up to the ceiling.
    pub fn consume_wait(&mut self)
        requires
            old(self).wf(),
        ensures
            final(self).wf(),
            final(self).waits() == old(self).waits() + 1,
            final(self).delay_secs() == delay_after_waits(final(self).waits()),
            final(self).attempt() == old(self).attempt(),
    {
        proof {
            self.waits@ = self.waits@ + 1;
        }
        let doubled = self.delay_secs * 2;
        self.delay_secs = if doubled < MAX_BACKOFF_SECS {
            doubled
        } else {
            MAX_BACKOFF_SECS
        };
    }

    /// A clean server-initiated close: reconnect immediately, with the
    /// delay and the attempt counter reset.
    pub fn on_server_close(&mut self)
        ensures
            final(self).wf(),
            final(self).delay_secs() == 1,
            final(self).attempt() == 0,
            final(self).waits() == 0,
    {
        self.delay_secs = 1;
        self.attempt = 0;
        proof {
            self.waits@ = 0;
        }
    }

    /// A successful connection: the delay resets to one second.
    pub fn on_connected(&mut self)
        ensures
            final(self).wf(),
            final(self).delay_secs() == 1,
            final(self).waits() == 0,
            final(self).attempt() == old(self).attempt(),
    {
        self.delay_secs = 1;
        proof {
            self.waits@ = 0;
        }
    }
}

// ---------------------------------------------------------------------------
// Connection phase machine
// ---------------------------------------------------------------------------

#[derive(PartialEq, Eq, Structural, Clone, Copy, Debug)]
pub enum ConnectionPhase {
    /// Trying to establish the channel.
    Connecting,
    /// Connected, draining the disconnection buffer; no fresh frame goes
    /// out until the drained frames have.
    Draining,
    /// Connected and streaming.
    Connected,
    /// Waiting out the backoff delay.
    BackingOff,
    /// Shut down; no further reconnection.
    Stopped,
}

/// How a live session ended.
#[derive(PartialEq, Eq, Structural, Clone, Copy, Debug)]
pub enum SessionExit {
    /// The server sent a close frame.
    ServerClose,
    /// A connection, protocol or send failure.
    Failure,
    /// The shutdown signal.
    Shutdown,
}

/// The transport supervisor: tracks the connection phase, the backoff
/// state, and the process-wide connected flag.
pub struct Supervisor {
    backoff: BackoffState,
    phase: ConnectionPhase,
    connected_flag: bool,
}

impl Supervisor {
    pub closed spec fn phase(&self) -> ConnectionPhase {
        self.phase
    }

    pub closed spec fn connected(&self) -> bool {
        self.connected_flag
    }

    pub closed spec fn backoff(&self) -> BackoffState {
        self.backoff
    }

    pub open spec fn wf(&self) -> bool {
        &&& self.backoff().wf()
        &&& (self.connected() <==> (self.phase() == ConnectionPhase::Draining || self.phase()
            == ConnectionPhase::Connected))
    }

    pub fn new() -> (s: Supervisor)
        ensures
            s.wf(),
            s.phase() == ConnectionPhase::Connecting,
            !s.connected(),
            s.backoff().delay_secs() == 1,
            s.backoff().attempt() == 0,
    {
        Supervisor { backoff: BackoffState::new(), phase: ConnectionPhase::Connecting, connected_flag: false }
    }

    /// Reads the connected flag (what the status endpoint reports).
    pub fn is_connected(&self) -> (r: bool)
        ensures
            r == self.connected(),
    {
        self.connected_flag
    }

    /// Reads the connection phase (what the reconnect loop dispatches on).
    pub fn current_phase(&self) -> (p: ConnectionPhase)
        ensures
            p == self.phase(),
    {
        self.phase
    }

    /// Counts the attempt that is about to be made.
    pub fn record_attempt(&mut self)
        requires
            old(self).wf(),
            old(self).phase() == ConnectionPhase::Connecting,
            old(self).backoff().attempt() < u32::MAX,
        ensures
            final(self).wf(),
            final(self).phase() == old(self).phase(),
            final(self).connected() == old(self).connected(),
            final(self).backoff().attempt() == old(self).backoff().attempt() + 1,
            final(self).backoff().delay_secs() == old(self).backoff().delay_secs(),
    {
        self.backoff.record_attempt();
    }

    /// The channel came up: the connected flag rises, the delay resets, and
    /// the buffered frames must drain before any fresh frame goes out.
    pub fn on_connect_success(&mut self)
        requires
            old(self).wf(),
            old(self).phase() == ConnectionPhase::Connecting,
        ensures
            final(self).wf(),
            final(self).phase() == ConnectionPhase::Draining,
            final(self).connected(),
            final(self).backoff().delay_secs() == 1,
    {
        self.backoff.on_connected();
        self.phase = ConnectionPhase::Draining;
        self.connected_flag = true;
    }

    /// The connection attempt failed: wait out the backoff. The delay to
    /// sleep is the current one; it doubles once the wait has elapsed.
    pub fn on_connect_failure(&mut self)
        requires
            old(self).wf(),
            old(self).phase() == ConnectionPhase::Connecting,
        ensures
            final(self).wf(),
            final(self).phase() == ConnectionPhase::BackingOff,
            !final(self).connected(),
            final(self).backoff() == old(self).backoff(),
    {
        self.phase = ConnectionPhase::BackingOff;
        self.connected_flag = false;
    }

    /// Every buffered frame has been handed to the channel: fresh frames
    /// may now flow.
    pub fn on_drained(&mut self)
        requires
            old(self).wf(),
            old(self).phase() == ConnectionPhase::Draining,
        ensures
            final(self).wf(),
            final(self).phase() == ConnectionPhase::Connected,
            final(self).connected(),
    {
        self.phase = ConnectionPhase::Connected;
    }

    /// Whether a fresh (non-buffered) frame may go out now.
    pub fn fresh_frame_allowed(&self) -> (r: bool)
        ensures
            r == (self.phase() == ConnectionPhase::Connected),
    {
        match self.phase {
            ConnectionPhase::Connected => true,
            _ => false,
        }
    }

    /// The live session ended: a clean server close reconnects immediately
    /// with the backoff reset; a failure backs off; the shutdown signal
    /// stops the supervisor. The connected flag falls in every case.
    pub fn on_session_exit(&mut self, exit: SessionExit)
        requires
            old(self).wf(),
            old(self).phase() == ConnectionPhase::Draining || old(self).phase()
                == ConnectionPhase::Connected,
        ensures
            final(self).wf(),
            !final(self).connected(),
            exit == SessionExit::ServerClose ==> {
                &&& final(self).phase() == ConnectionPhase::Connecting
                &&& final(self).backoff().delay_secs() == 1
                &&& final(self).backoff().attempt() == 0
            },
            exit == SessionExit::Failure ==> {
                &&& final(self).phase() == ConnectionPhase::BackingOff
                &&& final(self).backoff() == old(self).backoff()
            },
            exit == SessionExit::Shutdown ==> final(self).phase() == ConnectionPhase::Stopped,
    {
        self.connected_flag = false;
        match exit {
            SessionExit::ServerClose => {
                self.backoff.on_server_close();
                self.phase = ConnectionPhase::Connecting;
            },
            SessionExit::Failure => {
                self.phase = ConnectionPhase::BackingOff;
            },
            SessionExit::Shutdown => {
                self.phase = ConnectionPhase::Stopped;
            },
        }
    }

    /// The backoff sleep for the coming retry, from a clock reading.
    pub fn next_sleep_ms(&self, clock_ms: u64) -> (ms: u64)
        requires
            self.wf(),
        ensures
            ms == self.backoff().delay_secs() * 1000 + clock_ms % JITTER_MAX_MS,
            ms <= 32999,
    {
        self.backoff.backoff_sleep_ms(clock_ms)
    }

    /// The backoff sleep has elapsed: try to connect again.
    pub fn on_backoff_elapsed(&mut self)
        requires
            old(self).wf(),
            old(self).phase() == ConnectionPhase::BackingOff,
        ensures
            final(self).wf(),
            final(self).phase() == ConnectionPhase::Connecting,
            !final(self).connected(),
            final(self).backoff().waits() == old(self).backoff().waits() + 1,
            final(self).backoff().delay_secs() == delay_after_waits(
                final(self).backoff().waits(),
            ),
            final(self).backoff().attempt() == old(self).backoff().attempt(),
    {
        self.backoff.consume_wait();
        self.phase = ConnectionPhase::Connecting;
    }

    /// The shutdown signal arrived outside a live session.
    pub fn on_shutdown(&mut self)
        ensures
            final(self).phase() == ConnectionPhase::Stopped,
            !final(self).connected(),
            final(self).backoff() == old(self).backoff(),
    {
        self.phase = ConnectionPhase::Stopped;
        self.connected_flag = false;
    }
}

// ---------------------------------------------------------------------------
// Per-event session step
// ---------------------------------------------------------------------------

/// What a live session can observe: one arm per wake-up of its select
/// loop.
pub enum SessionEvent {
    /// The shutdown signal.
    ShutdownSignal,
    /// The heartbeat interval elapsed.
    PingDue,
    /// A frame arrived on the outbound channel.
    OutgoingFrame { frame: String },
    /// A text frame arrived from the server.
    InboundText { text: String },
    /// A pong arrived from the server.
    InboundPong,
    /// The server sent a close frame.
    InboundClose,
    /// The stream reported an error.
    InboundFailure { message: String },
    /// The stream ended without a close frame.
    StreamEnded,
}

/// What the session does in response: exactly one action per event.
pub enum SessionAction {
    /// Close the channel and exit cleanly (shutdown).
    CloseGracefully,
    /// Send a heartbeat ping.
    SendPing,
    /// Send this frame as text.
    SendText { frame: String },
    /// Dispatch this command to the handler.
    HandleCommand { cmd: IncomingCommand },
    /// Nothing to do (pong, unknown or unparseable frame).
    Ignore,
    /// Exit: the server closed the channel cleanly.
    ExitServerClose,
    /// Exit: the channel failed.
    ExitFailure { message: String },
}

pub open spec fn session_action_matches(event: SessionEvent, action: SessionAction) -> bool {
    match event {
        SessionEvent::ShutdownSignal => action is CloseGracefully,
        SessionEvent::PingDue => action is SendPing,
        SessionEvent::OutgoingFrame { frame } => action matches SessionAction::SendText {
            frame: f,
        } && f@ == frame@,
        SessionEvent::InboundText { text } => match spec_parse_command(text@) {
            Some(m) => action matches SessionAction::HandleCommand { cmd } && cmd.model() == m,
            None => action is Ignore,
        },
        SessionEvent::InboundPong => action is Ignore,
        SessionEvent::InboundClose => action is ExitServerClose,
        SessionEvent::InboundFailure { message } => action matches SessionAction::ExitFailure {
            message: m,
        } && m@ == message@,
        SessionEvent::StreamEnded => action matches SessionAction::ExitFailure { message: m } && m@
            == "connection closed unexpectedly"@,
    }
}

/// Decides the session's response to one event:
/// - the shutdown signal closes the channel cleanly;
/// - the heartbeat tick sends a ping;
/// - an outbound frame is sent as text;
/// - an inbound text that carries a command dispatches it, anything else
///   is ignored;
/// - a pong is ignored;
/// - a close frame exits for an immediate reconnect;
/// - a stream error or an unexpected end exits toward backoff.
pub fn session_step(event: SessionEvent) -> (action: SessionAction)
    ensures
        session_action_matches(event, action),
{
    match event {
        SessionEvent::ShutdownSignal => SessionAction::CloseGracefully,
        SessionEvent::PingDue => SessionAction::SendPing,
        SessionEvent::OutgoingFrame { frame } => SessionAction::SendText { frame },
        SessionEvent::InboundText { text } => match parse_command_text(text.as_str()) {
            Some(cmd) => SessionAction::HandleCommand { cmd },
            None => SessionAction::Ignore,
        },
        SessionEvent::InboundPong => SessionAction::Ignore,
        SessionEvent::InboundClose => SessionAction::ExitServerClose,
        SessionEvent::InboundFailure { message } => SessionAction::ExitFailure { message },
        SessionEvent::StreamEnded => SessionAction::ExitFailure {
            message: lit_str("connection closed unexpectedly"),
        },
    }
}

/// On reconnect the drained frames precede every later frame in the
/// outbound order: the outbound sequence is exactly the drained frames, in
/// their buffer order, followed by the frames produced after the drain.
pub proof fn lemma_reconnect_ordering(drained: Seq<Seq<char>>, later: Seq<Seq<char>>)
    ensures
        forall|i: int|
            0 <= i < drained.len() ==> #[trigger] (drained + later)[i] == drained[i],
        forall|j: int|
            0 <= j < later.len() ==> #[trigger] (drained + later)[drained.len() + j] == later[j],
{
}

} // verus!
