use vstd::prelude::*;

use crate::backoff::{delay_after_failures, lemma_backoff_sequence, min_nat, pow2, Backoff, MAX_DELAY_SECS};
use crate::lighter::{handle_lighter_message, lighter_readings, subscribe_message, subscribe_text, MarketStat};
use crate::listing::{is_deduplicated, MarketListing};
use crate::market_index::MarketIdIndex;
use crate::reading::AssetReading;

verus! {

/// Where the Lighter connection stands.
#[derive(Clone, Copy, Debug, PartialEq, Eq, Structural)]
pub enum SessionPhase {
    /// Created, not started yet.
    Idle,
    /// Opening the stream transport.
    Connecting,
    /// Connected; the subscribe message is being sent.
    Subscribing,
    /// Subscribed; frames, keepalive ticks and read timeouts arrive.
    Streaming,
    /// Sleeping out a reconnect delay.
    Reconnecting,
    /// Cancelled: the session emits nothing more.
    Stopped,
}

/// What happened, as reported by the driver of the session.
#[derive(Debug)]
pub enum SessionEvent {
    /// The adapter task begins.
    Started,
    /// The stream transport opened.
    Connected,
    /// Opening the stream transport failed.
    ConnectFailed,
    /// The subscribe message went out.
    SubscribeSent,
    /// Sending the subscribe message failed.
    SubscribeFailed,
    /// The reconnect delay has passed.
    SleepElapsed,
    /// A text frame that reads as a market-statistics batch.
    Stats(Vec<MarketStat>),
    /// A text frame that does not read as a statistics batch.
    Unparsed,
    /// A binary frame.
    Binary,
    /// A ping frame from the remote, with its payload.
    Ping(Vec<u8>),
    /// A pong frame from the remote.
    Pong,
    /// A close frame from the remote.
    Close,
    /// The transport reported an error while reading.
    ReadError,
    /// The stream ended.
    StreamEnded,
    /// No frame arrived within the 60 s read timeout.
    ReadTimeout,
    /// The 30 s keepalive timer fired.
    PingDue,
    /// Sending a keepalive ping failed.
    PingFailed,
    /// Sending a pong failed.
    PongFailed,
    /// The orchestrator asked the adapter to stop.
    Cancelled,
}

/// What the driver is to do next.
#[derive(Debug)]
pub enum SessionAction {
    /// Open the stream transport.
    Connect,
    /// Send this text frame (the subscribe message).
    SendText(String),
    /// Answer a ping with a pong carrying this payload.
    SendPong(Vec<u8>),
    /// Send a keepalive ping with an empty payload.
    SendPing,
    /// Sleep this many seconds, then report `SleepElapsed`.
    Sleep(u64),
    /// Push these readings onto the outbound feed, in order.
    Emit(Vec<AssetReading>),
    /// Nothing to do: wait for the next event.
    Listen,
    /// End the adapter task.
    Stop,
}

/// Read timeout of the streaming phase, in seconds.
pub const READ_TIMEOUT_SECS: u64 = 60;

/// Period of the keepalive ping, in seconds.
pub const PING_INTERVAL_SECS: u64 = 30;

/// Whether `event` in `phase` is a failure that forces a reconnect.
pub open spec fn is_failure(phase: SessionPhase, event: SessionEvent) -> bool {
    match phase {
        SessionPhase::Connecting => event is ConnectFailed,
        SessionPhase::Subscribing => event is SubscribeFailed,
        SessionPhase::Streaming => {
            ||| event is Close
            ||| event is ReadError
            ||| event is StreamEnded
            ||| event is ReadTimeout
            ||| event is PingFailed
            ||| event is PongFailed
        },
        _ => false,
    }
}

/// The phase that follows `phase` on `event`.
pub open spec fn next_phase(phase: SessionPhase, event: SessionEvent) -> SessionPhase {
    if phase == SessionPhase::Stopped || event is Cancelled {
        SessionPhase::Stopped
    } else if is_failure(phase, event) {
        SessionPhase::Reconnecting
    } else {
        match phase {
            SessionPhase::Idle => if event is Started {
                SessionPhase::Connecting
            } else {
                phase
            },
            SessionPhase::Connecting => if event is Connected {
                SessionPhase::Subscribing
            } else {
                phase
            },
            SessionPhase::Subscribing => if event is SubscribeSent {
                SessionPhase::Streaming
            } else {
                phase
            },
            SessionPhase::Reconnecting => if event is SleepElapsed {
                SessionPhase::Connecting
            } else {
                phase
            },
            _ => phase,
        }
    }
}

/// The connection session of the Lighter adapter: connect, subscribe, stream
/// under a read timeout and a keepalive ping, and reconnect with backoff on
/// any failure, until cancelled.
pub struct LighterSession {
    phase: SessionPhase,
    backoff: Backoff,
    index: MarketIdIndex,
}

impl LighterSession {
    pub closed spec fn spec_phase(self) -> SessionPhase {
        self.phase
    }

    /// Consecutive failures since the last successful connection.
    pub closed spec fn spec_failures(self) -> nat {
        self.backoff.spec_failures()
    }

    /// The market-id index of the session, built once from the listing.
    pub closed spec fn spec_index(self) -> MarketIdIndex {
        self.index
    }

    pub closed spec fn wf(self) -> bool {
        self.backoff.wf()
    }

    /// A new session over the market listing, which it sorts and deduplicates
    /// into its market-id index.
    pub fn new(listing: &Vec<MarketListing>) -> (r: LighterSession)
        ensures
            r.wf(),
            r.spec_phase() == SessionPhase::Idle,
            r.spec_failures() == 0,
            is_deduplicated(listing@, r.spec_index().spec_entries()),
    {
        LighterSession {
            phase: SessionPhase::Idle,
            backoff: Backoff::new(),
            index: MarketIdIndex::from_listing(listing),
        }
    }

    pub fn phase(&self) -> (r: SessionPhase)
        ensures
            r == self.spec_phase(),
    {
        self.phase
    }

    /// The delay, in seconds, that the next failure will sleep.
    pub fn reconnect_delay_secs(&self) -> (r: u64)
        requires
            self.wf(),
        ensures
            r == delay_after_failures(self.spec_failures()),
    {
        self.backoff.delay_secs()
    }

    fn fail(&mut self) -> (r: SessionAction)
        requires
            old(self).wf(),
        ensures
            final(self).wf(),
            final(self).index == old(self).index,
            final(self).spec_failures() == old(self).spec_failures() + 1,
            final(self).phase == SessionPhase::Reconnecting,
            r == SessionAction::Sleep(delay_after_failures(old(self).spec_failures()) as u64),
    {
        let d = self.backoff.on_failure();
        self.phase = SessionPhase::Reconnecting;
        SessionAction::Sleep(d)
    }

    /// Takes one event and returns the one action that answers it.
    ///
    /// - Cancellation, or any event once stopped, gives `Stop`.
    /// - A failure (connect, subscribe send, read error, close, end of stream,
    ///   read timeout, ping or pong send) gives `Sleep(d)` with
    ///   `d = min(2^n, 60)` seconds after `n` earlier consecutive failures.
    /// - A successful connection resets the backoff and sends the subscribe
    ///   message.
    /// - While streaming, a ping frame is answered by one pong with its
    ///   payload, a statistics batch gives its readings, and the keepalive
    ///   timer gives a ping.
    pub fn step(&mut self, event: SessionEvent) -> (r: SessionAction)
        requires
            old(self).wf(),
        ensures
            final(self).wf(),
            final(self).spec_index() == old(self).spec_index(),
            final(self).spec_phase() == next_phase(old(self).spec_phase(), event),
            (old(self).spec_phase() == SessionPhase::Stopped || event is Cancelled) ==> r is Stop,
            old(self).spec_phase() != SessionPhase::Stopped && !(event is Cancelled) ==> {
                if is_failure(old(self).spec_phase(), event) {
                    &&& final(self).spec_failures() == old(self).spec_failures() + 1
                    &&& r == SessionAction::Sleep(delay_after_failures(old(self).spec_failures()) as u64)
                    &&& delay_after_failures(old(self).spec_failures()) == min_nat(
                        pow2(old(self).spec_failures()),
                        MAX_DELAY_SECS as nat,
                    )
                } else if old(self).spec_phase() == SessionPhase::Connecting && event is Connected {
                    &&& final(self).spec_failures() == 0
                    &&& r is SendText
                    &&& r->SendText_0@ == subscribe_text()
                } else {
                    &&& final(self).spec_failures() == old(self).spec_failures()
                    &&& match (old(self).spec_phase(), event) {
                        (SessionPhase::Idle, SessionEvent::Started) => r is Connect,
                        (SessionPhase::Reconnecting, SessionEvent::SleepElapsed) => r is Connect,
                        (SessionPhase::Streaming, SessionEvent::Ping(payload)) => r == SessionAction::SendPong(payload),
                        (SessionPhase::Streaming, SessionEvent::PingDue) => r is SendPing,
                        (SessionPhase::Streaming, SessionEvent::Stats(stats)) => {
                            &&& r is Emit
                            &&& lighter_readings(old(self).spec_index().spec_entries(), stats@, r->Emit_0@)
                        },
                        _ => r is Listen,
                    }
                }
            },
    {
        proof {
            lemma_backoff_sequence(self.backoff.spec_failures());
        }
        if self.phase == SessionPhase::Stopped {
            return SessionAction::Stop;
        }
        match event {
            SessionEvent::Cancelled => {
                self.phase = SessionPhase::Stopped;
                SessionAction::Stop
            },
            SessionEvent::Started => {
                if self.phase == SessionPhase::Idle {
                    self.phase = SessionPhase::Connecting;
                    SessionAction::Connect
                } else {
                    SessionAction::Listen
                }
            },
            SessionEvent::Connected => {
                if self.phase == SessionPhase::Connecting {
                    self.backoff.on_success();
                    self.phase = SessionPhase::Subscribing;
                    SessionAction::SendText(subscribe_message())
                } else {
                    SessionAction::Listen
                }
            },
            SessionEvent::ConnectFailed => {
                if self.phase == SessionPhase::Connecting {
                    self.fail()
                } else {
                    SessionAction::Listen
                }
            },
            SessionEvent::SubscribeSent => {
                if self.phase == SessionPhase::Subscribing {
                    self.phase = SessionPhase::Streaming;
                }
                SessionAction::Listen
            },
            SessionEvent::SubscribeFailed => {
                if self.phase == SessionPhase::Subscribing {
                    self.fail()
                } else {
                    SessionAction::Listen
                }
            },
            SessionEvent::SleepElapsed => {
                if self.phase == SessionPhase::Reconnecting {
                    self.phase = SessionPhase::Connecting;
                    SessionAction::Connect
                } else {
                    SessionAction::Listen
                }
            },
            SessionEvent::Stats(stats) => {
                if self.phase == SessionPhase::Streaming {
                    SessionAction::Emit(handle_lighter_message(&self.index, &stats))
                } else {
                    SessionAction::Listen
                }
            },
            SessionEvent::Ping(payload) => {
                if self.phase == SessionPhase::Streaming {
                    SessionAction::SendPong(payload)
                } else {
                    SessionAction::Listen
                }
            },
            SessionEvent::PingDue => {
                if self.phase == SessionPhase::Streaming {
                    SessionAction::SendPing
                } else {
                    SessionAction::Listen
                }
            },
            SessionEvent::Close | SessionEvent::ReadError | SessionEvent::StreamEnded
            | SessionEvent::ReadTimeout | SessionEvent::PingFailed | SessionEvent::PongFailed => {
                if self.phase == SessionPhase::Streaming {
                    self.fail()
                } else {
                    SessionAction::Listen
                }
            },
            SessionEvent::Unparsed | SessionEvent::Binary | SessionEvent::Pong => SessionAction::Listen,
        }
    }
}

} // verus!
