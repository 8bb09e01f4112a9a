//! The life of the push channel.
//!
//! The channel is disconnected, connecting or connected. Every frame that
//! comes in while it is connected is passed on as a signal that something
//! changed; the frames themselves are not read. A failed attempt to connect
//! is followed by a wait that doubles from attempt to attempt; a connection
//! that ends is followed by a short wait.

use vstd::prelude::*;

verus! {

/// The wait after the first failed attempt, in seconds.
pub const MIN_BACKOFF_SECS: u64 = 5;

/// The longest wait after a failed attempt, in seconds.
pub const MAX_BACKOFF_SECS: u64 = 60;

/// The wait after a connection ended, in seconds.
pub const RECONNECT_SECS: u64 = 1;

/// The origin that the upgrade request must name.
pub fn push_origin() -> (r: &'static str)
    ensures
        r@ == "https://app.todoist.com"@,
{
    "https://app.todoist.com"
}

/// Where the channel stands.
#[derive(Debug, Clone, Copy, PartialEq, Eq, Structural)]
pub enum PushState {
    Disconnected,
    Connecting,
    Connected,
}

/// What happened to the channel.
#[derive(Debug, Clone, Copy, PartialEq, Eq, Structural)]
pub enum PushEvent {
    /// The wait is over.
    TimerExpired,
    /// The handshake succeeded.
    HandshakeOk,
    /// The handshake failed.
    HandshakeFailed,
    /// A frame came in.
    Frame,
    /// The connection ended.
    Closed,
}

/// What the channel tells the coordinator.
#[derive(Debug, Clone, Copy, PartialEq, Eq, Structural)]
pub enum PushSignal {
    Connected,
    Event,
    Disconnected,
}

/// What the channel's driver is to do next.
#[derive(Debug, Clone, Copy, PartialEq, Eq, Structural)]
pub struct PushAction {
    /// The signal to pass on to the coordinator.
    pub signal: Option<PushSignal>,
    /// Whether to try to connect now.
    pub connect: bool,
    /// The seconds to wait before the timer expires.
    pub wait_secs: Option<u64>,
}

/// The channel: its state and the wait after the next failed attempt.
#[derive(Debug, Clone, Copy, PartialEq, Eq, Structural)]
pub struct PushChannel {
    pub state: PushState,
    pub backoff_secs: u64,
}

/// Twice the wait, up to the cap.
pub open spec fn doubled(backoff_secs: u64) -> u64 {
    if backoff_secs * 2 > MAX_BACKOFF_SECS {
        MAX_BACKOFF_SECS
    } else {
        (backoff_secs * 2) as u64
    }
}

/// The action that does nothing.
pub open spec fn idle_action() -> PushAction {
    PushAction { signal: None, connect: false, wait_secs: None }
}

impl PushChannel {
    /// A channel that is disconnected and waits the shortest time.
    pub fn new() -> (c: Self)
        ensures
            c == (PushChannel { state: PushState::Disconnected, backoff_secs: MIN_BACKOFF_SECS }),
    {
        PushChannel { state: PushState::Disconnected, backoff_secs: MIN_BACKOFF_SECS }
    }

    /// The channel after the event `ev`. An event that does not belong to
    /// the state leaves the channel as it is.
    pub open spec fn after(self, ev: PushEvent) -> PushChannel {
        match (self.state, ev) {
            (PushState::Disconnected, PushEvent::TimerExpired) => PushChannel {
                state: PushState::Connecting,
                ..self
            },
            (PushState::Connecting, PushEvent::HandshakeOk) => PushChannel {
                state: PushState::Connected,
                backoff_secs: MIN_BACKOFF_SECS,
            },
            (PushState::Connecting, PushEvent::HandshakeFailed) => PushChannel {
                state: PushState::Disconnected,
                backoff_secs: doubled(self.backoff_secs),
            },
            (PushState::Connected, PushEvent::Closed) => PushChannel {
                state: PushState::Disconnected,
                ..self
            },
            _ => self,
        }
    }

    /// What is to be done about the event `ev`: connect when the wait is
    /// over; signal the connection; after a failed attempt wait the current
    /// backoff; pass a frame on as an event; after the end of a connection
    /// signal it and wait a moment.
    pub open spec fn action(self, ev: PushEvent) -> PushAction {
        match (self.state, ev) {
            (PushState::Disconnected, PushEvent::TimerExpired) => PushAction {
                signal: None,
                connect: true,
                wait_secs: None,
            },
            (PushState::Connecting, PushEvent::HandshakeOk) => PushAction {
                signal: Some(PushSignal::Connected),
                connect: false,
                wait_secs: None,
            },
            (PushState::Connecting, PushEvent::HandshakeFailed) => PushAction {
                signal: None,
                connect: false,
                wait_secs: Some(self.backoff_secs),
            },
            (PushState::Connected, PushEvent::Frame) => PushAction {
                signal: Some(PushSignal::Event),
                connect: false,
                wait_secs: None,
            },
            (PushState::Connected, PushEvent::Closed) => PushAction {
                signal: Some(PushSignal::Disconnected),
                connect: false,
                wait_secs: Some(RECONNECT_SECS),
            },
            _ => idle_action(),
        }
    }

    /// Takes the channel through the event `ev` and says what to do next.
    pub fn step(&mut self, ev: PushEvent) -> (a: PushAction)
        ensures
            *final(self) == old(self).after(ev),
            a == old(self).action(ev),
    {
        match (self.state, ev) {
            (PushState::Disconnected, PushEvent::TimerExpired) => {
                self.state = PushState::Connecting;
                PushAction { signal: None, connect: true, wait_secs: None }
            },
            (PushState::Connecting, PushEvent::HandshakeOk) => {
                self.state = PushState::Connected;
                self.backoff_secs = MIN_BACKOFF_SECS;
                PushAction { signal: Some(PushSignal::Connected), connect: false, wait_secs: None }
            },
            (PushState::Connecting, PushEvent::HandshakeFailed) => {
                let wait = self.backoff_secs;
                self.state = PushState::Disconnected;
                self.backoff_secs = if wait > MAX_BACKOFF_SECS / 2 {
                    MAX_BACKOFF_SECS
                } else {
                    wait * 2
                };
                PushAction { signal: None, connect: false, wait_secs: Some(wait) }
            },
            (PushState::Connected, PushEvent::Frame) => PushAction {
                signal: Some(PushSignal::Event),
                connect: false,
                wait_secs: None,
            },
            (PushState::Connected, PushEvent::Closed) => {
                self.state = PushState::Disconnected;
                PushAction {
                    signal: Some(PushSignal::Disconnected),
                    connect: false,
                    wait_secs: Some(RECONNECT_SECS),
                }
            },
            _ => PushAction { signal: None, connect: false, wait_secs: None },
        }
    }

    /// The wait after a failed attempt lies between the shortest and the
    /// longest wait.
    pub open spec fn in_bounds(self) -> bool {
        MIN_BACKOFF_SECS <= self.backoff_secs <= MAX_BACKOFF_SECS
    }
}

/// The wait stays between its bounds, whatever happens to the channel.
pub proof fn lemma_backoff_stays_in_bounds(c: PushChannel, ev: PushEvent)
    requires
        c.in_bounds(),
    ensures
        c.after(ev).in_bounds(),
{
}

/// A successful handshake brings the wait back to the shortest.
pub proof fn lemma_connect_resets_backoff(c: PushChannel)
    requires
        c.state == PushState::Connecting,
    ensures
        c.after(PushEvent::HandshakeOk).backoff_secs == MIN_BACKOFF_SECS,
        c.after(PushEvent::HandshakeOk).state == PushState::Connected,
{
}

} // verus!
