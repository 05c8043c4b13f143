//! Decisions for the broker's streaming connections (market data and trade
//! updates).
//!
//! Both streams run the same connection loop: connect, authenticate and
//! subscribe, read until the connection drops, then wait and reconnect with
//! an exponential backoff. The loop itself (sockets, timers, channels) lives
//! with the caller, which reports each event here and carries out the action
//! it gets back.

use vstd::prelude::*;
use vstd::arithmetic::power2::{pow2, lemma_pow2_unfold};

verus! {

/// Delay before the first reconnection attempt, and after a connection was
/// established.
pub const INITIAL_BACKOFF_SECS: u64 = 1;

/// The longest delay between reconnection attempts.
pub const MAX_BACKOFF_SECS: u64 = 30;

/// Delay before reconnecting when authentication or subscription could not
/// be sent on an open connection.
pub const SETUP_RETRY_SECS: u64 = 2;

/// What the connection loop observed.
#[derive(Debug, Clone, Copy, PartialEq, Eq, Structural)]
pub enum LinkEvent {
    /// The consumer of the stream's output has gone away.
    ReceiverClosed,
    /// The configured stream URL does not parse.
    InvalidUrl,
    /// The connection attempt failed.
    ConnectFailed,
    /// The connection is open.
    Connected,
    /// The authentication or subscription message could not be sent.
    SetupSendFailed,
    /// The server closed the connection, a read failed, or the stream ended.
    Disconnected,
    /// The server rejected the credentials.
    AuthRejected,
}

/// What the connection loop must do next.
#[derive(Debug, Clone, Copy, PartialEq, Eq, Structural)]
pub enum LinkAction {
    /// End the stream task without error.
    Stop,
    /// End the stream task with an error.
    Fail,
    /// Authenticate and subscribe on the new connection, then read.
    Subscribe,
    /// Wait this many seconds, then connect again.
    RetryAfter(u64),
}

/// The backoff after one more failed attempt: doubled, at most the maximum.
pub open spec fn next_backoff(b: u64) -> u64 {
    if 2 * b > MAX_BACKOFF_SECS {
        MAX_BACKOFF_SECS
    } else {
        (2 * b) as u64
    }
}

/// The action for `event` when the current backoff is `backoff`.
pub open spec fn link_action(backoff: u64, event: LinkEvent) -> LinkAction {
    match event {
        LinkEvent::ReceiverClosed => LinkAction::Stop,
        LinkEvent::InvalidUrl => LinkAction::Fail,
        LinkEvent::AuthRejected => LinkAction::Fail,
        LinkEvent::Connected => LinkAction::Subscribe,
        LinkEvent::SetupSendFailed => LinkAction::RetryAfter(SETUP_RETRY_SECS),
        LinkEvent::ConnectFailed => LinkAction::RetryAfter(backoff),
        LinkEvent::Disconnected => LinkAction::RetryAfter(backoff),
    }
}

/// The backoff after `event` when it was `backoff`.
pub open spec fn backoff_after_event(backoff: u64, event: LinkEvent) -> u64 {
    match event {
        LinkEvent::Connected => INITIAL_BACKOFF_SECS,
        LinkEvent::ConnectFailed => next_backoff(backoff),
        LinkEvent::Disconnected => next_backoff(backoff),
        _ => backoff,
    }
}

/// Whether `url::Url::parse` accepts the text as a URL.
pub uninterp spec fn parses_as_url(s: Seq<char>) -> bool;

/// Calls `url::Url::parse` and reports whether it succeeded; the contract
/// names the answer [`parses_as_url`].
#[verifier::external_body]
fn url_parses(s: &str) -> (ok: bool)
    ensures
        ok == parses_as_url(s@),
{
    url::Url::parse(s).is_ok()
}

/// The reconnection state of one stream.
pub struct Reconnector {
    backoff_secs: u64,
}

impl Reconnector {
    /// The delay the next failed attempt waits.
    pub closed spec fn backoff(&self) -> u64 {
        self.backoff_secs
    }

    pub closed spec fn wf(&self) -> bool {
        INITIAL_BACKOFF_SECS <= self.backoff_secs <= MAX_BACKOFF_SECS
    }

    /// A fresh stream: the first failure waits the initial backoff.
    pub fn new() -> (r: Self)
        ensures
            r.wf(),
            r.backoff() == INITIAL_BACKOFF_SECS,
            INITIAL_BACKOFF_SECS <= r.backoff() <= MAX_BACKOFF_SECS,
    {
        Reconnector { backoff_secs: INITIAL_BACKOFF_SECS }
    }

    /// A well-formed reconnector waits between one and thirty seconds.
    pub proof fn lemma_backoff_in_range(&self)
        requires
            self.wf(),
        ensures
            INITIAL_BACKOFF_SECS <= self.backoff() <= MAX_BACKOFF_SECS,
    {
    }

    /// The delay the next failed attempt waits.
    pub fn backoff_secs(&self) -> (b: u64)
        ensures
            b == self.backoff(),
    {
        self.backoff_secs
    }

    /// Checks the stream URL before a connection attempt: an address that
    /// does not parse ends the stream with an error (`Some(Fail)`); otherwise
    /// there is nothing to do yet (`None`). The backoff is unchanged.
    pub fn check_url(&self, url: &str) -> (a: Option<LinkAction>)
        ensures
            a == (if parses_as_url(url@) {
                None
            } else {
                Some(link_action(self.backoff(), LinkEvent::InvalidUrl))
            }),
    {
        if url_parses(url) {
            None
        } else {
            Some(LinkAction::Fail)
        }
    }

    /// Reports `event` and returns what to do next.
    pub fn on_event(&mut self, event: LinkEvent) -> (a: LinkAction)
        requires
            old(self).wf(),
        ensures
            final(self).wf(),
            INITIAL_BACKOFF_SECS <= final(self).backoff() <= MAX_BACKOFF_SECS,
            a == link_action(old(self).backoff(), event),
            final(self).backoff() == backoff_after_event(old(self).backoff(), event),
    {
        match event {
            LinkEvent::ReceiverClosed => LinkAction::Stop,
            LinkEvent::InvalidUrl | LinkEvent::AuthRejected => LinkAction::Fail,
            LinkEvent::Connected => {
                self.backoff_secs = INITIAL_BACKOFF_SECS;
                LinkAction::Subscribe
            },
            LinkEvent::SetupSendFailed => LinkAction::RetryAfter(SETUP_RETRY_SECS),
            LinkEvent::ConnectFailed | LinkEvent::Disconnected => {
                let wait = self.backoff_secs;
                self.backoff_secs = if self.backoff_secs > MAX_BACKOFF_SECS / 2 {
                    MAX_BACKOFF_SECS
                } else {
                    self.backoff_secs * 2
                };
                LinkAction::RetryAfter(wait)
            },
        }
    }
}

/// The backoff after `k` consecutive failed attempts on a fresh or freshly
/// connected stream.
pub open spec fn backoff_after_failures(k: nat) -> u64
    decreases k,
{
    if k == 0 {
        INITIAL_BACKOFF_SECS
    } else {
        next_backoff(backoff_after_failures((k - 1) as nat))
    }
}

/// The reconnection delays double from one second and stay at thirty: after
/// `k` consecutive failures the next delay is `min(2^k, 30)` seconds.
pub proof fn lemma_backoff_schedule(k: nat)
    ensures
        backoff_after_failures(k) == (if pow2(k) < 30 {
            pow2(k)
        } else {
            30
        }),
    decreases k,
{
    if k == 0 {
        assert(pow2(0) == 1) by {
            vstd::arithmetic::power2::lemma2_to64();
        }
    } else {
        lemma_backoff_schedule((k - 1) as nat);
        lemma_pow2_unfold(k);
    }
}

/// Every delay the loop is told to wait is between one and thirty seconds,
/// and a connection resets the backoff.
pub proof fn lemma_delays_bounded(backoff: u64, event: LinkEvent)
    requires
        INITIAL_BACKOFF_SECS <= backoff <= MAX_BACKOFF_SECS,
    ensures
        link_action(backoff, event) matches LinkAction::RetryAfter(d) ==> 1 <= d <= 30,
        INITIAL_BACKOFF_SECS <= backoff_after_event(backoff, event) <= MAX_BACKOFF_SECS,
        event == LinkEvent::Connected ==> backoff_after_event(backoff, event) == 1,
{
}

/// What to do with one frame read from an open connection.
#[derive(Debug, Clone, Copy, PartialEq, Eq, Structural)]
pub enum FrameKind {
    /// A text message.
    Text,
    /// A ping from the server.
    Ping,
    /// The server closed the connection.
    Close,
    /// Any other frame.
    Other,
    /// Reading failed.
    ReadError,
    /// The stream has no more frames.
    End,
}

/// The reaction to a frame.
#[derive(Debug, Clone, Copy, PartialEq, Eq, Structural)]
pub enum FrameAction {
    /// Parse and handle the text.
    Process,
    /// Answer with a pong carrying the same payload.
    Pong,
    /// Leave the read loop; the connection is over.
    Reconnect,
    /// Nothing to do.
    Ignore,
}

/// The reaction to a frame of kind `kind`.
pub open spec fn frame_action_spec(kind: FrameKind) -> FrameAction {
    match kind {
        FrameKind::Text => FrameAction::Process,
        FrameKind::Ping => FrameAction::Pong,
        FrameKind::Close | FrameKind::ReadError | FrameKind::End => FrameAction::Reconnect,
        FrameKind::Other => FrameAction::Ignore,
    }
}

/// The reaction to a frame of kind `kind`.
pub fn frame_action(kind: FrameKind) -> (a: FrameAction)
    ensures
        a == frame_action_spec(kind),
{
    match kind {
        FrameKind::Text => FrameAction::Process,
        FrameKind::Ping => FrameAction::Pong,
        FrameKind::Close | FrameKind::ReadError | FrameKind::End => FrameAction::Reconnect,
        FrameKind::Other => FrameAction::Ignore,
    }
}

/// A message on the market-data stream.
#[derive(Debug, Clone, Copy, PartialEq, Eq, Structural)]
pub enum DataNotice {
    /// Authentication or subscription succeeded.
    Success,
    /// The server reports an error with this code.
    Error { code: u32 },
    /// The subscription was confirmed.
    Subscription,
    /// A bar.
    Bar,
    /// A message of a type the bot does not know.
    Unknown,
}

/// The reaction to a market-data message.
#[derive(Debug, Clone, Copy, PartialEq, Eq, Structural)]
pub enum NoticeAction {
    /// Record it and go on.
    Log,
    /// The credentials were rejected: end the stream with an error.
    Abort,
    /// Convert the bar and forward it to the consumer.
    ForwardBar,
    /// Warn about an unexpected message and go on.
    Warn,
}

/// The reaction to a market-data message: error codes 401 and 402 (not
/// authenticated, authentication failed) abort the stream.
pub open spec fn notice_action_spec(notice: DataNotice) -> NoticeAction {
    match notice {
        DataNotice::Success | DataNotice::Subscription => NoticeAction::Log,
        DataNotice::Error { code } => if code == 401 || code == 402 {
            NoticeAction::Abort
        } else {
            NoticeAction::Log
        },
        DataNotice::Bar => NoticeAction::ForwardBar,
        DataNotice::Unknown => NoticeAction::Warn,
    }
}

/// The reaction to a market-data message.
pub fn notice_action(notice: DataNotice) -> (a: NoticeAction)
    ensures
        a == notice_action_spec(notice),
{
    match notice {
        DataNotice::Success | DataNotice::Subscription => NoticeAction::Log,
        DataNotice::Error { code } => if code == 401 || code == 402 {
            NoticeAction::Abort
        } else {
            NoticeAction::Log
        },
        DataNotice::Bar => NoticeAction::ForwardBar,
        DataNotice::Unknown => NoticeAction::Warn,
    }
}

} // verus!
