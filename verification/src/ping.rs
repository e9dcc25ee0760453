//! Configuring a ping operation, and the decisions of the loop that runs
//! one: when to poll, when to read, how long to wait before the next
//! request, and when to stop.

use vstd::prelude::*;

verus! {

pub const DEFAULT_NUM_PINGS: u64 = 5;

pub const DEFAULT_INTERVAL_SECS: u64 = 1;

pub const DEFAULT_TIMEOUT_SECS: u64 = 10;

pub const NANOS_PER_SEC: u64 = 1_000_000_000;

/// The settings of a ping operation, as plain values.
pub struct PingView {
    pub host: Seq<char>,
    pub num_pings: u64,
    pub interval_secs: u64,
    pub timeout_secs: u64,
    pub debug: bool,
}

/// Why a ping operation cannot be set up.
#[derive(Clone, Copy, Debug, PartialEq, Eq, Structural)]
pub enum ConfigError {
    /// The interval between echo requests is zero.
    ZeroInterval,
}

/// Used for configuring a Ping operation.
pub struct PingBuilder<'a> {
    host: &'a str,
    num_pings: u64,
    interval_secs: u64,
    timeout_secs: u64,
    debug: bool,
}

impl<'a> View for PingBuilder<'a> {
    type V = PingView;

    closed spec fn view(&self) -> PingView {
        PingView {
            host: self.host@,
            num_pings: self.num_pings,
            interval_secs: self.interval_secs,
            timeout_secs: self.timeout_secs,
            debug: self.debug,
        }
    }
}

impl<'a> PingBuilder<'a> {
    /// Returns a new PingBuilder for configuring a Ping operation: five
    /// requests to 127.0.0.1, one second apart, given up after ten seconds,
    /// with nothing printed.
    pub fn new() -> (builder: PingBuilder<'a>)
        ensures
            builder@ == (PingView {
                host: "127.0.0.1"@,
                num_pings: DEFAULT_NUM_PINGS,
                interval_secs: DEFAULT_INTERVAL_SECS,
                timeout_secs: DEFAULT_TIMEOUT_SECS,
                debug: false,
            }),
    {
        PingBuilder {
            host: "127.0.0.1",
            num_pings: DEFAULT_NUM_PINGS,
            interval_secs: DEFAULT_INTERVAL_SECS,
            timeout_secs: DEFAULT_TIMEOUT_SECS,
            debug: false,
        }
    }

    /// Sets the host that will be pinged.
    pub fn host(self, host: &'a str) -> (builder: PingBuilder<'a>)
        ensures
            builder@ == (PingView { host: host@, ..self@ }),
    {
        PingBuilder { host: host, ..self }
    }

    /// Sets the number of echo requests to be issued.
    pub fn num_pings(self, num_pings: u64) -> (builder: PingBuilder<'a>)
        ensures
            builder@ == (PingView { num_pings, ..self@ }),
    {
        PingBuilder { num_pings: num_pings, ..self }
    }

    /// Sets the interval in seconds between echo requests.
    pub fn interval_secs(self, interval_secs: u64) -> (builder: PingBuilder<'a>)
        ensures
            builder@ == (PingView { interval_secs, ..self@ }),
    {
        PingBuilder { interval_secs: interval_secs, ..self }
    }

    /// Sets the time in seconds before the ping operation times out.
    pub fn timeout_secs(self, timeout_secs: u64) -> (builder: PingBuilder<'a>)
        ensures
            builder@ == (PingView { timeout_secs, ..self@ }),
    {
        PingBuilder { timeout_secs: timeout_secs, ..self }
    }

    /// Prints debug information to standard out if set to `true`.
    pub fn debug(self, debug: bool) -> (builder: PingBuilder<'a>)
        ensures
            builder@ == (PingView { debug, ..self@ }),
    {
        PingBuilder { debug: debug, ..self }
    }

    /// Returns a new Ping object, unless the settings make no sense: an
    /// interval of zero seconds between echo requests is refused.
    pub fn try_build(self) -> (built: Result<Ping<'a>, ConfigError>)
        ensures
            self@.interval_secs == 0 ==> built == Err::<Ping<'a>, ConfigError>(
                ConfigError::ZeroInterval,
            ),
            self@.interval_secs != 0 ==> built is Ok && built->Ok_0@ == self@,
    {
        if self.interval_secs == 0 {
            Err(ConfigError::ZeroInterval)
        } else {
            Ok(self.build())
        }
    }

    /// Returns a new Ping object.
    pub fn build(self) -> (ping: Ping<'a>)
        ensures
            ping@ == self@,
    {
        Ping {
            host: self.host,
            num_pings: self.num_pings,
            interval_secs: self.interval_secs,
            timeout_secs: self.timeout_secs,
            debug: self.debug,
        }
    }
}

/// Used for pinging a host.
pub struct Ping<'a> {
    host: &'a str,
    num_pings: u64,
    interval_secs: u64,
    timeout_secs: u64,
    debug: bool,
}

impl<'a> View for Ping<'a> {
    type V = PingView;

    closed spec fn view(&self) -> PingView {
        PingView {
            host: self.host@,
            num_pings: self.num_pings,
            interval_secs: self.interval_secs,
            timeout_secs: self.timeout_secs,
            debug: self.debug,
        }
    }
}

/// Where a running ping operation stands, as plain values. Times are
/// readings of one monotonic clock, in nanoseconds.
pub struct PingRunView {
    /// When the operation began.
    pub started: u64,
    /// When the last request went out; before the first, when the
    /// operation began.
    pub last_ping_sent: u64,
    /// The number of requests that have gone out.
    pub i: u64,
}

/// Where a running ping operation stands.
#[derive(Clone, Copy, Debug)]
pub struct PingRun {
    started: u64,
    last_ping_sent: u64,
    i: u64,
}

impl View for PingRun {
    type V = PingRunView;

    closed spec fn view(&self) -> PingRunView {
        PingRunView { started: self.started, last_ping_sent: self.last_ping_sent, i: self.i }
    }
}

/// What the loop has just done.
#[derive(Clone, Copy, Debug)]
pub enum PingEvent {
    /// Nothing yet, or a request has just been sent.
    Idle,
    /// The socket was polled; `Some(true)` says that it has data to read.
    Polled(Option<bool>),
    /// One datagram was read and looked at.
    Received,
}

/// What the loop is to do next.
#[derive(Clone, Copy, Debug, PartialEq, Eq, Structural)]
pub enum PingAction {
    /// End the operation.
    Stop,
    /// Poll the socket for data.
    Poll,
    /// Read one datagram and look for a reply in it.
    Receive,
    /// Sleep for so many nanoseconds, then send the next request.
    SleepThenSend(u64),
}

impl PingView {
    /// Whether the operation has run past its timeout at `now`.
    pub open spec fn expired(self, run: PingRunView, now: u64) -> bool {
        now > run.started + self.timeout_secs * NANOS_PER_SEC
    }

    /// Whether all the requests asked for have gone out.
    pub open spec fn done(self, run: PingRunView) -> bool {
        run.i >= self.num_pings
    }

    /// How long to wait at `now` before the next request is due. The first
    /// request is due at once, each later one an interval after the one
    /// before it. Nothing, where it is due already; never more than fits
    /// the result.
    pub open spec fn pause(self, run: PingRunView, now: u64) -> u64 {
        let due = run.last_ping_sent + self.interval_secs * NANOS_PER_SEC;
        if run.i == 0 || due <= now {
            0
        } else if due - now > u64::MAX {
            u64::MAX
        } else {
            (due - now) as u64
        }
    }

    /// What to do when no data is at hand. The operation stops on a
    /// timeout, and at once where no request is asked for; it sends the
    /// next request where one remains and is due; else it polls.
    pub open spec fn when_quiet(self, run: PingRunView, now: u64) -> PingAction {
        if self.expired(run, now) || self.num_pings == 0 {
            PingAction::Stop
        } else if !self.done(run) && self.pause(run, now) == 0 {
            PingAction::SleepThenSend(0)
        } else {
            PingAction::Poll
        }
    }

    /// What to do when a datagram has been read. The operation stops where
    /// every request has gone out; else it sleeps until the next is due and
    /// sends it.
    pub open spec fn when_received(self, run: PingRunView, now: u64) -> PingAction {
        if self.done(run) {
            PingAction::Stop
        } else {
            PingAction::SleepThenSend(self.pause(run, now))
        }
    }

    /// What the loop does next, after `event` and at time `now`.
    pub open spec fn next_action(self, run: PingRunView, event: PingEvent, now: u64) -> PingAction {
        match event {
            PingEvent::Polled(Some(true)) => PingAction::Receive,
            PingEvent::Idle | PingEvent::Polled(_) => self.when_quiet(run, now),
            PingEvent::Received => self.when_received(run, now),
        }
    }
}

/// A number of seconds in nanoseconds.
fn nanos(secs: u64) -> (n: u128)
    ensures
        n == secs * NANOS_PER_SEC,
{
    secs as u128 * 1_000_000_000
}

impl PingRun {
    /// Notes that a request went out at `now`.
    pub fn sent(&mut self, now: u64)
        requires
            old(self)@.i < u64::MAX,
        ensures
            final(self)@ == (PingRunView {
                started: old(self)@.started,
                last_ping_sent: now,
                i: (old(self)@.i + 1) as u64,
            }),
    {
        self.last_ping_sent = now;
        self.i = self.i + 1;
    }

    /// Returns the number of requests that have gone out.
    pub fn count(&self) -> (i: u64)
        ensures
            i == self@.i,
    {
        self.i
    }
}

impl<'a> Ping<'a> {
    /// Returns the host that will be pinged.
    pub fn host(&self) -> (host: &'a str)
        ensures
            host@ == self@.host,
    {
        self.host
    }

    /// Returns the number of echo requests to be issued.
    pub fn num_pings(&self) -> (num_pings: u64)
        ensures
            num_pings == self@.num_pings,
    {
        self.num_pings
    }

    /// Returns the interval in seconds between echo requests.
    pub fn interval_secs(&self) -> (interval_secs: u64)
        ensures
            interval_secs == self@.interval_secs,
    {
        self.interval_secs
    }

    /// Returns the time in seconds before the ping operation times out.
    pub fn timeout_secs(&self) -> (timeout_secs: u64)
        ensures
            timeout_secs == self@.timeout_secs,
    {
        self.timeout_secs
    }

    /// Tells whether debug information is to be printed.
    pub fn debug(&self) -> (debug: bool)
        ensures
            debug == self@.debug,
    {
        self.debug
    }

    /// Begins an operation at `now`. No request has gone out yet: the
    /// first is ordered by `next_action`, like every other.
    pub fn begin(&self, now: u64) -> (run: PingRun)
        ensures
            run@ == (PingRunView { started: now, last_ping_sent: now, i: 0 }),
    {
        PingRun { started: now, last_ping_sent: now, i: 0 }
    }

    /// Tells whether the operation has run past its timeout at `now`.
    pub fn expired(&self, run: &PingRun, now: u64) -> (expired: bool)
        ensures
            expired == self@.expired(run@, now),
    {
        let limit: u128 = run.started as u128 + nanos(self.timeout_secs);
        now as u128 > limit
    }

    /// Returns how long to wait at `now` before the next request is due.
    pub fn pause(&self, run: &PingRun, now: u64) -> (wait: u64)
        ensures
            wait == self@.pause(run@, now),
    {
        let due: u128 = run.last_ping_sent as u128 + nanos(self.interval_secs);
        if run.i == 0 || due <= now as u128 {
            0
        } else if due - now as u128 > u64::MAX as u128 {
            u64::MAX
        } else {
            (due - now as u128) as u64
        }
    }

    /// Decides what the loop does next, after `event` and at time `now`.
    ///
    /// After a poll that found data, one datagram is read. Once it has been
    /// read, the operation stops if every request has gone out; otherwise
    /// it sleeps until the next request is due and sends it. At any other
    /// time (at the start, after a request, after a poll that found
    /// nothing) the operation stops if it has run past its timeout or no
    /// request is asked for, sends the next request if one remains and is
    /// due, and polls otherwise. The caller reports each request that went
    /// out with `PingRun::sent`.
    pub fn next_action(&self, run: &PingRun, event: PingEvent, now: u64) -> (action: PingAction)
        ensures
            action == self@.next_action(run@, event, now),
    {
        match event {
            PingEvent::Polled(Some(true)) => PingAction::Receive,
            PingEvent::Idle | PingEvent::Polled(_) => {
                // check for timeout
                if self.expired(run, now) || self.num_pings == 0 {
                    PingAction::Stop
                } else if run.i < self.num_pings && self.pause(run, now) == 0 {
                    PingAction::SleepThenSend(0)
                } else {
                    PingAction::Poll
                }
            },
            PingEvent::Received => {
                // exit after we've made enough
                if run.i >= self.num_pings {
                    PingAction::Stop
                } else {
                    PingAction::SleepThenSend(self.pause(run, now))
                }
            },
        }
    }
}

/// No request is ordered beyond the count: a send is ordered only while
/// fewer requests than asked for have gone out, so the count of requests
/// that have gone out never passes the number asked for. Where the
/// operation stops after a datagram was read, exactly as many requests as
/// asked for have gone out.
pub proof fn lemma_requests_stay_within_count(
    ping: PingView,
    run: PingRunView,
    event: PingEvent,
    now: u64,
)
    requires
        run.i <= ping.num_pings,
    ensures
        ping.next_action(run, event, now) is SleepThenSend ==> run.i < ping.num_pings,
        event is Received && ping.next_action(run, event, now) is Stop ==> run.i
            == ping.num_pings,
        ping.num_pings == 0 ==> !(ping.next_action(run, event, now) is SleepThenSend),
{
}

/// The first request is ordered at once: at the start of an operation that
/// asks for a request and has not timed out, the next action is to send,
/// without sleeping.
pub proof fn lemma_first_request_is_sent_at_once(ping: PingView, started: u64, now: u64)
    requires
        ping.num_pings > 0,
        now <= started + ping.timeout_secs * NANOS_PER_SEC,
    ensures
        ping.next_action(
            PingRunView { started, last_ping_sent: started, i: 0 },
            PingEvent::Idle,
            now,
        ) == PingAction::SleepThenSend(0),
{
}

/// Requests are paced by time, not by replies: after a poll that found
/// nothing, the next request is sent as soon as it is due, as long as one
/// remains and the operation has not timed out.
pub proof fn lemma_quiet_poll_sends_when_due(
    ping: PingView,
    run: PingRunView,
    ready: Option<bool>,
    now: u64,
)
    requires
        ready != Some(true),
        run.i < ping.num_pings,
        !ping.expired(run, now),
        run.i == 0 || run.last_ping_sent + ping.interval_secs * NANOS_PER_SEC <= now,
    ensures
        ping.next_action(run, PingEvent::Polled(ready), now) == PingAction::SleepThenSend(0),
{
}

} // verus!
