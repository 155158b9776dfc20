//! The decisions of the poll-and-forward cycle. A `Poller` is told what
//! happened (an `Event`) and answers with the next thing to do (an `Action`);
//! the caller performs the action and reports its outcome as the next event.
use vstd::prelude::*;
use vstd::string::StringExecFns;
use crate::config::{Config, Interval};
use crate::stats::{FsCounters, StatvfsDef, StatvfsWrap};

verus! {

/// Where the poller stands within a tick.
#[derive(Clone, Copy, Debug, PartialEq, Eq, Structural)]
pub enum Phase {
    /// Sleeping, or not started: waits for the tick to begin.
    Waiting,
    /// Waits for the filesystem statistics.
    Measuring,
    /// Waits for the outcome of sending the record.
    Forwarding,
    /// Waits for the outcome of printing the record.
    Printing,
}

/// What happened since the last action.
#[derive(Debug)]
pub enum Event {
    /// A tick begins: at start, and each time a sleep is over.
    Tick,
    /// The statistics were read.
    StatsRead(FsCounters),
    /// Reading the statistics failed, for the reason given.
    StatsFailed(String),
    /// The record was sent.
    Sent,
    /// Sending the record failed, for the reason given.
    SendFailed(String),
    /// The record was printed.
    Printed,
    /// Printing the record failed, for the reason given.
    PrintFailed(String),
}

/// What to do next.
#[derive(Debug)]
pub enum Action {
    /// Read the statistics of the filesystem that holds `path`.
    QueryStats { path: String },
    /// Send the record to the collector at `addr` under `tag`, once.
    Send { addr: String, tag: String, record: StatvfsWrap },
    /// Print the record as pretty JSON on standard output.
    Print { record: StatvfsWrap },
    /// Sleep for the interval.
    Sleep { interval: Interval },
    /// Write `line` to the error stream, then sleep for the interval.
    LogAndSleep { line: String, interval: Interval },
}

/// The line written to the error stream for a failed tick.
pub open spec fn error_line(reason: Seq<char>) -> Seq<char> {
    "dup run ERROR: "@ + reason
}

/// Builds the error line for a failed tick.
pub fn make_error_line(reason: &String) -> (r: String)
    ensures
        r@ == error_line(reason@),
{
    String::from_str("dup run ERROR: ").concat(reason.as_str())
}

/// The poller's state: its configuration, whether records are printed, the
/// phase, and the record of the current tick.
#[derive(Debug)]
pub struct Poller {
    pub config: Config,
    pub debug: bool,
    pub phase: Phase,
    pub pending: Option<StatvfsWrap>,
}

impl Poller {
    pub open spec fn wf(&self) -> bool {
        &&& self.config.wf()
        &&& (self.phase is Forwarding || self.phase is Printing) ==> self.pending is Some
    }

    /// The events that the poller can be told in its phase.
    pub open spec fn expects_spec(&self, e: Event) -> bool {
        match self.phase {
            Phase::Waiting => e is Tick,
            Phase::Measuring => e is StatsRead || e is StatsFailed,
            Phase::Forwarding => e is Sent || e is SendFailed,
            Phase::Printing => e is Printed || e is PrintFailed,
        }
    }

    /// Ends the tick: sleep, and wait for the next one.
    pub open spec fn ends_tick(&self, next: Poller, a: Action) -> bool {
        &&& a == Action::Sleep { interval: self.config.interval }
        &&& next.phase is Waiting
        &&& next.pending is None
    }

    /// Ends the tick on a failure: write one error line, sleep, and wait for
    /// the next one.
    pub open spec fn fails_tick(&self, reason: String, next: Poller, a: Action) -> bool {
        &&& a matches Action::LogAndSleep { line, interval } && line@ == error_line(reason@)
            && interval == self.config.interval
        &&& next.phase is Waiting
        &&& next.pending is None
    }

    /// After the record is sent, or at once when forwarding is off: print
    /// the record when printing is on, else end the tick.
    pub open spec fn reports(&self, record: StatvfsWrap, next: Poller, a: Action) -> bool {
        if self.debug {
            &&& a == Action::Print { record }
            &&& next.phase is Printing
            &&& next.pending == Some(record)
        } else {
            self.ends_tick(next, a)
        }
    }

    /// How the poller reacts to `e`: `next` is its new state, `a` the action.
    pub open spec fn reaction(&self, e: Event, next: Poller, a: Action) -> bool {
        &&& next.config == self.config
        &&& next.debug == self.debug
        &&& match e {
            Event::Tick => {
                &&& a == Action::QueryStats { path: self.config.path }
                &&& next.phase is Measuring
                &&& next.pending is None
            },
            Event::StatsRead(c) => if self.config.forwarding {
                &&& a matches Action::Send { addr, tag, record } && addr == self.config.addr
                    && tag == self.config.tag && record.statvfs.matches(c)
                    && next.pending == Some(record)
                &&& next.phase is Forwarding
            } else {
                exists|record: StatvfsWrap|
                    record.statvfs.matches(c) && #[trigger] self.reports(record, next, a)
            },
            Event::Sent => self.reports(self.pending->Some_0, next, a),
            Event::Printed => self.ends_tick(next, a),
            Event::StatsFailed(m) => self.fails_tick(m, next, a),
            Event::SendFailed(m) => self.fails_tick(m, next, a),
            Event::PrintFailed(m) => self.fails_tick(m, next, a),
        }
    }

    /// A poller that waits for its first tick.
    pub fn new(config: Config, debug: bool) -> (r: Poller)
        requires
            config.wf(),
        ensures
            r.wf(),
            r.config == config,
            r.debug == debug,
            r.phase is Waiting,
            r.pending is None,
    {
        Poller { config, debug, phase: Phase::Waiting, pending: None }
    }

    /// Whether the poller can be told `e` now.
    pub fn expects(&self, e: &Event) -> (r: bool)
        ensures
            r == self.expects_spec(*e),
    {
        match self.phase {
            Phase::Waiting => matches!(e, Event::Tick),
            Phase::Measuring => matches!(e, Event::StatsRead(_) | Event::StatsFailed(_)),
            Phase::Forwarding => matches!(e, Event::Sent | Event::SendFailed(_)),
            Phase::Printing => matches!(e, Event::Printed | Event::PrintFailed(_)),
        }
    }

    fn end_tick(&mut self) -> (r: Action)
        requires
            old(self).wf(),
        ensures
            final(self).wf(),
            final(self).config == old(self).config,
            final(self).debug == old(self).debug,
            old(self).ends_tick(*final(self), r),
    {
        self.phase = Phase::Waiting;
        self.pending = None;
        Action::Sleep { interval: self.config.interval }
    }

    fn fail_tick(&mut self, reason: String) -> (r: Action)
        requires
            old(self).wf(),
        ensures
            final(self).wf(),
            final(self).config == old(self).config,
            final(self).debug == old(self).debug,
            old(self).fails_tick(reason, *final(self), r),
    {
        self.phase = Phase::Waiting;
        self.pending = None;
        Action::LogAndSleep { line: make_error_line(&reason), interval: self.config.interval }
    }

    fn report(&mut self, record: StatvfsWrap) -> (r: Action)
        requires
            old(self).wf(),
        ensures
            final(self).wf(),
            final(self).config == old(self).config,
            final(self).debug == old(self).debug,
            old(self).reports(record, *final(self), r),
    {
        if self.debug {
            let shown = record.duplicate();
            self.phase = Phase::Printing;
            self.pending = Some(record);
            Action::Print { record: shown }
        } else {
            self.end_tick()
        }
    }

    /// Takes the next decision of the cycle.
    pub fn step(&mut self, e: Event) -> (r: Action)
        requires
            old(self).wf(),
            old(self).expects_spec(e),
        ensures
            final(self).wf(),
            old(self).reaction(e, *final(self), r),
    {
        match e {
            Event::Tick => {
                self.phase = Phase::Measuring;
                self.pending = None;
                Action::QueryStats { path: self.config.path.clone() }
            },
            Event::StatsRead(c) => {
                let record = StatvfsWrap::new(StatvfsDef::from_statvfs(&c));
                if self.config.forwarding {
                    let sent = record.duplicate();
                    self.phase = Phase::Forwarding;
                    self.pending = Some(record);
                    Action::Send {
                        addr: self.config.addr.clone(),
                        tag: self.config.tag.clone(),
                        record: sent,
                    }
                } else {
                    let ghost old_self = *self;
                    let r = self.report(record);
                    assert(old_self.reports(record, *self, r));
                    r
                }
            },
            Event::Sent => {
                let record = self.pending.take().unwrap();
                self.phase = Phase::Waiting;
                self.report(record)
            },
            Event::Printed => self.end_tick(),
            Event::StatsFailed(m) => self.fail_tick(m),
            Event::SendFailed(m) => self.fail_tick(m),
            Event::PrintFailed(m) => self.fail_tick(m),
        }
    }
}

impl Action {
    /// The sleep that the action ends with, if it ends with one.
    pub open spec fn sleeps_for(self) -> Option<Interval> {
        match self {
            Action::Sleep { interval } => Some(interval),
            Action::LogAndSleep { interval, .. } => Some(interval),
            _ => None,
        }
    }

    /// The record that the action sends or prints, if any.
    pub open spec fn record(self) -> Option<StatvfsWrap> {
        match self {
            Action::Send { record, .. } => Some(record),
            Action::Print { record } => Some(record),
            _ => None,
        }
    }
}

/// Statistics that were read become a record that holds every counter
/// exactly as read (no 64-bit counter is cut), sent when forwarding is on and
/// printed when forwarding is off and printing is on.
pub proof fn law_record_keeps_counters(p: Poller, c: FsCounters, next: Poller, a: Action)
    requires
        p.wf(),
        p.phase is Measuring,
        p.config.forwarding || p.debug,
        p.reaction(Event::StatsRead(c), next, a),
    ensures
        a.record() is Some,
        a.record()->Some_0.statvfs.matches(c),
        p.config.forwarding ==> a is Send,
        !p.config.forwarding ==> a is Print,
{
}

/// An empty filesystem (no blocks at all) does not fail the tick: with
/// forwarding on, its record is still sent.
pub proof fn law_empty_filesystem_still_sent(p: Poller, c: FsCounters, next: Poller, a: Action)
    requires
        p.wf(),
        p.phase is Measuring,
        p.config.forwarding,
        c.blocks == 0,
        p.reaction(Event::StatsRead(c), next, a),
    ensures
        a matches Action::Send { record, .. } && record.statvfs.matches(c),
        next.phase is Forwarding,
{
}

/// With forwarding off nothing is ever sent, the setting never changes, and
/// statistics that were read are still measured into a record and printed
/// when printing is on.
pub proof fn law_off_never_sends(p: Poller, e: Event, next: Poller, a: Action)
    requires
        p.wf(),
        !p.config.forwarding,
        p.expects_spec(e),
        p.reaction(e, next, a),
    ensures
        !(a is Send),
        !next.config.forwarding,
        e is StatsRead && p.debug ==> a is Print,
        e matches Event::StatsRead(c) ==> (p.debug ==> a.record()->Some_0.statvfs.matches(c)),
{
}

/// A failed read of the statistics writes exactly one error line, which
/// carries the reason, sleeps for the interval, and leaves the poller ready
/// for the next tick.
pub proof fn law_stats_failure_logged_once(p: Poller, reason: String, next: Poller, a: Action)
    requires
        p.wf(),
        p.phase is Measuring,
        p.reaction(Event::StatsFailed(reason), next, a),
    ensures
        a matches Action::LogAndSleep { line, .. } && line@ == error_line(reason@),
        a.sleeps_for() == Some(p.config.interval),
        next.wf(),
        next.expects_spec(Event::Tick),
{
}

/// A failed send writes exactly one error line, which carries the reason,
/// sleeps for the interval, and leaves the poller ready for the next tick.
pub proof fn law_send_failure_logged_once(p: Poller, reason: String, next: Poller, a: Action)
    requires
        p.wf(),
        p.phase is Forwarding,
        p.reaction(Event::SendFailed(reason), next, a),
    ensures
        a matches Action::LogAndSleep { line, .. } && line@ == error_line(reason@),
        a.sleeps_for() == Some(p.config.interval),
        next.wf(),
        next.expects_spec(Event::Tick),
{
}

/// Ticks are spaced by the interval: a tick starts (the statistics are
/// queried) only from the waiting phase, and the waiting phase is entered
/// only by an action that sleeps for the whole configured interval, which is
/// positive, whether the tick failed or not.
pub proof fn law_ticks_spaced(p: Poller, e: Event, next: Poller, a: Action)
    requires
        p.wf(),
        p.expects_spec(e),
        p.reaction(e, next, a),
    ensures
        a is QueryStats ==> p.phase is Waiting,
        next.phase is Waiting ==> a.sleeps_for() == Some(p.config.interval),
        p.config.interval.total_nanos() > 0,
{
}

/// Whether `states` and `actions` are what the poller goes through when told
/// `events` from `states[0]` on.
pub open spec fn is_run(states: Seq<Poller>, events: Seq<Event>, actions: Seq<Action>) -> bool {
    &&& states.len() == events.len() + 1
    &&& actions.len() == events.len()
    &&& forall|i: int|
        0 <= i < events.len() ==> states[i].expects_spec(events[i]) && #[trigger] states[i].reaction(
            events[i],
            states[i + 1],
            actions[i],
        )
}

proof fn lemma_run_keeps_config(states: Seq<Poller>, events: Seq<Event>, actions: Seq<Action>, n: int)
    requires
        is_run(states, events, actions),
        0 <= n <= events.len(),
    ensures
        states[n].config == states[0].config,
    decreases n,
{
    if n > 0 {
        let k = n - 1;
        lemma_run_keeps_config(states, events, actions, k);
        assert(states[k].reaction(events[k], states[k + 1], actions[k]));
    }
}

proof fn lemma_run_enters_waiting(
    states: Seq<Poller>,
    events: Seq<Event>,
    actions: Seq<Action>,
    lo: int,
    hi: int,
) -> (m: int)
    requires
        is_run(states, events, actions),
        0 <= lo < hi <= events.len(),
        !(states[lo].phase is Waiting),
        states[hi].phase is Waiting,
    ensures
        lo <= m < hi,
        actions[m].sleeps_for() == Some(states[m].config.interval),
    decreases hi - lo,
{
    assert(states[lo].reaction(events[lo], states[lo + 1], actions[lo]));
    if states[lo + 1].phase is Waiting {
        lo
    } else {
        lemma_run_enters_waiting(states, events, actions, lo + 1, hi)
    }
}

/// Over any run, between two queries of the statistics (two tick starts)
/// the poller sleeps for the configured interval, which is positive, whether
/// the tick in between failed or not.
pub proof fn law_run_sleeps_between_ticks(
    states: Seq<Poller>,
    events: Seq<Event>,
    actions: Seq<Action>,
    i: int,
    j: int,
)
    requires
        states.len() > 0 && states[0].wf(),
        is_run(states, events, actions),
        0 <= i < j < actions.len(),
        actions[i] is QueryStats,
        actions[j] is QueryStats,
    ensures
        exists|k: int| i < k < j && #[trigger] actions[k].sleeps_for() == Some(states[0].config.interval),
        states[0].config.interval.total_nanos() > 0,
{
    assert(states[i].reaction(events[i], states[i + 1], actions[i]));
    assert(states[j].reaction(events[j], states[j + 1], actions[j]));
    assert(states[j].expects_spec(events[j]));
    let m = lemma_run_enters_waiting(states, events, actions, i + 1, j);
    lemma_run_keeps_config(states, events, actions, m);
}

} // verus!
