//! Startup configuration: collector address, tag, path, interval and the
//! switch that turns forwarding off.
use vstd::prelude::*;
use vstd::string::StringExecFns;

verus! {

/// Outside error type of humantime's duration parser.
#[verifier::external_type_specification]
#[verifier::external_body]
pub struct ExDurationError(humantime::DurationError);

/// What humantime's parser makes of a text: whole seconds and the
/// nanoseconds below one second, or nothing when the text is rejected.
pub uninterp spec fn humantime_parse(s: Seq<char>) -> Option<(u64, u32)>;

/// Relies on humantime::parse_duration: it depends on the text alone, and a
/// parsed std::time::Duration has fewer than 1_000_000_000 subsecond nanoseconds.
///
/// The parser panics only where std::time::Duration::new carries a whole
/// second of nanoseconds into a total of u64::MAX seconds; every other
/// overflow is an error. With at most 10 digits in the text (whitespace may
/// join digit runs into one number, so all digits count) there are at most 10
/// terms, their integer parts sum below 10^10, and the largest unit (a year,
/// 31_557_600 s) keeps the integer parts below 3.2 * 10^17 seconds; each
/// fractional part adds under 31_557_600 s and each sub-second term under
/// 10^7 s. The total stays far below u64::MAX, so the call returns.
#[verifier::external_body]
fn parse_duration(s: &str) -> (r: Result<(u64, u32), humantime::DurationError>)
    requires
        digit_count(s@) <= MAX_INTERVAL_DIGITS,
    ensures
        r is Ok <==> humantime_parse(s@) is Some,
        r is Ok ==> r->Ok_0 == humantime_parse(s@)->Some_0,
        r is Ok ==> r->Ok_0.1 < 1_000_000_000,
{
    humantime::parse_duration(s).map(|d| (d.as_secs(), d.subsec_nanos()))
}

/// The most digits that an interval text may hold.
pub const MAX_INTERVAL_DIGITS: usize = 10;

/// Whether `c` is an ASCII decimal digit.
pub open spec fn is_digit(c: char) -> bool {
    '0' <= c && c <= '9'
}

/// The number of ASCII decimal digits in `s`.
pub open spec fn digit_count(s: Seq<char>) -> nat
    decreases s.len(),
{
    if s.len() == 0 {
        0
    } else {
        digit_count(s.drop_last()) + if is_digit(s.last()) {
            1nat
        } else {
            0nat
        }
    }
}

/// Counts the ASCII decimal digits of `text`.
pub fn count_digits(text: &str) -> (r: usize)
    ensures
        r == digit_count(text@),
{
    let n = text.unicode_len();
    let mut count: usize = 0;
    let mut i: usize = 0;
    while i < n
        invariant
            n == text@.len(),
            i <= n,
            count <= i,
            count == digit_count(text@.subrange(0, i as int)),
        decreases n - i,
    {
        let c = text.get_char(i);
        assert(text@.subrange(0, i + 1).drop_last() =~= text@.subrange(0, i as int));
        if '0' <= c && c <= '9' {
            count = count + 1;
        }
        i = i + 1;
    }
    assert(text@.subrange(0, n as int) =~= text@);
    count
}

/// Address of the collector when none is given.
pub open spec fn default_addr() -> Seq<char> {
    "127.0.0.1:24224"@
}

/// A poll interval: strictly positive, nanoseconds below one second.
#[derive(Clone, Copy, Debug, PartialEq, Eq, Structural)]
pub struct Interval {
    pub secs: u64,
    pub nanos: u32,
}

impl Interval {
    pub open spec fn wf(self) -> bool {
        &&& self.secs > 0 || self.nanos > 0
        &&& self.nanos < 1_000_000_000
    }

    /// The interval in nanoseconds.
    pub open spec fn total_nanos(self) -> int {
        self.secs * 1_000_000_000 + self.nanos
    }
}

/// Why a configuration could not be built.
#[derive(Clone, Copy, Debug, PartialEq, Eq, Structural)]
pub enum ConfigError {
    /// The tag is empty.
    EmptyTag,
    /// The interval text is not a duration.
    InvalidInterval,
    /// The interval is zero.
    ZeroInterval,
}

impl ConfigError {
    /// A diagnostic for the user.
    pub fn message(&self) -> (r: String)
        ensures
            r@ == match self {
                ConfigError::EmptyTag => "the tag must not be empty"@,
                ConfigError::InvalidInterval => "the interval is not a duration"@,
                ConfigError::ZeroInterval => "the interval must be positive"@,
            },
    {
        match self {
            ConfigError::EmptyTag => String::from_str("the tag must not be empty"),
            ConfigError::InvalidInterval => String::from_str("the interval is not a duration"),
            ConfigError::ZeroInterval => String::from_str("the interval must be positive"),
        }
    }
}

/// The interval, or the error, that a parsed duration gives.
pub open spec fn interval_result(parsed: Option<(u64, u32)>) -> Result<Interval, ConfigError> {
    match parsed {
        None => Err(ConfigError::InvalidInterval),
        Some((secs, nanos)) => if nanos >= 1_000_000_000 {
            Err(ConfigError::InvalidInterval)
        } else if secs == 0 && nanos == 0 {
            Err(ConfigError::ZeroInterval)
        } else {
            Ok(Interval { secs, nanos })
        },
    }
}

/// The interval, or the error, that an interval text gives: a text with more
/// than `MAX_INTERVAL_DIGITS` digits is refused before it is parsed.
pub open spec fn interval_of_text(text: Seq<char>) -> Result<Interval, ConfigError> {
    if digit_count(text) > MAX_INTERVAL_DIGITS {
        Err(ConfigError::InvalidInterval)
    } else {
        interval_result(humantime_parse(text))
    }
}

/// Turns a parsed duration (seconds, nanoseconds) into a poll interval:
/// a missing or zero duration is refused.
pub fn check_interval(parsed: Option<(u64, u32)>) -> (r: Result<Interval, ConfigError>)
    ensures
        r == interval_result(parsed),
        r is Ok ==> r->Ok_0.wf(),
{
    match parsed {
        None => Err(ConfigError::InvalidInterval),
        Some((secs, nanos)) => {
            if nanos >= 1_000_000_000 {
                Err(ConfigError::InvalidInterval)
            } else if secs == 0 && nanos == 0 {
                Err(ConfigError::ZeroInterval)
            } else {
                Ok(Interval { secs, nanos })
            }
        },
    }
}

/// Parses a human-readable interval such as `30s` or `5m`; a text with more
/// than `MAX_INTERVAL_DIGITS` digits is refused.
pub fn parse_interval(text: &str) -> (r: Result<Interval, ConfigError>)
    ensures
        r == interval_of_text(text@),
        r is Ok ==> r->Ok_0.wf(),
{
    if count_digits(text) > MAX_INTERVAL_DIGITS {
        return Err(ConfigError::InvalidInterval);
    }
    let parsed = match parse_duration(text) {
        Ok(p) => Some(p),
        Err(_) => None,
    };
    check_interval(parsed)
}

/// The configuration of a running poller.
#[derive(Debug)]
pub struct Config {
    /// host:port of the collector.
    pub addr: String,
    /// Whether records are sent to the collector.
    pub forwarding: bool,
    /// Tag under which records are sent.
    pub tag: String,
    /// Path whose filesystem is measured.
    pub path: String,
    /// Time slept between two ticks.
    pub interval: Interval,
}

impl Config {
    pub open spec fn wf(&self) -> bool {
        &&& self.tag@.len() > 0
        &&& self.interval.wf()
    }

    /// Builds a configuration from the startup options: `addr` defaults to
    /// the local collector, the tag must not be empty, the interval must parse
    /// to a positive duration and hold at most `MAX_INTERVAL_DIGITS` digits;
    /// `off` turns forwarding off.
    pub fn new(addr: Option<String>, tag: String, path: String, interval: &str, off: bool) -> (r:
        Result<Config, ConfigError>)
        ensures
            tag@.len() == 0 ==> r == Err::<Config, ConfigError>(ConfigError::EmptyTag),
            tag@.len() > 0 && interval_of_text(interval@) is Err ==> r == Err::<
                Config,
                ConfigError,
            >(interval_of_text(interval@)->Err_0),
            r is Ok <==> tag@.len() > 0 && interval_of_text(interval@) is Ok,
            r is Ok ==> {
                let c = r->Ok_0;
                &&& c.wf()
                &&& c.addr@ == match addr {
                    Some(a) => a@,
                    None => default_addr(),
                }
                &&& c.tag == tag
                &&& c.path == path
                &&& c.forwarding == !off
                &&& c.interval == interval_of_text(interval@)->Ok_0
            },
    {
        if tag.as_str().is_empty() {
            return Err(ConfigError::EmptyTag);
        }
        let interval = match parse_interval(interval) {
            Ok(i) => i,
            Err(e) => {
                return Err(e);
            },
        };
        let addr = match addr {
            Some(a) => a,
            None => String::from_str("127.0.0.1:24224"),
        };
        Ok(Config { addr, forwarding: !off, tag, path, interval })
    }
}

} // verus!
