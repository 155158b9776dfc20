use dup::config::{check_interval, count_digits, parse_interval, Config, ConfigError, Interval};
use dup::cycle::{make_error_line, Action, Event, Phase, Poller};
use dup::stats::{FsCounters, StatvfsDef, StatvfsWrap};

fn counters(blocks: u64, bfree: u64) -> FsCounters {
    FsCounters {
        bsize: 4096,
        frsize: 4096,
        blocks,
        bfree,
        bavail: bfree,
        files: 100,
        ffree: 40,
        favail: 40,
        fsid: 7,
        flags: 0,
        namemax: 255,
    }
}

fn config(tag: &str, off: bool) -> Config {
    Config::new(None, tag.to_string(), "/".to_string(), "30s", off).unwrap()
}

#[test]
fn check_interval_refuses_missing_and_zero() {
    assert_eq!(check_interval(None), Err(ConfigError::InvalidInterval));
    assert_eq!(check_interval(Some((0, 0))), Err(ConfigError::ZeroInterval));
    assert_eq!(check_interval(Some((1, 1_000_000_000))), Err(ConfigError::InvalidInterval));
    assert_eq!(check_interval(Some((30, 0))), Ok(Interval { secs: 30, nanos: 0 }));
    assert_eq!(check_interval(Some((0, 1))), Ok(Interval { secs: 0, nanos: 1 }));
}

#[test]
fn parse_interval_reads_human_durations() {
    assert_eq!(parse_interval("30s"), Ok(Interval { secs: 30, nanos: 0 }));
    assert_eq!(parse_interval("5m"), Ok(Interval { secs: 300, nanos: 0 }));
    assert_eq!(parse_interval("1h 30m"), Ok(Interval { secs: 5400, nanos: 0 }));
    assert_eq!(parse_interval("500ms"), Ok(Interval { secs: 0, nanos: 500_000_000 }));
}

#[test]
fn parse_interval_errors() {
    assert_eq!(parse_interval("0s"), Err(ConfigError::ZeroInterval));
    assert_eq!(parse_interval("0"), Err(ConfigError::ZeroInterval));
    assert_eq!(parse_interval("soon"), Err(ConfigError::InvalidInterval));
    assert_eq!(parse_interval(""), Err(ConfigError::InvalidInterval));
    assert_eq!(parse_interval("10 parsecs"), Err(ConfigError::InvalidInterval));
}

#[test]
fn config_defaults_and_options() {
    let c = config("disk", false);
    assert_eq!(c.addr, "127.0.0.1:24224");
    assert_eq!(c.tag, "disk");
    assert_eq!(c.path, "/");
    assert!(c.forwarding);
    assert_eq!(c.interval, Interval { secs: 30, nanos: 0 });
    let c = Config::new(Some("10.0.0.1:9999".to_string()), "t".to_string(), "/var".to_string(), "2m", true)
        .unwrap();
    assert_eq!(c.addr, "10.0.0.1:9999");
    assert_eq!(c.path, "/var");
    assert!(!c.forwarding);
    assert_eq!(c.interval, Interval { secs: 120, nanos: 0 });
}

#[test]
fn config_errors() {
    let e = Config::new(None, String::new(), "/".to_string(), "30s", false).unwrap_err();
    assert_eq!(e, ConfigError::EmptyTag);
    let e = Config::new(None, "t".to_string(), "/".to_string(), "often", false).unwrap_err();
    assert_eq!(e, ConfigError::InvalidInterval);
    let e = Config::new(None, "t".to_string(), "/".to_string(), "0s", false).unwrap_err();
    assert_eq!(e, ConfigError::ZeroInterval);
    assert_eq!(ConfigError::EmptyTag.message(), "the tag must not be empty");
}

#[test]
fn record_keeps_counters_exactly() {
    let mut c = counters(u64::MAX, u64::MAX - 1);
    c.fsid = u64::MAX;
    c.files = 1 << 40;
    let r = StatvfsDef::from_statvfs(&c);
    assert_eq!(r.blocks, u64::MAX);
    assert_eq!(r.bfree, u64::MAX - 1);
    assert_eq!(r.bavail, u64::MAX - 1);
    assert_eq!(r.fsid, u64::MAX);
    assert_eq!(r.files, 1 << 40);
    assert_eq!(r.ffree, 40);
    assert_eq!(r.favail, 40);
    assert_eq!(r.bsize, 4096);
    assert_eq!(r.frsize, 4096);
    assert_eq!(r.namemax, 255);
}

#[test]
fn record_renders_mount_flags() {
    let mut c = counters(10, 5);
    c.flags = 1; // read-only
    let r = StatvfsDef::from_statvfs(&c);
    assert!(r.flagstr.contains("RDONLY"), "{}", r.flagstr);
    let none = StatvfsDef::from_statvfs(&counters(10, 5));
    assert!(!none.flagstr.contains("RDONLY"));
    let w = StatvfsWrap::new(r);
    let d = w.duplicate();
    assert_eq!(d.statvfs.flagstr, w.statvfs.flagstr);
}

#[test]
fn end_to_end_tick_forwards_and_prints() {
    let mut p = Poller::new(config("disk.test", false), true);
    assert_eq!(p.phase, Phase::Waiting);
    match p.step(Event::Tick) {
        Action::QueryStats { path } => assert_eq!(path, "/"),
        a => panic!("unexpected {:?}", a),
    }
    match p.step(Event::StatsRead(counters(1000, 250))) {
        Action::Send { addr, tag, record } => {
            assert_eq!(addr, "127.0.0.1:24224");
            assert_eq!(tag, "disk.test");
            assert_eq!(record.statvfs.blocks, 1000);
            assert_eq!(record.statvfs.bfree, 250);
        }
        a => panic!("unexpected {:?}", a),
    }
    match p.step(Event::Sent) {
        Action::Print { record } => {
            assert_eq!(record.statvfs.blocks, 1000);
            assert_eq!(record.statvfs.bfree, 250);
        }
        a => panic!("unexpected {:?}", a),
    }
    match p.step(Event::Printed) {
        Action::Sleep { interval } => assert_eq!(interval, Interval { secs: 30, nanos: 0 }),
        a => panic!("unexpected {:?}", a),
    }
    assert!(p.expects(&Event::Tick));
}

#[test]
fn forwarding_off_never_sends() {
    let mut p = Poller::new(config("t", true), true);
    for _ in 0..3 {
        assert!(matches!(p.step(Event::Tick), Action::QueryStats { .. }));
        match p.step(Event::StatsRead(counters(1000, 250))) {
            Action::Print { record } => assert_eq!(record.statvfs.bfree, 250),
            a => panic!("unexpected {:?}", a),
        }
        assert!(matches!(p.step(Event::Printed), Action::Sleep { .. }));
    }
    let mut quiet = Poller::new(config("t", true), false);
    quiet.step(Event::Tick);
    assert!(matches!(quiet.step(Event::StatsRead(counters(1, 1))), Action::Sleep { .. }));
}

#[test]
fn empty_filesystem_is_still_sent() {
    let mut p = Poller::new(config("t", false), false);
    p.step(Event::Tick);
    match p.step(Event::StatsRead(counters(0, 0))) {
        Action::Send { record, .. } => assert_eq!(record.statvfs.blocks, 0),
        a => panic!("unexpected {:?}", a),
    }
    assert!(matches!(p.step(Event::Sent), Action::Sleep { .. }));
}

#[test]
fn stats_failure_logs_one_line_and_sleeps() {
    let mut p = Poller::new(config("t", false), true);
    p.step(Event::Tick);
    match p.step(Event::StatsFailed("ENOENT: No such file or directory".to_string())) {
        Action::LogAndSleep { line, interval } => {
            assert_eq!(line, "dup run ERROR: ENOENT: No such file or directory");
            assert_eq!(interval, Interval { secs: 30, nanos: 0 });
        }
        a => panic!("unexpected {:?}", a),
    }
    assert!(p.expects(&Event::Tick));
    assert!(matches!(p.step(Event::Tick), Action::QueryStats { .. }));
}

#[test]
fn send_failure_logs_one_line_and_sleeps() {
    let mut p = Poller::new(config("t", false), true);
    p.step(Event::Tick);
    p.step(Event::StatsRead(counters(10, 5)));
    match p.step(Event::SendFailed("connection refused".to_string())) {
        Action::LogAndSleep { line, .. } => assert_eq!(line, "dup run ERROR: connection refused"),
        a => panic!("unexpected {:?}", a),
    }
    assert_eq!(p.phase, Phase::Waiting);
}

#[test]
fn print_failure_logs_one_line() {
    let mut p = Poller::new(config("t", true), true);
    p.step(Event::Tick);
    p.step(Event::StatsRead(counters(10, 5)));
    match p.step(Event::PrintFailed("bad".to_string())) {
        Action::LogAndSleep { line, .. } => assert_eq!(line, "dup run ERROR: bad"),
        a => panic!("unexpected {:?}", a),
    }
}

#[test]
fn expects_follows_phase() {
    let mut p = Poller::new(config("t", false), false);
    assert!(p.expects(&Event::Tick));
    assert!(!p.expects(&Event::Sent));
    p.step(Event::Tick);
    assert!(p.expects(&Event::StatsRead(counters(1, 1))));
    assert!(p.expects(&Event::StatsFailed(String::new())));
    assert!(!p.expects(&Event::Tick));
    assert_eq!(make_error_line(&"x".to_string()), "dup run ERROR: x");
}

#[test]
fn parse_interval_refuses_too_many_digits() {
    assert_eq!(parse_interval("18446744073709551615s 1000ms"), Err(ConfigError::InvalidInterval));
    assert_eq!(parse_interval("1844674407 3709551615s 1000ms"), Err(ConfigError::InvalidInterval));
    assert_eq!(parse_interval("18446744073709551615s 1000000000ns"), Err(ConfigError::InvalidInterval));
    assert_eq!(parse_interval("10000000000s"), Err(ConfigError::InvalidInterval));
    assert_eq!(parse_interval("9999999999s"), Ok(Interval { secs: 9_999_999_999, nanos: 0 }));
    assert_eq!(parse_interval("9999999999y"), Ok(Interval { secs: 315_575_999_968_442_400, nanos: 0 }));
    let e = Config::new(None, "t".to_string(), "/".to_string(), "99999999999s", false).unwrap_err();
    assert_eq!(e, ConfigError::InvalidInterval);
}

#[test]
fn count_digits_counts_ascii_digits() {
    assert_eq!(count_digits(""), 0);
    assert_eq!(count_digits("1h 30m"), 3);
    assert_eq!(count_digits("µs 42"), 2);
    assert_eq!(count_digits("1844674407 3709551615s 1000ms"), 24);
}

#[test]
fn config_error_messages() {
    assert_eq!(ConfigError::EmptyTag.message(), "the tag must not be empty");
    assert_eq!(ConfigError::InvalidInterval.message(), "the interval is not a duration");
    assert_eq!(ConfigError::ZeroInterval.message(), "the interval must be positive");
}
