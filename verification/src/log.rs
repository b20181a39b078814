//! Log levels and the shape of a log line.
use vstd::prelude::*;
use crate::context::opt_view;

verus! {

/// How serious a logged event is.
#[derive(Debug, Clone, Copy, PartialEq, Eq, Structural)]
pub enum LogLevel {
    Info,
    Warn,
    Error,
}

impl LogLevel {
    /// The upper-case name of the level, as it appears in a log line.
    pub open spec fn label_spec(self) -> Seq<char> {
        match self {
            LogLevel::Info => "INFO"@,
            LogLevel::Warn => "WARN"@,
            LogLevel::Error => "ERROR"@,
        }
    }

    /// The upper-case name of the level: "INFO", "WARN" or "ERROR".
    pub fn label(&self) -> (s: String)
        ensures
            s@ == self.label_spec(),
    {
        match self {
            LogLevel::Info => String::from_str("INFO"),
            LogLevel::Warn => String::from_str("WARN"),
            LogLevel::Error => String::from_str("ERROR"),
        }
    }

    /// Whether lines of this level go to standard error (else standard output).
    pub open spec fn goes_to_stderr_spec(self) -> bool {
        self is Error
    }

    /// Errors are written to standard error, everything else to standard output.
    pub fn goes_to_stderr(&self) -> (b: bool)
        ensures
            b == self.goes_to_stderr_spec(),
    {
        match self {
            LogLevel::Error => true,
            _ => false,
        }
    }
}

/// A log line: `<time> [LEVEL] - message`.
pub open spec fn log_line(time: Seq<char>, level: LogLevel, message: Seq<char>) -> Seq<char> {
    "<"@ + time + "> ["@ + level.label_spec() + "] - "@ + message
}

/// The line starts with "<", then the time, then "> [", the level's
/// upper-case name, "] - ", and ends with the whole message, for every level;
/// it is exactly eight characters longer than those three parts together.
pub proof fn law_log_line_shape(time: Seq<char>, level: LogLevel, message: Seq<char>)
    ensures
        log_line(time, level, message).len() == time.len() + level.label_spec().len()
            + message.len() + 8,
        message.is_suffix_of(log_line(time, level, message)),
        log_line(time, level, message)[0] == '<',
        log_line(time, level, message).subrange(1, time.len() as int + 1) == time,
        log_line(time, level, message).subrange(
            time.len() as int + 4,
            time.len() as int + 4 + level.label_spec().len(),
        ) == level.label_spec(),
        level == LogLevel::Info ==> level.label_spec() == "INFO"@,
        level == LogLevel::Warn ==> level.label_spec() == "WARN"@,
        level == LogLevel::Error ==> level.label_spec() == "ERROR"@,
{
    reveal_strlit("<");
    reveal_strlit("> [");
    reveal_strlit("] - ");
    let line = log_line(time, level, message);
    let head = "<"@ + time + "> ["@ + level.label_spec() + "] - "@;
    assert(line =~= head + message);
    assert(line.subrange(line.len() - message.len(), line.len() as int) =~= message);
    assert(line.subrange(1, time.len() as int + 1) =~= time);
    assert(line.subrange(time.len() as int + 4, time.len() as int + 4 + level.label_spec().len())
        =~= level.label_spec());
}

/// Builds the log line for `message` at `level`, stamped with `time`.
pub fn format_log_line(time: &str, level: LogLevel, message: &str) -> (line: String)
    ensures
        line@ == log_line(time@, level, message@),
{
    let mut line = String::from_str("<");
    line.append(time);
    line.append("> [");
    let label = level.label();
    line.append(label.as_str());
    line.append("] - ");
    line.append(message);
    line
}

/// A line ready to be written, with the clock reading it was stamped with
/// (seconds and nanoseconds since 1970-01-01 UTC, when that fits), the time
/// text it carries and the stream it belongs on.
pub struct LogRecord {
    pub timestamp: Option<(i64, u32)>,
    pub time: String,
    pub line: String,
    pub to_stderr: bool,
}

#[verifier::external_type_specification]
#[verifier::external_body]
pub struct ExSystemTime(std::time::SystemTime);

#[verifier::external_type_specification]
#[verifier::external_body]
pub struct ExSystemTimeError(std::time::SystemTimeError);

/// The system clock's current reading.
///
/// Calls `std::time::SystemTime::now`. The clock decides the value, so
/// nothing is stated of it.
#[verifier::external_body]
fn system_time_now() -> (t: std::time::SystemTime) {
    std::time::SystemTime::now()
}

/// Calls `SystemTime::duration_since` with `UNIX_EPOCH`: the time from the
/// epoch to `t`, or, where `t` is earlier, an error that carries the time from
/// `t` to the epoch. Both are opaque here, so nothing is stated of them.
#[verifier::external_body]
fn since_unix_epoch(t: &std::time::SystemTime) -> (r: Result<
    core::time::Duration,
    std::time::SystemTimeError,
>) {
    t.duration_since(std::time::UNIX_EPOCH)
}

/// Calls `SystemTimeError::duration`: how far the reading lies before the epoch.
#[verifier::external_body]
fn before_epoch_by(e: &std::time::SystemTimeError) -> (d: core::time::Duration) {
    e.duration()
}

/// Calls `Duration::as_secs`: the whole seconds of the duration.
#[verifier::external_body]
fn whole_secs(d: &core::time::Duration) -> (s: u64) {
    d.as_secs()
}

/// Calls `Duration::subsec_nanos`: the fractional part in nanoseconds, which
/// std documents as always less than one billion.
#[verifier::external_body]
fn frac_nanos(d: &core::time::Duration) -> (n: u32)
    ensures
        n < 1_000_000_000,
{
    d.subsec_nanos()
}

/// A reading `secs` seconds and `nanos` nanoseconds after (or, where
/// `before_epoch`, before) 1970-01-01 UTC, as a signed count of seconds and a
/// nanosecond part below one billion, where the seconds fit in an `i64`.
pub open spec fn epoch_timestamp(before_epoch: bool, secs: u64, nanos: u32) -> Option<(i64, u32)> {
    if secs > i64::MAX {
        None
    } else if !before_epoch {
        Some((secs as i64, nanos))
    } else if nanos == 0 {
        Some(((-secs) as i64, 0u32))
    } else {
        Some(((-secs - 1) as i64, (1_000_000_000 - nanos) as u32))
    }
}

/// Turns a distance from the epoch into a signed timestamp.
pub fn to_epoch_timestamp(before_epoch: bool, secs: u64, nanos: u32) -> (r: Option<(i64, u32)>)
    requires
        nanos < 1_000_000_000,
    ensures
        r == epoch_timestamp(before_epoch, secs, nanos),
{
    if secs > 9_223_372_036_854_775_807u64 {
        None
    } else if !before_epoch {
        Some((secs as i64, nanos))
    } else if nanos == 0 {
        Some((-(secs as i64), 0u32))
    } else {
        Some((-(secs as i64) - 1, 1_000_000_000u32 - nanos))
    }
}

/// The clock's current reading as a signed timestamp, where it fits.
fn clock_timestamp() -> (r: Option<(i64, u32)>)
    ensures
        r matches Some((_, n)) ==> n < 1_000_000_000,
{
    let now = system_time_now();
    match since_unix_epoch(&now) {
        Ok(d) => to_epoch_timestamp(false, whole_secs(&d), frac_nanos(&d)),
        Err(e) => {
            let d = before_epoch_by(&e);
            to_epoch_timestamp(true, whole_secs(&d), frac_nanos(&d))
        },
    }
}

/// How chrono displays the UTC date-time `secs` seconds and `nsecs`
/// nanoseconds after 1970-01-01 (`None` where it has no such date-time).
pub uninterp spec fn utc_display(secs: i64, nsecs: u32) -> Option<Seq<char>>;

/// Calls `chrono::DateTime::from_timestamp` and formats the result with
/// `to_string`. chrono documents `None` for seconds out of its range or an
/// invalid nanosecond part, so success is not promised. The `Display` of
/// `DateTime<Utc>` writes the date and time, a space and the offset, which
/// `Utc` writes as "UTC"; only that ending is stated beyond the name.
#[verifier::external_body]
fn utc_text(secs: i64, nsecs: u32) -> (r: Option<String>)
    ensures
        opt_view(r) == utc_display(secs, nsecs),
        r matches Some(s) ==> " UTC"@.is_suffix_of(s@),
{
    match chrono::DateTime::from_timestamp(secs, nsecs) {
        Some(d) => Some(d.to_string()),
        None => None,
    }
}

/// The text shown for a reading that chrono cannot display.
pub open spec fn unknown_time() -> Seq<char> {
    "?"@
}

/// The time text of a log line stamped with `timestamp`: chrono's display
/// of it, or "?" where there is none.
pub open spec fn time_text(timestamp: Option<(i64, u32)>) -> Seq<char> {
    match timestamp {
        Some((s, n)) => match utc_display(s, n) {
            Some(t) => t,
            None => unknown_time(),
        },
        None => unknown_time(),
    }
}

/// Writes log lines; holds no state of its own.
#[derive(Clone, Copy)]
pub struct Logger {}

impl Logger {
    pub fn new() -> (l: Self) {
        Logger {  }
    }

    /// The record that logging `message` at `level` now produces: the line
    /// carries the current time, and errors go to standard error.
    pub fn record(&self, level: LogLevel, message: &str) -> (r: LogRecord)
        ensures
            r.time@ == time_text(r.timestamp),
            r.line@ == log_line(r.time@, level, message@),
            r.timestamp matches Some((_, n)) ==> n < 1_000_000_000,
            (r.timestamp matches Some((s, n)) && utc_display(s, n) is Some) ==> " UTC"@.is_suffix_of(
                r.time@,
            ),
            r.to_stderr == level.goes_to_stderr_spec(),
    {
        let timestamp = clock_timestamp();
        let time = match timestamp {
            Some((secs, nanos)) => match utc_text(secs, nanos) {
                Some(t) => t,
                None => String::from_str("?"),
            },
            None => String::from_str("?"),
        };
        let line = format_log_line(time.as_str(), level, message);
        LogRecord { timestamp, time, line, to_stderr: level.goes_to_stderr() }
    }
}

} // verus!
