//! Uptime reporting: a start instant captured once, and the
//! `"{days}d {hours}h {minutes}m {seconds}s"` rendering of elapsed seconds.

use vstd::prelude::*;

verus! {

/// The character of a decimal digit `d < 10`.
pub open spec fn digit_char(d: nat) -> char {
    seq!['0', '1', '2', '3', '4', '5', '6', '7', '8', '9'][d as int]
}

/// The decimal rendering of `n`, most significant digit first, no leading zeros.
pub open spec fn decimal(n: nat) -> Seq<char>
    decreases n,
{
    if n < 10 {
        seq![digit_char(n)]
    } else {
        decimal(n / 10).push(digit_char(n % 10))
    }
}

/// The uptime text for `t` elapsed seconds.
pub open spec fn uptime_text(t: nat) -> Seq<char> {
    decimal(t / 86400) + seq!['d', ' '] + decimal((t % 86400) / 3600) + seq!['h', ' ']
        + decimal((t % 3600) / 60) + seq!['m', ' '] + decimal(t % 60) + seq!['s']
}

fn digit_str(d: u64) -> (r: &'static str)
    requires
        d < 10,
    ensures
        r@ == seq![digit_char(d as nat)],
{
    proof {
        reveal_strlit("0");
        reveal_strlit("1");
        reveal_strlit("2");
        reveal_strlit("3");
        reveal_strlit("4");
        reveal_strlit("5");
        reveal_strlit("6");
        reveal_strlit("7");
        reveal_strlit("8");
        reveal_strlit("9");
    }
    let r = if d == 0 {
        "0"
    } else if d == 1 {
        "1"
    } else if d == 2 {
        "2"
    } else if d == 3 {
        "3"
    } else if d == 4 {
        "4"
    } else if d == 5 {
        "5"
    } else if d == 6 {
        "6"
    } else if d == 7 {
        "7"
    } else if d == 8 {
        "8"
    } else {
        "9"
    };
    assert(r@ =~= seq![digit_char(d as nat)]);
    r
}

/// Appends the decimal rendering of `n` to `out`.
pub fn push_decimal(out: &mut String, n: u64)
    ensures
        final(out)@ == old(out)@ + decimal(n as nat),
    decreases n,
{
    if n >= 10 {
        push_decimal(out, n / 10);
    }
    out.append(digit_str(n % 10));
    proof {
        if n >= 10 {
            assert(decimal(n as nat) == decimal((n / 10) as nat).push(digit_char((n % 10) as nat)));
        } else {
            assert(n % 10 == n);
        }
        assert(final(out)@ =~= old(out)@ + decimal(n as nat));
    }
}

/// Renders `total_seconds` as `"{days}d {hours}h {minutes}m {seconds}s"`,
/// each part by floor division.
pub fn format_uptime(total_seconds: u64) -> (r: String)
    ensures
        r@ == uptime_text(total_seconds as nat),
{
    proof {
        reveal_strlit("d ");
        reveal_strlit("h ");
        reveal_strlit("m ");
        reveal_strlit("s");
    }
    let t = total_seconds;
    let mut out = String::new();
    push_decimal(&mut out, t / 86400);
    out.append("d ");
    push_decimal(&mut out, (t % 86400) / 3600);
    out.append("h ");
    push_decimal(&mut out, (t % 3600) / 60);
    out.append("m ");
    push_decimal(&mut out, t % 60);
    out.append("s");
    assert(out@ =~= uptime_text(total_seconds as nat));
    out
}

/// The monotonic clock's instant, carried through as an opaque value.
#[verifier::external_type_specification]
#[verifier::external_body]
pub struct ExInstant(std::time::Instant);

/// Relies on `Instant::now`: reads the monotonic clock; nothing is known of the reading.
pub assume_specification[ std::time::Instant::now ]() -> std::time::Instant;

/// Relies on `Instant::elapsed`: the time since the instant, by the monotonic clock.
pub assume_specification[ std::time::Instant::elapsed ](self_: &std::time::Instant) -> std::time::Duration;

/// Relies on `Duration::as_secs`: the whole seconds of a duration.
pub assume_specification[ std::time::Duration::as_secs ](self_: &std::time::Duration) -> u64;

/// The process's start instant, captured once and never changed afterwards.
pub struct UptimeTracker {
    start: std::time::Instant,
}

impl UptimeTracker {
    /// The instant the tracker counts from.
    pub closed spec fn start_instant(self) -> std::time::Instant {
        self.start
    }

    /// Starts the tracker at the current instant.
    pub fn new() -> (r: UptimeTracker) {
        UptimeTracker { start: std::time::Instant::now() }
    }

    /// Starts the tracker at a given instant (a fake start time, say).
    pub fn starting_at(start: std::time::Instant) -> (r: UptimeTracker)
        ensures
            r.start_instant() == start,
    {
        UptimeTracker { start }
    }

    /// Whole seconds elapsed since the start instant.
    pub fn elapsed_secs(&self) -> u64 {
        let d = self.start.elapsed();
        d.as_secs()
    }
}

/// The uptime text of the tracker at the moment of the call.
pub fn get_uptime(tracker: &UptimeTracker) -> (r: String)
    ensures
        exists|t: u64| r@ == uptime_text(t as nat),
{
    let t = tracker.elapsed_secs();
    format_uptime(t)
}

} // verus!
