//! The text the application shows: countdowns, clock times and log lines.
use vstd::prelude::*;

verus! {

/// The decimal digit for `d`.
pub open spec fn digit(d: nat) -> char {
    if d == 0 { '0' } else if d == 1 { '1' } else if d == 2 { '2' } else if d == 3 { '3' }
    else if d == 4 { '4' } else if d == 5 { '5' } else if d == 6 { '6' } else if d == 7 { '7' }
    else if d == 8 { '8' } else { '9' }
}

/// `n` written in decimal, without leading zeros.
pub open spec fn decimal_of(n: nat) -> Seq<char>
    decreases n,
{
    if n < 10 {
        seq![digit(n)]
    } else {
        decimal_of(n / 10).push(digit(n % 10))
    }
}

/// `n` written with two decimal digits.
pub open spec fn two_digits_of(n: nat) -> Seq<char> {
    seq![digit(n / 10), digit(n % 10)]
}

/// A countdown of `secs` seconds: hours, minutes and seconds, leaving out
/// leading units that are zero unless `full` asks for all three.
pub open spec fn countdown_of(secs: nat, full: bool) -> Seq<char> {
    let h = secs / 3600;
    let m = (secs % 3600) / 60;
    let s = secs % 60;
    "Next backup in: "@ + if full || h > 0 {
        decimal_of(h) + "h "@ + decimal_of(m) + "m "@ + decimal_of(s) + "s"@
    } else if m > 0 {
        decimal_of(m) + "m "@ + decimal_of(s) + "s"@
    } else {
        decimal_of(s) + "s"@
    }
}

/// The time of day at `t` (seconds of naive local time) as HH:MM:SS.
pub open spec fn clock_of(t: int) -> Seq<char> {
    let d = (t % 86400) as nat;
    two_digits_of(d / 3600) + ":"@ + two_digits_of((d % 3600) / 60) + ":"@ + two_digits_of(d % 60)
}

/// A log line: the time of day in brackets, then the message.
pub open spec fn log_line_of(t: int, message: Seq<char>) -> Seq<char> {
    "["@ + clock_of(t) + "] "@ + message
}

fn digit_str(d: u64) -> (r: &'static str)
    requires
        d < 10,
    ensures
        r@ == seq![digit(d as nat)],
{
    proof {
        reveal_strlit("0");
        reveal_strlit("1");
        reveal_strlit("2");
        reveal_strlit("3");
        reveal_strlit("4");
        reveal_strlit("5");
        reveal_strlit("6");
        reveal_strlit("7");
        reveal_strlit("8");
        reveal_strlit("9");
    }
    if d == 0 { "0" } else if d == 1 { "1" } else if d == 2 { "2" } else if d == 3 { "3" }
    else if d == 4 { "4" } else if d == 5 { "5" } else if d == 6 { "6" } else if d == 7 { "7" }
    else if d == 8 { "8" } else { "9" }
}

/// `n` written in decimal.
pub fn decimal(n: u64) -> (r: String)
    ensures
        r@ == decimal_of(n as nat),
    decreases n,
{
    if n < 10 {
        String::from_str(digit_str(n))
    } else {
        let mut s = decimal(n / 10);
        s.append(digit_str(n % 10));
        s
    }
}

/// `n` written with two decimal digits.
pub fn two_digits(n: u64) -> (r: String)
    requires
        n < 100,
    ensures
        r@ == two_digits_of(n as nat),
{
    let mut s = String::from_str(digit_str(n / 10));
    s.append(digit_str(n % 10));
    s
}

/// The countdown shown while a backup cycle runs.
pub fn countdown_text(secs: u64, full: bool) -> (r: String)
    ensures
        r@ == countdown_of(secs as nat, full),
{
    let h = secs / 3600;
    let m = (secs % 3600) / 60;
    let s = secs % 60;
    proof {
        reveal_strlit("Next backup in: ");
        reveal_strlit("h ");
        reveal_strlit("m ");
        reveal_strlit("s");
    }
    let mut out = String::from_str("Next backup in: ");
    let ghost head = out@;
    if full || h > 0 {
        out.append(decimal(h).as_str());
        out.append("h ");
    }
    if full || h > 0 || m > 0 {
        out.append(decimal(m).as_str());
        out.append("m ");
    }
    out.append(decimal(s).as_str());
    out.append("s");
    proof {
        let tail = if full || h > 0 {
            decimal_of(h as nat) + "h "@ + decimal_of(m as nat) + "m "@ + decimal_of(s as nat) + "s"@
        } else if m > 0 {
            decimal_of(m as nat) + "m "@ + decimal_of(s as nat) + "s"@
        } else {
            decimal_of(s as nat) + "s"@
        };
        assert(out@ =~= head + tail);
    }
    out
}

/// The time of day at `t` as HH:MM:SS.
pub fn clock_text(t: i64) -> (r: String)
    ensures
        r@ == clock_of(t as int),
{
    let d = match t.checked_rem_euclid(86400) {
        Some(v) => v as u64,
        None => 0,
    };
    proof {
        reveal_strlit(":");
    }
    let mut out = two_digits(d / 3600);
    out.append(":");
    out.append(two_digits((d % 3600) / 60).as_str());
    out.append(":");
    out.append(two_digits(d % 60).as_str());
    proof {
        assert(d as int == t % 86400);
        assert(out@ =~= clock_of(t as int));
    }
    out
}

/// A log line for `message` written at `t`.
pub fn log_line(t: i64, message: &str) -> (r: String)
    ensures
        r@ == log_line_of(t as int, message@),
{
    proof {
        reveal_strlit("[");
        reveal_strlit("] ");
    }
    let mut out = String::from_str("[");
    out.append(clock_text(t).as_str());
    out.append("] ");
    out.append(message);
    proof {
        assert(out@ =~= log_line_of(t as int, message@));
    }
    out
}

} // verus!
