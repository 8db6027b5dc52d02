//! Numbers and time spans as text.

use crate::time::Duration;
use vstd::prelude::*;
use vstd::string::StringExecFns;

verus! {

/// The ten digits, in order.
pub open spec fn digits() -> Seq<char> {
    seq!['0', '1', '2', '3', '4', '5', '6', '7', '8', '9']
}

/// A number in decimal, without leading zeros.
pub open spec fn decimal(n: nat) -> Seq<char>
    decreases n,
{
    if n < 10 {
        seq![digits()[n as int]]
    } else {
        decimal(n / 10).push(digits()[(n % 10) as int])
    }
}

/// A number in decimal, with a leading zero if it has one digit only.
pub open spec fn two_digits(n: nat) -> Seq<char> {
    if n < 10 {
        seq!['0'] + decimal(n)
    } else {
        decimal(n)
    }
}

/// A number of seconds as hours, minutes and seconds, two digits each (more
/// for a hundred hours and beyond), with colons between them.
pub open spec fn hhmmss(secs: nat) -> Seq<char> {
    two_digits(secs / 3600) + seq![':'] + two_digits((secs / 60) % 60) + seq![':'] + two_digits(
        secs % 60,
    )
}

/// What `humantime::format_duration` writes for a span of `nanos`
/// nanoseconds.
pub uninterp spec fn humantime_text(nanos: nat) -> Seq<char>;

fn digit(d: u64) -> (text: &'static str)
    requires
        d < 10,
    ensures
        text@ == seq![digits()[d as int]],
{
    proof {
        reveal_strlit("0123456789");
    }
    let all: &'static str = "0123456789";
    assert(all@ =~= digits());
    assert(all.is_ascii());
    let one = all.substring_ascii(d as usize, d as usize + 1);
    assert(one@ =~= seq![digits()[d as int]]);
    one
}

/// A number in decimal, without leading zeros.
pub fn decimal_text(n: u64) -> (text: String)
    ensures
        text@ == decimal(n as nat),
    decreases n,
{
    if n < 10 {
        digit(n).to_owned()
    } else {
        let lead = decimal_text(n / 10);
        let text = lead.concat(digit(n % 10));
        assert(text@ =~= decimal((n / 10) as nat).push(digits()[(n % 10) as int]));
        text
    }
}

/// A number in decimal, with a leading zero if it has one digit only.
pub fn two_digit_text(n: u64) -> (text: String)
    ensures
        text@ == two_digits(n as nat),
{
    if n < 10 {
        proof {
            reveal_strlit("0");
        }
        let text = "0".to_owned().concat(decimal_text(n).as_str());
        assert(text@ =~= seq!['0'] + decimal(n as nat));
        text
    } else {
        decimal_text(n)
    }
}

/// A span of time as hours, minutes and seconds: `01:02:03` for one hour,
/// two minutes and three seconds. What is beyond the whole seconds is left
/// out.
pub fn dur_to_hhmmss(dur: Duration) -> (text: String)
    ensures
        text@ == hhmmss(dur.secs()),
{
    let secs: u64 = dur.as_secs();
    let seconds: u64 = secs % 60;
    let minutes: u64 = (secs / 60) % 60;
    let hours: u64 = (secs / 60) / 60;
    assert(hours == secs / 3600) by (nonlinear_arith)
        requires
            hours == (secs / 60) / 60,
    ;
    proof {
        reveal_strlit(":");
    }
    let text = two_digit_text(hours).concat(":").concat(two_digit_text(minutes).as_str()).concat(
        ":",
    ).concat(two_digit_text(seconds).as_str());
    assert(text@ =~= hhmmss(secs as nat));
    text
}

/// Writes `dur` as `humantime::format_duration` does, in words such as
/// `2h 37m`. The contract only names that text: which units it uses is the
/// formatter's.
#[verifier::external_body]
pub(crate) fn format_duration(dur: Duration) -> (text: String)
    ensures
        text@ == humantime_text(dur.nanos()),
{
    let span = std::time::Duration::new(dur.as_secs(), dur.subsec_nanos());
    humantime::format_duration(span).to_string()
}

} // verus!
