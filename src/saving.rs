//! The record of a finished auction, as handed to storage, and the name of
//! the file it is stored in.

use vstd::prelude::*;
use vstd::string::StringExecFns;
use crate::auction::{Bid, Winner};
use crate::text::{decimal, u64_text};
use crate::util::{skip_leading, trim_start_char};

verus! {

/// A finished auction: its settings, when it opened and closed (UTC
/// milliseconds since the Unix epoch, rounded to the second), its winner
/// and all its bids.
pub struct AuctionFinished {
    pub prize: Option<String>,
    pub minimum_bid: usize,
    pub raise_limit: usize,
    /// Planned length, in seconds.
    pub duration: u64,
    /// Anti-snipe window, in seconds.
    pub helmet: u64,
    pub opened: i64,
    pub closed: i64,
    pub winner: Option<Winner>,
    pub bids: Vec<Bid>,
}

/// `x`, brought into the range of `i64`.
pub open spec fn clamp_i64(x: int) -> i64 {
    if x > i64::MAX { i64::MAX } else if x < i64::MIN { i64::MIN } else { x as i64 }
}

/// `utc` moved back by `back` milliseconds, no earlier than the first `i64`.
pub open spec fn ms_before(utc: i64, back: u64) -> i64 {
    clamp_i64(utc - back)
}

/// `a - b`, or 0 where `b` is larger.
pub open spec fn sat_sub(a: u64, b: u64) -> u64 {
    if a >= b { (a - b) as u64 } else { 0 }
}

/// `ms` milliseconds rounded to the nearest whole second (a half rounds up).
pub open spec fn round_second(ms: int) -> int {
    let q = ms / 1000;
    if ms - q * 1000 >= 500 { (q + 1) * 1000 } else { q * 1000 }
}

/// `utc` moved back by `back` milliseconds, no earlier than the first `i64`.
pub fn time_before(utc: i64, back: u64) -> (r: i64)
    ensures
        r == ms_before(utc, back),
{
    let v: i128 = utc as i128 - back as i128;
    if v < i64::MIN as i128 {
        i64::MIN
    } else {
        v as i64
    }
}

/// The whole seconds of `ms` milliseconds, rounded down.
fn floor_div_1000(ms: i128) -> (q: i128)
    requires
        -0x1_0000_0000_0000_0000 <= ms <= 0x1_0000_0000_0000_0000,
    ensures
        q == ms / 1000,
{
    let q: i128 = if ms >= 0 { ms / 1000 } else { -((-ms + 999) / 1000) };
    assert(q * 1000 <= ms && ms < q * 1000 + 1000) by (nonlinear_arith)
        requires
            ms >= 0 ==> q == ms / 1000,
            ms < 0 ==> q == -((-ms + 999) / 1000),
    ;
    assert(q == ms / 1000) by (nonlinear_arith)
        requires
            q * 1000 <= ms,
            ms < q * 1000 + 1000,
    ;
    q
}

/// `ms` rounded to the nearest whole second, kept within `i64`.
pub fn round_to_second(ms: i64) -> (r: i64)
    ensures
        r == clamp_i64(round_second(ms as int)),
{
    let m = ms as i128;
    let q = floor_div_1000(m);
    let up: i128 = if m - q * 1000 >= 500 { (q + 1) * 1000 } else { q * 1000 };
    if up > i64::MAX as i128 {
        i64::MAX
    } else if up < i64::MIN as i128 {
        i64::MIN
    } else {
        up as i64
    }
}

/// The UTC date and time of a Unix time, as chrono gives them.
pub uninterp spec fn civil_of(secs: i64) -> Option<(i32, u32, u32, u32, u32, u32)>;

/// The snake case of a text, as heck gives it.
pub uninterp spec fn snake_of(s: Seq<char>) -> Seq<char>;

/// Relies on chrono's `DateTime::from_timestamp` and its `Datelike` and
/// `Timelike` getters: year, month, day, hour, minute and second (UTC) of
/// the Unix time `secs`; none beyond chrono's range.
#[verifier::external_body]
fn civil_time(secs: i64) -> (r: Option<(i32, u32, u32, u32, u32, u32)>)
    ensures
        r == civil_of(secs),
{
    match chrono::DateTime::from_timestamp(secs, 0) {
        Some(t) => Some((
            chrono::Datelike::year(&t),
            chrono::Datelike::month(&t),
            chrono::Datelike::day(&t),
            chrono::Timelike::hour(&t),
            chrono::Timelike::minute(&t),
            chrono::Timelike::second(&t),
        )),
        None => None,
    }
}

/// Relies on heck's `SnakeCase::to_snake_case`: the snake case of `s`,
/// which depends on the characters of `s` alone.
#[verifier::external_body]
fn snake_case(s: &str) -> (r: String)
    ensures
        r@ == snake_of(s@),
{
    heck::SnakeCase::to_snake_case(s)
}

/// The decimal text of `n`, with a minus sign where it is negative.
pub open spec fn signed_decimal(n: int) -> Seq<char> {
    if n < 0 { seq!['-'] + decimal((-n) as nat) } else { decimal(n as nat) }
}

/// `s` led by zeros up to `width` characters.
pub open spec fn zero_padded(s: Seq<char>, width: nat) -> Seq<char> {
    if s.len() < width { Seq::new((width - s.len()) as nat, |i: int| '0') + s } else { s }
}

/// The decimal text of `n`, with a minus sign where it is negative.
fn signed_text(n: i64) -> (r: String)
    ensures
        r@ == signed_decimal(n as int),
{
    if n < 0 {
        let mut r = String::from_str("-");
        proof {
            reveal_strlit("-");
        }
        let magnitude: u64 = if n == i64::MIN { 0x8000_0000_0000_0000 } else { (-n) as u64 };
        let digits = u64_text(magnitude);
        r.append(digits.as_str());
        r
    } else {
        u64_text(n as u64)
    }
}

/// Append `s` to `out`, led by zeros up to `width` characters.
fn push_padded(out: &mut String, s: &str, width: usize)
    ensures
        final(out)@ == old(out)@ + zero_padded(s@, width as nat),
{
    let n = s.unicode_len();
    let mut i: usize = n;
    let ghost start = out@;
    while i < width
        invariant
            n == s@.len(),
            n <= i,
            n < width ==> i <= width,
            n >= width ==> i == n,
            start == old(out)@,
            out@ == start + Seq::new((i - n) as nat, |k: int| '0'),
        decreases width - i,
    {
        let ghost before = out@;
        out.append("0");
        proof {
            reveal_strlit("0");
            assert("0"@ =~= seq!['0']);
            assert(out@ =~= start + Seq::new((i + 1 - n) as nat, |k: int| '0'));
        }
        i = i + 1;
    }
    let ghost zeros = out@;
    out.append(s);
    proof {
        if n < width {
            assert(i == width);
            assert(zero_padded(s@, width as nat) == Seq::new((width - n) as nat, |k: int| '0') + s@);
        } else {
            assert(i == n);
            assert(zeros =~= start);
        }
        assert(out@ =~= old(out)@ + zero_padded(s@, width as nat));
    }
}

/// The time of the stem of a file name: `yyyymmdd-hhmmss` (UTC) of the
/// Unix time `secs`, or the decimal seconds where chrono has no date.
pub open spec fn stamp_text(secs: i64) -> Seq<char> {
    match civil_of(secs) {
        Some((y, mo, d, h, mi, s)) => zero_padded(signed_decimal(y as int), 4) + zero_padded(decimal(mo as nat), 2)
            + zero_padded(decimal(d as nat), 2) + seq!['-'] + zero_padded(decimal(h as nat), 2)
            + zero_padded(decimal(mi as nat), 2) + zero_padded(decimal(s as nat), 2),
        None => signed_decimal(secs as int),
    }
}

/// Append `stamp_text(secs)` to `out`.
fn push_stamp(out: &mut String, secs: i64)
    ensures
        final(out)@ == old(out)@ + stamp_text(secs),
{
    match civil_time(secs) {
        Some((y, mo, d, h, mi, s)) => {
            let t = signed_text(y as i64);
            push_padded(out, t.as_str(), 4);
            let t = u64_text(mo as u64);
            push_padded(out, t.as_str(), 2);
            let t = u64_text(d as u64);
            push_padded(out, t.as_str(), 2);
            out.append("-");
            proof {
                reveal_strlit("-");
            }
            let t = u64_text(h as u64);
            push_padded(out, t.as_str(), 2);
            let t = u64_text(mi as u64);
            push_padded(out, t.as_str(), 2);
            let t = u64_text(s as u64);
            push_padded(out, t.as_str(), 2);
            proof {
                assert(out@ =~= old(out)@ + stamp_text(secs));
            }
        },
        None => {
            let t = signed_text(secs);
            out.append(t.as_str());
        },
    }
}

impl AuctionFinished {
    /// The name of the file that keeps this auction of `channel`.
    pub open spec fn file_name_spec(&self, channel: Seq<char>) -> Seq<char> {
        let stem = "auction-"@ + skip_leading(channel, '#') + seq!['-'] + stamp_text((self.opened as int / 1000) as i64);
        match self.prize {
            Some(p) => stem + seq!['-'] + snake_of(p@) + ".toml"@,
            None => stem + ".toml"@,
        }
    }

    /// The name of the file that keeps this auction of `channel`:
    /// `auction-<channel>-<opened>[-<prize in snake case>].toml`.
    pub fn file_name(&self, channel: &str) -> (r: String)
        ensures
            r@ == self.file_name_spec(channel@),
    {
        let mut r = String::from_str("auction-");
        r.append(trim_start_char(channel, '#'));
        r.append("-");
        proof {
            reveal_strlit("-");
        }
        let secs = floor_div_1000(self.opened as i128) as i64;
        push_stamp(&mut r, secs);
        match &self.prize {
            Some(p) => {
                r.append("-");
                let snake = snake_case(p.as_str());
                r.append(snake.as_str());
            },
            None => {},
        }
        r.append(".toml");
        r
    }
}

} // verus!
