//! What the announcer says on each tick, the one-shot close of an expired
//! auction, and the resumption of an auction after the connection dropped.

use vstd::prelude::*;
use vstd::string::StringExecFns;
use crate::auction::{
    describe_text, prize_suffix, remaining_secs, sat_add, Auction,
};
use crate::text::{decimal, human_duration, humantime_of, money_text, number, usd};

verus! {

/// Whether `sec` seconds remaining is a moment for an automatic status line:
/// a set of landmarks up to an hour, then every whole hour up to a day, then
/// 36, 48 and 72 hours.
pub open spec fn is_announce_boundary(sec: u64) -> bool {
    ||| sec == 10 || sec == 15 || sec == 30 || sec == 60
    ||| sec == 120 || sec == 300 || sec == 600 || sec == 900 || sec == 1800 || sec == 3600
    ||| sec % 3600 == 0 && ({
        let h = sec / 3600;
        (1 <= h && h <= 24) || h == 36 || h == 48 || h == 72
    })
}

/// Whether `sec` seconds remaining calls for an automatic status line.
pub fn announce_time(sec: u64) -> (r: bool)
    ensures
        r == is_announce_boundary(sec),
{
    match sec {
        10 | 15 | 30 | 60 | 120 | 300 | 600 | 900 | 1800 | 3600 => true,
        _ => {
            if sec % 3600 == 0 {
                let h = sec / 3600;
                (1 <= h && h <= 24) || h == 36 || h == 48 || h == 72
            } else {
                false
            }
        },
    }
}

/// `s * 1000`, or the largest `u64` where that does not fit.
pub open spec fn secs_to_ms(s: int) -> u64 {
    if s * 1000 > u64::MAX { u64::MAX } else { (s * 1000) as u64 }
}

/// The line for a tick with `t` seconds on the displayed countdown, if any.
pub open spec fn tick_text(a: Auction, t: u64) -> Option<Seq<char>> {
    if 1 <= t && t <= 5 {
        Some("Auction: "@ + decimal(t as nat) + "..."@)
    } else if is_announce_boundary(t) {
        match a.leader() {
            Some(b) => Some(
                "Auction: "@ + decimal(t as nat) + " seconds remain. The current bid"@
                    + prize_suffix(a.prize) + " is "@ + money_text(b.amount as nat) + "."@,
            ),
            None => match a.prize {
                Some(p) => Some(
                    "Auction: "@ + decimal(t as nat) + " seconds remain to bid for "@ + p@ + "."@,
                ),
                None => Some("Auction: "@ + decimal(t as nat) + " seconds remain."@),
            },
        }
    } else {
        None
    }
}

/// The line that closes an auction: its winner, or that nobody bid.
pub open spec fn closing_text(a: Auction) -> Seq<char> {
    match a.leader() {
        Some(b) => "The "@ + describe_text(a.prize) + " has been won by @"@ + b.bidder@
            + ", with a bid of "@ + money_text(b.amount as nat) + "."@,
        None => "The "@ + describe_text(a.prize) + " has ended with no bids."@,
    }
}

/// What the announcer found in the slot on one tick.
pub enum AuctionStatus {
    /// An auction runs; with the line to send on this tick, if any.
    Active(Option<String>),
    /// The auction has closed: the closing line, and the auction taken out of the slot.
    Ended(String, Auction),
    /// No auction runs.
    Inactive,
}

/// The line for a tick with `t` seconds on the displayed countdown, if any.
fn tick_message(a: &Auction, t: u64) -> (r: Option<String>)
    ensures
        r is None <==> tick_text(*a, t) is None,
        r matches Some(m) ==> m@ == tick_text(*a, t)->0,
{
    if 1 <= t && t <= 5 {
        let mut m = String::from_str("Auction: ");
        let n = number(t);
        m.append(n.as_str());
        m.append("...");
        Some(m)
    } else if announce_time(t) {
        let n = number(t);
        let mut m = String::from_str("Auction: ");
        m.append(n.as_str());
        match a.last_bid() {
            Some(b) => {
                m.append(" seconds remain. The current bid");
                let suffix = a.for_prize();
                m.append(suffix.as_str());
                m.append(" is ");
                let amount = usd(b.amount);
                m.append(amount.as_str());
                m.append(".");
            },
            None => match &a.prize {
                Some(p) => {
                    m.append(" seconds remain to bid for ");
                    m.append(p.as_str());
                    m.append(".");
                },
                None => {
                    m.append(" seconds remain.");
                },
            },
        }
        Some(m)
    } else {
        None
    }
}

/// The line that closes `a`.
fn closing_message(a: &Auction) -> (r: String)
    ensures
        r@ == closing_text(*a),
{
    let mut m = String::from_str("The ");
    let name = a.describe();
    m.append(name.as_str());
    match a.last_bid() {
        Some(b) => {
            m.append(" has been won by @");
            m.append(b.bidder.as_str());
            m.append(", with a bid of ");
            let amount = usd(b.amount);
            m.append(amount.as_str());
            m.append(".");
        },
        None => {
            m.append(" has ended with no bids.");
        },
    }
    m
}

/// What one tick at clock reading `now` does: with the slot going from
/// `old` to `new`, it reports `r`.
pub open spec fn tick_effect(old: Option<Auction>, new: Option<Auction>, r: AuctionStatus, now: u64) -> bool {
    match old {
        None => r is Inactive && new is None,
        Some(a) => match remaining_secs(a.time_close, now) {
            Some(s) => {
                &&& new == old
                &&& r matches AuctionStatus::Active(m)
                &&& (m is None <==> tick_text(a, (s + 1) as u64) is None)
                &&& (m matches Some(t) ==> t@ == tick_text(a, (s + 1) as u64)->0)
            },
            None => {
                &&& new is None
                &&& r matches AuctionStatus::Ended(t, b)
                &&& t@ == closing_text(a)
                &&& b == a
            },
        },
    }
}

/// One tick of the announcer at clock reading `now`. A running auction
/// stays in the slot and may get a status line; an expired one is taken out
/// of the slot together with its closing line, so that it closes only once.
pub fn auction_check_at(lock: &mut Option<Auction>, now: u64) -> (r: AuctionStatus)
    ensures
        tick_effect(*old(lock), *final(lock), r, now),
{
    let text = match &*lock {
        None => {
            return AuctionStatus::Inactive;
        },
        Some(a) => match a.remaining_at(now) {
            Some(secs) => {
                return AuctionStatus::Active(tick_message(a, secs + 1));
            },
            None => closing_message(a),
        },
    };
    match lock.take() {
        Some(a) => AuctionStatus::Ended(text, a),
        None => AuctionStatus::Inactive,
    }
}

/// An auction closes once: after the tick that ended it, the slot is
/// empty, and every later tick finds nothing to announce.
pub proof fn lemma_closes_once(
    old: Option<Auction>,
    mid: Option<Auction>,
    new: Option<Auction>,
    r1: AuctionStatus,
    r2: AuctionStatus,
    t1: u64,
    t2: u64,
)
    requires
        tick_effect(old, mid, r1, t1),
        r1 is Ended,
        tick_effect(mid, new, r2, t2),
    ensures
        mid is None,
        new is None,
        r2 is Inactive,
{
}

/// One tick of the announcer, now.
pub fn auction_check(lock: &mut Option<Auction>) -> (r: AuctionStatus)
    ensures
        exists|now: u64| tick_effect(*old(lock), *final(lock), r, now),
{
    let now = match &*lock {
        Some(a) => a.now(),
        None => 0,
    };
    auction_check_at(lock, now)
}

/// Milliseconds between two ticks of the announcer.
pub const TICK_MS: u64 = 1000;

/// Milliseconds the announcer waits for the slot before it skips a tick.
pub const LOCK_WAIT_MS: u64 = 500;

/// The schedule after a tick planned at `scheduled`, at clock reading
/// `now`: the next tick comes one interval after the planned one (not after
/// `now`, so that the work of a tick does not make the schedule drift), and
/// the wait until it is never negative.
pub fn next_tick(scheduled: u64, now: u64) -> (r: (u64, u64))
    ensures
        r.0 == sat_add(scheduled as int, TICK_MS as int),
        r.1 == if r.0 >= now { (r.0 - now) as u64 } else { 0 },
{
    let next = scheduled.saturating_add(TICK_MS);
    let wait = if next >= now { next - now } else { 0 };
    (next, wait)
}

/// How a reconnected auction states who leads, or what the minimum is.
pub open spec fn standing_text(a: Auction) -> Seq<char> {
    match a.leader() {
        Some(b) => "The highest bidder is currently @"@ + b.bidder@ + " at "@ + money_text(b.amount as nat),
        None => "The minimum bid is "@ + money_text(a.min_bid as nat),
    }
}

/// The milliseconds shown as left at `now`: the displayed countdown
/// (whole seconds plus one), or nothing once the close has passed.
pub open spec fn shown_left_ms(a: Auction, now: u64) -> u64 {
    match remaining_secs(a.time_close, now) {
        Some(s) => secs_to_ms(s + 1),
        None => 0,
    }
}

/// The line sent when an auction resumes after the connection dropped.
pub open spec fn resume_text(a: Auction, now: u64) -> Seq<char> {
    "Sorry, it seems I lost connection for a moment. No problem though, I can continue the "@
        + describe_text(a.prize) + " from where it left off. "@ + standing_text(a) + ", with "@
        + humantime_of(shown_left_ms(a, now)) + " remaining."@
}

/// Resume `auction` at clock reading `now` after `downtime` milliseconds
/// without a connection: the close moves back by the downtime, and the
/// returned line tells the channel where the auction stands.
pub fn resume_at(auction: &mut Auction, downtime: u64, now: u64) -> (r: String)
    ensures
        old(auction).delayed_by(*final(auction), downtime),
        r@ == resume_text(*final(auction), now),
{
    auction.add_time(downtime);
    let mut m = String::from_str(
        "Sorry, it seems I lost connection for a moment. No problem though, I can continue the ",
    );
    let name = auction.describe();
    m.append(name.as_str());
    m.append(" from where it left off. ");
    match auction.last_bid() {
        Some(b) => {
            m.append("The highest bidder is currently @");
            m.append(b.bidder.as_str());
            m.append(" at ");
            let amount = usd(b.amount);
            m.append(amount.as_str());
        },
        None => {
            m.append("The minimum bid is ");
            let amount = usd(auction.min_bid);
            m.append(amount.as_str());
        },
    }
    m.append(", with ");
    let left = match auction.remaining_at(now) {
        Some(s) => if s < u64::MAX / 1000 { (s + 1) * 1000 } else { u64::MAX },
        None => 0,
    };
    let time = human_duration(left);
    m.append(time.as_str());
    m.append(" remaining.");
    m
}

/// Resume `auction` now, after `downtime` milliseconds without a connection.
pub fn resume(auction: &mut Auction, downtime: u64) -> (r: String)
    ensures
        old(auction).delayed_by(*final(auction), downtime),
        exists|now: u64| r@ == resume_text(*final(auction), now),
{
    let now = auction.now();
    resume_at(auction, downtime, now)
}

} // verus!
