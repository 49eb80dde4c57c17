//! The auction engine: a ledger of accepted bids, the rules a new bid must
//! pass, the anti-snipe window and the countdown to the close.
//!
//! Instants are milliseconds of a monotonic clock counted from the moment
//! the auction was created; `duration` and `helmet` are whole seconds.

use vstd::prelude::*;
use vstd::string::StringExecFns;
use crate::saving::{clamp_i64, ms_before, round_second, round_to_second, sat_sub, time_before, AuctionFinished};
use crate::text::{eq_ignore_ascii_case, eq_ignore_case, human_duration, humantime_of, money_text, usd};

verus! {

#[verifier::external_type_specification]
#[verifier::external_body]
pub struct ExInstant(std::time::Instant);

/// Relies on `Instant::now`: a reading of the monotonic clock.
#[verifier::external_body]
fn instant_now() -> std::time::Instant {
    std::time::Instant::now()
}

/// Relies on `Instant::elapsed`: the whole milliseconds since `origin`.
#[verifier::external_body]
fn millis_since(origin: &std::time::Instant) -> u64 {
    origin.elapsed().as_millis() as u64
}

/// An accepted bid.
pub struct Bid {
    pub amount: usize,
    pub bidder: String,
    /// UTC milliseconds since the Unix epoch at which the bid was accepted.
    pub time: i64,
}

/// The leader of a finished auction, and how many bids they made.
pub struct Winner {
    pub name: String,
    pub amount: usize,
    pub bid_count: usize,
}

/// The outcome of a bid.
#[derive(Clone, Copy, Debug, PartialEq, Eq, Structural)]
pub enum BidResult {
    /// Accepted; `first` tells whether it opened the bidding.
    Accepted { first: bool },
    /// Refused: the bidder already leads, at this amount.
    RepeatBidder(usize),
    /// Refused: the raise exceeds this limit.
    AboveMaximum(usize),
    /// Refused: the bid is under this minimum.
    BelowMinimum(usize),
    /// Refused: the bid does not exceed the leading amount, given here.
    DoesNotRaise(usize),
}

/// One running auction.
pub struct Auction {
    /// Accepted bids, oldest first; the last one leads.
    pub bids: Vec<Bid>,
    pub prize: Option<String>,
    /// Planned length, in seconds.
    pub duration: u64,
    /// Anti-snipe window, in seconds.
    pub helmet: u64,
    pub max_raise: usize,
    pub min_bid: usize,
    /// Clock reading, in milliseconds, at which the auction opened.
    pub time_begin: u64,
    /// Clock reading, in milliseconds, at which the auction closes.
    pub time_close: u64,
    /// The instant that clock reading 0 stands for.
    pub origin: std::time::Instant,
}

/// `a + b`, or the largest `u64` where that does not fit.
pub open spec fn sat_add(a: int, b: int) -> u64 {
    if a + b > u64::MAX { u64::MAX } else { (a + b) as u64 }
}

/// The close after a bid accepted at `now`: no earlier than `helmet`
/// seconds after `now`, and never earlier than before.
pub open spec fn deflected_close(close: u64, now: u64, helmet: u64) -> u64 {
    let floor = sat_add(now as int, helmet * 1000);
    if close < floor { floor } else { close }
}

/// Whole seconds from `now` to `close`, or none once `close` has passed.
pub open spec fn remaining_secs(close: u64, now: u64) -> Option<u64> {
    if now <= close { Some(((close - now) / 1000) as u64) } else { None }
}

/// " for <prize>" where a prize is set, else nothing.
pub open spec fn prize_suffix(prize: Option<String>) -> Seq<char> {
    match prize {
        Some(p) => " for "@ + p@,
        None => Seq::empty(),
    }
}

/// "Auction", followed by the prize where one is set.
pub open spec fn describe_text(prize: Option<String>) -> Seq<char> {
    "Auction"@ + prize_suffix(prize)
}

/// The opening announcement, given how the time, the prefix, the verb and
/// the minimum bid are written.
pub open spec fn explain_text(time: Seq<char>, prefix: Seq<char>, verb: Seq<char>, min_bid: Seq<char>) -> Seq<char> {
    "ATTENTION: An Auction will now run for "@ + time + ". Submit a bid by posting '"@ + prefix
        + "bid <amount>'. Focus on this chat, NOT any 'live' video, since there may be a delay. \
            I will confirm bids in chat. At the end, I will do a final countdown, after which the \
            Auction will be over. The person with the highest bid at that time will be the winner, \
            and they will have to "@
        + verb + " that amount in order to claim their prize. Bidding starts at "@ + min_bid
        + ", and is NOW OPEN."@
}

/// How many of `bids` were made by `name`, without regard to ASCII case.
pub open spec fn bids_by(bids: Seq<Bid>, name: Seq<char>) -> nat
    decreases bids.len(),
{
    if bids.len() == 0 {
        0
    } else {
        bids_by(bids.drop_last(), name) + if eq_ignore_case(bids.last().bidder@, name) { 1nat } else { 0nat }
    }
}

impl Auction {
    /// The leading bid, if any.
    pub open spec fn leader(&self) -> Option<Bid> {
        if self.bids@.len() == 0 { None } else { Some(self.bids@.last()) }
    }

    /// Amounts rise strictly along the ledger.
    pub open spec fn wf(&self) -> bool {
        forall|i: int, j: int|
            0 <= i < j < self.bids@.len() ==> #[trigger] self.bids@[i].amount < #[trigger] self.bids@[j].amount
    }

    /// The outcome of a bid of `amount` by `name`, under the rules.
    pub open spec fn outcome(&self, name: Seq<char>, amount: usize) -> BidResult {
        match self.leader() {
            Some(cur) => {
                if eq_ignore_case(name, cur.bidder@) {
                    BidResult::RepeatBidder(cur.amount)
                } else if amount <= cur.amount {
                    BidResult::DoesNotRaise(cur.amount)
                } else if amount - cur.amount > self.max_raise {
                    BidResult::AboveMaximum(self.max_raise)
                } else if amount < self.min_bid {
                    BidResult::BelowMinimum(self.min_bid)
                } else {
                    BidResult::Accepted { first: false }
                }
            },
            None => {
                if amount > self.min_bid + self.max_raise {
                    BidResult::AboveMaximum(self.max_raise)
                } else if amount < self.min_bid {
                    BidResult::BelowMinimum(self.min_bid)
                } else {
                    BidResult::Accepted { first: true }
                }
            },
        }
    }

    /// What a bid of `amount` by `name` at `now`, stamped `stamp`, makes
    /// of this auction (`new`): an accepted bid is appended and may push the
    /// close back; a refused one changes nothing.
    pub open spec fn bid_effect(&self, new: Auction, name: Seq<char>, amount: usize, now: u64, stamp: i64) -> bool {
        if self.outcome(name, amount) is Accepted {
            &&& new.bids@.len() == self.bids@.len() + 1
            &&& new.bids@.drop_last() == self.bids@
            &&& new.bids@.last().amount == amount
            &&& new.bids@.last().bidder@ == name
            &&& new.bids@.last().time == stamp
            &&& new.time_close == deflected_close(self.time_close, now, self.helmet)
            &&& new.prize == self.prize
            &&& new.duration == self.duration
            &&& new.helmet == self.helmet
            &&& new.max_raise == self.max_raise
            &&& new.min_bid == self.min_bid
            &&& new.time_begin == self.time_begin
            &&& new.origin == self.origin
        } else {
            new == *self
        }
    }

    /// `new` is this auction with its close pushed back by `time`
    /// milliseconds (to the clock's end at most), and nothing else changed.
    pub open spec fn delayed_by(&self, new: Auction, time: u64) -> bool {
        &&& new.time_close == sat_add(self.time_close as int, time as int)
        &&& new.bids == self.bids
        &&& new.prize == self.prize
        &&& new.duration == self.duration
        &&& new.helmet == self.helmet
        &&& new.max_raise == self.max_raise
        &&& new.min_bid == self.min_bid
        &&& new.time_begin == self.time_begin
        &&& new.origin == self.origin
    }

    /// Open an auction now, closing `duration` seconds from now.
    pub fn new(
        duration: u64,
        helmet: u64,
        max_raise: usize,
        min_bid: usize,
        prize: Option<String>,
    ) -> (r: Self)
        ensures
            r.bids@.len() == 0,
            r.prize == prize,
            r.duration == duration,
            r.helmet == helmet,
            r.max_raise == max_raise,
            r.min_bid == min_bid,
            r.time_begin == 0,
            r.time_close == sat_add(0, duration * 1000),
            r.wf(),
    {
        let close = if duration <= u64::MAX / 1000 { duration * 1000 } else { u64::MAX };
        Auction {
            bids: Vec::new(),
            prize,
            duration,
            helmet,
            max_raise,
            min_bid,
            time_begin: 0,
            time_close: close,
            origin: instant_now(),
        }
    }

    /// The current reading of this auction's clock, in milliseconds.
    pub fn now(&self) -> u64 {
        millis_since(&self.origin)
    }

    /// Push the close back by `time` milliseconds (to the clock's end at most).
    pub fn add_time(&mut self, time: u64)
        ensures
            old(self).delayed_by(*final(self), time),
    {
        self.time_close = self.time_close.saturating_add(time);
    }

    /// Make sure that at least `helmet` seconds of bidding are left after
    /// `now`: a nearer close is moved to exactly `helmet` seconds after
    /// `now` (not pushed back by a further `helmet`), so that bids in quick
    /// succession cannot run the close away.
    fn deflect_sniper(&mut self, now: u64)
        ensures
            final(self).time_close == deflected_close(old(self).time_close, now, old(self).helmet),
            final(self).bids@ == old(self).bids@,
            final(self).prize == old(self).prize,
            final(self).duration == old(self).duration,
            final(self).helmet == old(self).helmet,
            final(self).max_raise == old(self).max_raise,
            final(self).min_bid == old(self).min_bid,
            final(self).time_begin == old(self).time_begin,
            final(self).origin == old(self).origin,
    {
        let window = if self.helmet <= u64::MAX / 1000 { self.helmet * 1000 } else { u64::MAX };
        let floor = now.saturating_add(window);
        if self.time_close < floor {
            self.time_close = floor;
        }
    }

    /// Bid `amount` as `name` at clock reading `now`, stamping an accepted
    /// bid with `stamp` (UTC milliseconds).
    pub fn bid_at(&mut self, name: &str, amount: usize, now: u64, stamp: i64) -> (r: BidResult)
        ensures
            r == old(self).outcome(name@, amount),
            old(self).bid_effect(*final(self), name@, amount, now, stamp),
            old(self).wf() ==> final(self).wf(),
    {
        let first: bool;
        let n = self.bids.len();
        if n > 0 {
            let current = &self.bids[n - 1];
            if eq_ignore_ascii_case(name, current.bidder.as_str()) {
                return BidResult::RepeatBidder(current.amount);
            }
            if amount <= current.amount {
                return BidResult::DoesNotRaise(current.amount);
            }
            if self.max_raise < amount - current.amount {
                return BidResult::AboveMaximum(self.max_raise);
            }
            first = false;
        } else {
            if amount > self.min_bid && amount - self.min_bid > self.max_raise {
                return BidResult::AboveMaximum(self.max_raise);
            }
            first = true;
        }
        if amount < self.min_bid {
            BidResult::BelowMinimum(self.min_bid)
        } else {
            let ghost before = self.bids@;
            self.bids.push(Bid { amount, bidder: name.to_owned(), time: stamp });
            proof {
                assert(self.bids@.drop_last() =~= before);
            }
            self.deflect_sniper(now);
            BidResult::Accepted { first }
        }
    }

    /// Bid `amount` as `name` now, stamping an accepted bid with the UTC
    /// time `stamp` (milliseconds since the Unix epoch) that the caller read.
    pub fn bid(&mut self, name: &str, amount: usize, stamp: i64) -> (r: BidResult)
        ensures
            r == old(self).outcome(name@, amount),
            exists|now: u64| old(self).bid_effect(*final(self), name@, amount, now, stamp),
            old(self).wf() ==> final(self).wf(),
    {
        let now = self.now();
        self.bid_at(name, amount, now, stamp)
    }

    /// The leading bid, if any.
    pub fn last_bid(&self) -> (r: Option<&Bid>)
        ensures
            self.bids@.len() == 0 ==> r is None,
            self.bids@.len() > 0 ==> (r matches Some(b) && *b == self.bids@.last()),
    {
        let n = self.bids.len();
        if n == 0 {
            None
        } else {
            Some(&self.bids[n - 1])
        }
    }

    /// Whole seconds left at clock reading `now`; none once the close has passed.
    pub fn remaining_at(&self, now: u64) -> (r: Option<u64>)
        ensures
            r == remaining_secs(self.time_close, now),
    {
        if now <= self.time_close {
            Some((self.time_close - now) / 1000)
        } else {
            None
        }
    }

    /// Whole seconds left now; none once the close has passed.
    pub fn remaining(&self) -> (r: Option<u64>)
        ensures
            exists|now: u64| r == remaining_secs(self.time_close, now),
    {
        let now = self.now();
        let r = self.remaining_at(now);
        assert(r == remaining_secs(self.time_close, now));
        r
    }

    /// " for <prize>" where a prize is set, else nothing.
    pub fn for_prize(&self) -> (r: String)
        ensures
            r@ == prize_suffix(self.prize),
    {
        match &self.prize {
            Some(p) => {
                let mut r = String::from_str(" for ");
                r.append(p.as_str());
                r
            },
            None => String::new(),
        }
    }

    /// "Auction", followed by the prize where one is set.
    pub fn describe(&self) -> (r: String)
        ensures
            r@ == describe_text(self.prize),
    {
        let mut r = String::from_str("Auction");
        let suffix = self.for_prize();
        r.append(suffix.as_str());
        r
    }

    /// The announcement that opens the auction, telling users to bid with
    /// `prefix` and that the winner will have to `verb` the amount.
    pub fn explain(&self, prefix: &str, verb: &str) -> (r: String)
        ensures
            r@ == explain_text(
                humantime_of(if self.time_close >= self.time_begin { (self.time_close - self.time_begin) as u64 } else { 0 }),
                prefix@,
                verb@,
                money_text(self.min_bid as nat),
            ),
    {
        let span = if self.time_close >= self.time_begin { self.time_close - self.time_begin } else { 0 };
        let time = human_duration(span);
        let min_bid = usd(self.min_bid);
        let mut r = String::from_str("ATTENTION: An Auction will now run for ");
        r.append(time.as_str());
        r.append(". Submit a bid by posting '");
        r.append(prefix);
        r.append("bid <amount>'. Focus on this chat, NOT any 'live' video, since there may be a delay. \
            I will confirm bids in chat. At the end, I will do a final countdown, after which the \
            Auction will be over. The person with the highest bid at that time will be the winner, \
            and they will have to ");
        r.append(verb);
        r.append(" that amount in order to claim their prize. Bidding starts at ");
        r.append(min_bid.as_str());
        r.append(", and is NOW OPEN.");
        r
    }

    /// The leader and the number of bids they made (names compared without
    /// regard to ASCII case); none where nobody bid.
    pub fn winner(&self) -> (r: Option<Winner>)
        ensures
            self.bids@.len() == 0 ==> r is None,
            self.bids@.len() > 0 ==> (r matches Some(w) && {
                &&& w.name@ == self.bids@.last().bidder@
                &&& w.amount == self.bids@.last().amount
                &&& w.bid_count == bids_by(self.bids@, self.bids@.last().bidder@)
            }),
    {
        let n = self.bids.len();
        if n == 0 {
            return None;
        }
        let leader = &self.bids[n - 1];
        let mut count: usize = 0;
        let mut i: usize = 0;
        while i < n
            invariant
                n == self.bids@.len(),
                n > 0,
                *leader == self.bids@[n - 1],
                i <= n,
                count == bids_by(self.bids@.subrange(0, i as int), leader.bidder@),
                count <= i,
            decreases n - i,
        {
            let b = &self.bids[i];
            proof {
                assert(self.bids@.subrange(0, i + 1).drop_last() =~= self.bids@.subrange(0, i as int));
            }
            if eq_ignore_ascii_case(b.bidder.as_str(), leader.bidder.as_str()) {
                count = count + 1;
            }
            i = i + 1;
        }
        proof {
            assert(self.bids@.subrange(0, n as int) =~= self.bids@);
        }
        Some(Winner { name: leader.bidder.clone(), amount: leader.amount, bid_count: count })
    }

    /// The record of this auction once finished at clock reading `now`,
    /// which is UTC time `utc` (milliseconds since the Unix epoch).
    pub fn finish_at(self, now: u64, utc: i64) -> (r: AuctionFinished)
        ensures
            r.prize == self.prize,
            r.minimum_bid == self.min_bid,
            r.raise_limit == self.max_raise,
            r.duration == self.duration,
            r.helmet == self.helmet,
            r.opened == clamp_i64(round_second(ms_before(utc, sat_sub(now, self.time_begin)) as int)),
            r.closed == clamp_i64(round_second(ms_before(utc, sat_sub(now, self.time_close)) as int)),
            r.bids@ == self.bids@,
            self.bids@.len() == 0 ==> r.winner is None,
            self.bids@.len() > 0 ==> (r.winner matches Some(w) && {
                &&& w.name@ == self.bids@.last().bidder@
                &&& w.amount == self.bids@.last().amount
                &&& w.bid_count == bids_by(self.bids@, self.bids@.last().bidder@)
            }),
    {
        let winner = self.winner();
        let since_begin = if now >= self.time_begin { now - self.time_begin } else { 0 };
        let since_close = if now >= self.time_close { now - self.time_close } else { 0 };
        let opened = round_to_second(time_before(utc, since_begin));
        let closed = round_to_second(time_before(utc, since_close));
        AuctionFinished {
            prize: self.prize,
            minimum_bid: self.min_bid,
            raise_limit: self.max_raise,
            duration: self.duration,
            helmet: self.helmet,
            opened,
            closed,
            winner,
            bids: self.bids,
        }
    }

    /// The record of this auction, finished now, which is UTC time `utc`
    /// (milliseconds since the Unix epoch) as the caller read it.
    pub fn finish(self, utc: i64) -> (r: AuctionFinished)
        ensures
            r.prize == self.prize,
            r.minimum_bid == self.min_bid,
            r.raise_limit == self.max_raise,
            r.duration == self.duration,
            r.helmet == self.helmet,
            r.bids@ == self.bids@,
            exists|now: u64| {
                &&& r.opened == clamp_i64(round_second(ms_before(utc, sat_sub(now, self.time_begin)) as int))
                &&& r.closed == clamp_i64(round_second(ms_before(utc, sat_sub(now, self.time_close)) as int))
            },
            self.bids@.len() == 0 ==> r.winner is None,
            self.bids@.len() > 0 ==> (r.winner matches Some(w) && {
                &&& w.name@ == self.bids@.last().bidder@
                &&& w.amount == self.bids@.last().amount
                &&& w.bid_count == bids_by(self.bids@, self.bids@.last().bidder@)
            }),
    {
        let now = self.now();
        self.finish_at(now, utc)
    }
}

/// `a` is no later than `b`, where none means the close has passed.
pub open spec fn remaining_le(a: Option<u64>, b: Option<u64>) -> bool {
    match (a, b) {
        (None, _) => true,
        (Some(x), Some(y)) => x <= y,
        (Some(_), None) => false,
    }
}

/// As the clock advances with the close left alone, the time remaining never
/// grows; and an accepted bid never brings the close nearer, nor moves a
/// close that is `helmet` seconds away or more.
pub proof fn lemma_remaining_non_increasing(close: u64, helmet: u64, t1: u64, t2: u64)
    requires
        t1 <= t2,
    ensures
        remaining_le(remaining_secs(close, t2), remaining_secs(close, t1)),
        deflected_close(close, t2, helmet) >= close,
        close >= t2 + helmet * 1000 ==> deflected_close(close, t2, helmet) == close,
{
    if t2 <= close {
        assert((close - t2) / 1000 <= (close - t1) / 1000) by (nonlinear_arith)
            requires t1 <= t2 <= close;
    }
}

/// The refusals: a bid by the leader (ASCII case aside) is a repeat; a bid
/// that does not exceed the leading amount does not raise; a raise beyond
/// the limit (for a first bid, beyond minimum plus limit) is above the
/// maximum, however far under the minimum the bid may be. A refused bid
/// leaves the auction as it was.
pub proof fn lemma_refusals(a: Auction, new: Auction, name: Seq<char>, amount: usize, now: u64, stamp: i64)
    requires
        a.bid_effect(new, name, amount, now, stamp),
    ensures
        match a.leader() {
            Some(cur) => {
                &&& eq_ignore_case(name, cur.bidder@) ==> a.outcome(name, amount) == BidResult::RepeatBidder(cur.amount)
                &&& !eq_ignore_case(name, cur.bidder@) && amount <= cur.amount
                    ==> a.outcome(name, amount) == BidResult::DoesNotRaise(cur.amount)
                &&& !eq_ignore_case(name, cur.bidder@) && amount > cur.amount && amount - cur.amount > a.max_raise
                    ==> a.outcome(name, amount) == BidResult::AboveMaximum(a.max_raise)
            },
            None => amount > a.min_bid + a.max_raise ==> a.outcome(name, amount) == BidResult::AboveMaximum(a.max_raise),
        },
        !(a.outcome(name, amount) is Accepted) ==> new == a,
{
}

/// Each accepted bid raises strictly over the bid that led before it, so the
/// leading amount strictly increases along any run of accepted bids.
pub proof fn lemma_accepted_bid_raises(a: Auction, name: Seq<char>, amount: usize)
    requires
        a.outcome(name, amount) is Accepted,
        a.leader() is Some,
    ensures
        amount > a.leader()->0.amount,
        amount - a.leader()->0.amount <= a.max_raise,
        amount >= a.min_bid,
{
}

/// After a bid accepted at `now`, at least `helmet` whole seconds remain at
/// `now`, however little was left before: a nearer close is moved to exactly
/// `helmet` seconds after `now` (so exactly `helmet` seconds remain), and a
/// farther one is kept (where the clock does not reach its end within the
/// window).
pub proof fn lemma_anti_snipe(a: Auction, new: Auction, name: Seq<char>, amount: usize, now: u64, stamp: i64)
    requires
        a.bid_effect(new, name, amount, now, stamp),
        a.outcome(name, amount) is Accepted,
        now + a.helmet * 1000 <= u64::MAX,
    ensures
        remaining_secs(new.time_close, now) matches Some(r) && r >= a.helmet,
        a.time_close < now + a.helmet * 1000 ==> new.time_close == now + a.helmet * 1000
            && remaining_secs(new.time_close, now) == Some(a.helmet),
        a.time_close >= now + a.helmet * 1000 ==> new.time_close == a.time_close,
{
    let c = new.time_close;
    assert(c >= now + a.helmet * 1000);
    assert((c - now) / 1000 >= a.helmet) by (nonlinear_arith)
        requires c - now >= a.helmet * 1000;
    if a.time_close < now + a.helmet * 1000 {
        assert((c - now) / 1000 == a.helmet) by (nonlinear_arith)
            requires c - now == a.helmet * 1000;
    }
}

/// Pushing the close back by `time` (with `add_time`, or on resuming after
/// a lost connection) never shortens what remains, and adds `time` to it
/// before whole seconds are taken (where the clock does not reach its end).
pub proof fn lemma_delay_extends(a: Auction, new: Auction, time: u64, now: u64)
    requires
        a.delayed_by(new, time),
        a.time_close + time <= u64::MAX,
    ensures
        remaining_le(remaining_secs(a.time_close, now), remaining_secs(new.time_close, now)),
        now <= a.time_close ==> remaining_secs(new.time_close, now)
            == Some((((a.time_close - now) + time) / 1000) as u64),
{
    if now <= a.time_close {
        assert((a.time_close - now) / 1000 <= ((a.time_close - now) + time) / 1000) by (nonlinear_arith)
            requires now <= a.time_close, time >= 0;
    }
}

} // verus!
