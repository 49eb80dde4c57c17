//! The chat commands that drive an auction: what each one replies, and what
//! it does to the channel's auction slot.

use vstd::prelude::*;
use vstd::string::StringExecFns;
use crate::announce::secs_to_ms;
use crate::auction::{describe_text, explain_text, remaining_secs, sat_add, Auction, BidResult};
use crate::client::Response;
use crate::config::Config;
use crate::text::{decimal, human_duration, humantime_of, money_text, number, str_eq, usd};
use crate::util::{after_words, skip_leading, skip_words, trim, trim_start_char, trimmed, unquote, unquoted, words_view};

verus! {

/// The value of a run of decimal digits.
pub open spec fn digits_value(s: Seq<char>) -> int
    decreases s.len(),
{
    if s.len() == 0 {
        0
    } else {
        digits_value(s.drop_last()) * 10 + (s.last() as u32 - '0' as u32)
    }
}

/// Every character of `s` is an ASCII digit.
pub open spec fn all_digits(s: Seq<char>) -> bool {
    forall|i: int| 0 <= i < s.len() ==> '0' <= #[trigger] s[i] && s[i] <= '9'
}

/// The number that `s` writes in decimal, after an optional `+`, where it
/// has at least one digit, nothing else, and is at most `max`.
pub open spec fn parsed_number(s: Seq<char>, max: int) -> Option<int> {
    let d = if s.len() > 0 && s[0] == '+' { s.drop_first() } else { s };
    if d.len() > 0 && all_digits(d) && digits_value(d) <= max {
        Some(digits_value(d))
    } else {
        None
    }
}

/// `parsed_number` as a `usize`.
pub open spec fn parsed_usize(s: Seq<char>) -> Option<usize> {
    match parsed_number(s, usize::MAX as int) {
        Some(n) => Some(n as usize),
        None => None,
    }
}

/// `parsed_number` as a `u64`.
pub open spec fn parsed_u64(s: Seq<char>) -> Option<u64> {
    match parsed_number(s, u64::MAX as int) {
        Some(n) => Some(n as u64),
        None => None,
    }
}

/// Relies on `str::parse::<usize>`: an optional `+` and then ASCII digits
/// only, at least one, whose value fits; anything else is an error.
#[verifier::external_body]
fn parse_usize(s: &str) -> (r: Option<usize>)
    ensures
        r == parsed_usize(s@),
{
    s.parse::<usize>().ok()
}

/// Relies on `str::parse::<u64>`: an optional `+` and then ASCII digits
/// only, at least one, whose value fits; anything else is an error.
#[verifier::external_body]
fn parse_u64(s: &str) -> (r: Option<u64>)
    ensures
        r == parsed_u64(s@),
{
    s.parse::<u64>().ok()
}

/// The amount a `bid` command offers: quotes and leading dollar signs
/// removed, then read as a whole number.
pub fn parse_bid(value: &str) -> (r: Option<usize>)
    ensures
        r == parsed_usize(skip_leading(unquoted(value@), '$')),
{
    let v = unquote(value);
    let v = trim_start_char(v, '$');
    parse_usize(v)
}

/// The reply to the status command.
pub open spec fn status_text(a: Auction, now: u64) -> Seq<char> {
    let time = humantime_of(
        match remaining_secs(a.time_close, now) {
            Some(s) => secs_to_ms(s as int),
            None => 0,
        },
    );
    match a.leader() {
        None => "The "@ + describe_text(a.prize) + " still has "@ + time
            + " remaining. The minimum bid is "@ + money_text(a.min_bid as nat)
            + ", but there have not been any bids yet."@,
        Some(b) => "The "@ + describe_text(a.prize) + " still has "@ + time
            + " remaining. The leader is currently "@ + b.bidder@ + ", who bids "@
            + money_text(b.amount as nat) + "."@,
    }
}

/// The reply to the status command, at clock reading `now`.
pub fn status_reply(a: &Auction, now: u64) -> (r: Response)
    ensures
        r@ == (true, status_text(*a, now)),
{
    let ms = match a.remaining_at(now) {
        Some(s) => if s <= u64::MAX / 1000 { s * 1000 } else { u64::MAX },
        None => 0,
    };
    let time = human_duration(ms);
    let mut m = String::from_str("The ");
    let name = a.describe();
    m.append(name.as_str());
    m.append(" still has ");
    m.append(time.as_str());
    match a.last_bid() {
        None => {
            m.append(" remaining. The minimum bid is ");
            let min = usd(a.min_bid);
            m.append(min.as_str());
            m.append(", but there have not been any bids yet.");
        },
        Some(b) => {
            m.append(" remaining. The leader is currently ");
            m.append(b.bidder.as_str());
            m.append(", who bids ");
            let amount = usd(b.amount);
            m.append(amount.as_str());
            m.append(".");
        },
    }
    Response::Reply(m)
}

/// How a bid of `amount` by `author` with outcome `result` is answered.
pub open spec fn bid_reply_view(result: BidResult, author: Seq<char>, amount: usize) -> (bool, Seq<char>) {
    match result {
        BidResult::Accepted { first } => (
            false,
            (if first { "FIRST"@ } else { "NEW"@ }) + " BID: @"@ + author + " has bid "@
                + money_text(amount as nat) + "."@,
        ),
        BidResult::RepeatBidder(b) => (true, "You are already the top bidder at "@ + money_text(b as nat) + "."@),
        BidResult::AboveMaximum(m) => (true, "You can only raise by a maximum of "@ + money_text(m as nat) + "."@),
        BidResult::BelowMinimum(m) => (true, "The minimum bid is "@ + money_text(m as nat) + "."@),
        BidResult::DoesNotRaise(c) => (true, "The current bid is "@ + money_text(c as nat) + "."@),
    }
}

/// The answer to a bid of `amount` by `author` with outcome `result`.
pub fn bid_reply(result: BidResult, author: &str, amount: usize) -> (r: Response)
    ensures
        r@ == bid_reply_view(result, author@, amount),
{
    match result {
        BidResult::Accepted { first } => {
            let mut m = if first { String::from_str("FIRST") } else { String::from_str("NEW") };
            m.append(" BID: @");
            m.append(author);
            m.append(" has bid ");
            let a = usd(amount);
            m.append(a.as_str());
            m.append(".");
            Response::Message(m)
        },
        BidResult::RepeatBidder(b) => {
            let mut m = String::from_str("You are already the top bidder at ");
            let a = usd(b);
            m.append(a.as_str());
            m.append(".");
            Response::Reply(m)
        },
        BidResult::AboveMaximum(x) => {
            let mut m = String::from_str("You can only raise by a maximum of ");
            let a = usd(x);
            m.append(a.as_str());
            m.append(".");
            Response::Reply(m)
        },
        BidResult::BelowMinimum(x) => {
            let mut m = String::from_str("The minimum bid is ");
            let a = usd(x);
            m.append(a.as_str());
            m.append(".");
            Response::Reply(m)
        },
        BidResult::DoesNotRaise(c) => {
            let mut m = String::from_str("The current bid is ");
            let a = usd(c);
            m.append(a.as_str());
            m.append(".");
            Response::Reply(m)
        },
    }
}

/// The reply to the config command in `channel`.
pub open spec fn config_text(config: Config, channel: Seq<char>) -> Seq<char> {
    "Auction length is "@ + decimal(config.duration_spec(channel) as nat) + " seconds. Helmet value is "@
        + decimal(config.helmet_spec(channel) as nat) + " seconds. Minimum bid is "@
        + money_text(config.min_bid_spec(channel) as nat) + ". Maximum raise is "@
        + money_text(config.max_raise_spec(channel) as nat) + "."@
}

/// The reply to the config command in `channel`: the auction settings there.
pub fn config_reply(config: &Config, channel: &str) -> (r: Response)
    ensures
        r@ == (true, config_text(*config, channel@)),
{
    let mut m = String::from_str("Auction length is ");
    let d = number(config.duration(channel));
    m.append(d.as_str());
    m.append(" seconds. Helmet value is ");
    let h = number(config.helmet(channel));
    m.append(h.as_str());
    m.append(" seconds. Minimum bid is ");
    let min = usd(config.min_bid(channel));
    m.append(min.as_str());
    m.append(". Maximum raise is ");
    let max = usd(config.max_raise(channel));
    m.append(max.as_str());
    m.append(".");
    Response::Reply(m)
}

/// The settings of a new auction: length and anti-snipe window (seconds),
/// largest raise, smallest bid, the verb for the winner, and the prize.
pub struct StartOptions {
    pub duration: u64,
    pub helmet: u64,
    pub max_raise: usize,
    pub min_bid: usize,
    pub verb: String,
    pub prize: Option<String>,
}

/// Settings in the making: length, window, raise, minimum, verb, prize.
pub type StartPlan = (u64, u64, usize, usize, Seq<char>, Option<Seq<char>>);

/// The settings after reading the flags of `args` from position `i`: each
/// flag takes the word after it; a number that does not parse is ignored,
/// and so is an unknown flag.
pub open spec fn apply_flags(args: Seq<Seq<char>>, i: int, p: StartPlan) -> StartPlan
    decreases args.len() - i,
{
    if i < 0 || i >= args.len() {
        p
    } else {
        let f = args[i];
        let more = i + 1 < args.len();
        if f == "-d"@ || f == "-t"@ || f == "--time"@ {
            if !more { p } else {
                apply_flags(args, i + 2, match parsed_u64(args[i + 1]) {
                    Some(v) => (v, p.1, p.2, p.3, p.4, p.5),
                    None => p,
                })
            }
        } else if f == "-h"@ || f == "--helm"@ || f == "--helmet"@ {
            if !more { p } else {
                apply_flags(args, i + 2, match parsed_u64(args[i + 1]) {
                    Some(v) => (p.0, v, p.2, p.3, p.4, p.5),
                    None => p,
                })
            }
        } else if f == "-r"@ || f == "--raise"@ || f == "--limit"@ {
            if !more { p } else {
                apply_flags(args, i + 2, match parsed_usize(args[i + 1]) {
                    Some(v) => (p.0, p.1, v, p.3, p.4, p.5),
                    None => p,
                })
            }
        } else if f == "-m"@ || f == "--min"@ {
            if !more { p } else {
                apply_flags(args, i + 2, match parsed_usize(args[i + 1]) {
                    Some(v) => (p.0, p.1, p.2, v, p.4, p.5),
                    None => p,
                })
            }
        } else if f == "-v"@ || f == "--verb"@ {
            if !more { p } else {
                apply_flags(args, i + 2, (p.0, p.1, p.2, p.3, args[i + 1], p.5))
            }
        } else if f == "--prize"@ {
            if !more {
                (p.0, p.1, p.2, p.3, p.4, None)
            } else {
                apply_flags(args, i + 2, (p.0, p.1, p.2, p.3, p.4, Some(args[i + 1])))
            }
        } else {
            apply_flags(args, i + 1, p)
        }
    }
}

/// The settings of an auction started in `channel` with flags `args`: the
/// channel's configuration, overridden by the flags; the prize unquoted.
pub open spec fn start_plan(config: Config, channel: Seq<char>, args: Seq<Seq<char>>) -> StartPlan {
    let p = apply_flags(
        args,
        0,
        (
            config.duration_spec(channel),
            config.helmet_spec(channel),
            config.max_raise_spec(channel),
            config.min_bid_spec(channel),
            config.verb_spec(channel),
            None,
        ),
    );
    (p.0, p.1, p.2, p.3, p.4, match p.5 { Some(z) => Some(unquoted(z)), None => None })
}

/// The settings as they stand.
pub open spec fn plan_of(o: StartOptions, prize: Option<Seq<char>>) -> StartPlan {
    (o.duration, o.helmet, o.max_raise, o.min_bid, o.verb@, prize)
}

/// The settings of an auction started in `channel` with flags `words[from..]`.
pub fn start_options(config: &Config, channel: &str, words: &Vec<&str>, from: usize) -> (r: StartOptions)
    requires
        from <= words@.len(),
    ensures
        plan_of(r, match r.prize { Some(z) => Some(z@), None => None })
            == start_plan(*config, channel@, words_view(words@).subrange(from as int, words@.len() as int)),
{
    let ghost args = words_view(words@).subrange(from as int, words@.len() as int);
    let n = words.len();
    let mut dur = config.duration(channel);
    let mut hlm = config.helmet(channel);
    let mut max = config.max_raise(channel);
    let mut min = config.min_bid(channel);
    let mut vrb: &str = config.verb(channel);
    let mut prz: Option<&str> = None;
    let mut i: usize = from;
    let ghost start: StartPlan = (dur, hlm, max, min, vrb@, None);
    while i < n
        invariant_except_break
            n == words@.len(),
            from <= i <= n,
            args == words_view(words@).subrange(from as int, n as int),
            apply_flags(args, (i - from) as int, (dur, hlm, max, min, vrb@, match prz { Some(z) => Some(z@), None => None }))
                == apply_flags(args, 0, start),
        ensures
            apply_flags(args, 0, start) == (dur, hlm, max, min, vrb@, match prz { Some(z) => Some(z@), None => None }),
        decreases n - i,
    {
        let ghost k = (i - from) as int;
        let f = words[i];
        assert(args[k] == f@);
        let more = i + 1 < n;
        if more {
            assert(args[k + 1] == words@[i + 1]@);
        }
        if str_eq(f, "-d") || str_eq(f, "-t") || str_eq(f, "--time") {
            if !more { break; }
            match parse_u64(words[i + 1]) {
                Some(v) => { dur = v; },
                None => {},
            }
            i = i + 2;
        } else if str_eq(f, "-h") || str_eq(f, "--helm") || str_eq(f, "--helmet") {
            if !more { break; }
            match parse_u64(words[i + 1]) {
                Some(v) => { hlm = v; },
                None => {},
            }
            i = i + 2;
        } else if str_eq(f, "-r") || str_eq(f, "--raise") || str_eq(f, "--limit") {
            if !more { break; }
            match parse_usize(words[i + 1]) {
                Some(v) => { max = v; },
                None => {},
            }
            i = i + 2;
        } else if str_eq(f, "-m") || str_eq(f, "--min") {
            if !more { break; }
            match parse_usize(words[i + 1]) {
                Some(v) => { min = v; },
                None => {},
            }
            i = i + 2;
        } else if str_eq(f, "-v") || str_eq(f, "--verb") {
            if !more { break; }
            vrb = words[i + 1];
            i = i + 2;
        } else if str_eq(f, "--prize") {
            if !more {
                prz = None;
                break;
            }
            prz = Some(words[i + 1]);
            i = i + 2;
        } else {
            i = i + 1;
        }
    }
    let prize = match prz {
        Some(z) => Some(unquote(z).to_owned()),
        None => None,
    };
    StartOptions { duration: dur, helmet: hlm, max_raise: max, min_bid: min, verb: vrb.to_owned(), prize }
}

/// The prize that `auction prize` sets from its command line `line`
/// (with words `w`): none without further words, else the rest of the line
/// after `auction prize`, trimmed and unquoted.
pub open spec fn prize_text(line: Seq<char>, w: Seq<Seq<char>>) -> Option<Seq<char>> {
    if w.len() <= 2 { None } else { Some(unquoted(trimmed(after_words(line, 2)))) }
}

/// The text of an optional string.
pub open spec fn opt_view(o: Option<String>) -> Option<Seq<char>> {
    match o {
        Some(s) => Some(s@),
        None => None,
    }
}

/// `auction status`, from anyone.
pub open spec fn is_status_cmd(w: Seq<Seq<char>>) -> bool {
    w.len() >= 2 && w[0] == "auction"@ && w[1] == "status"@
}

/// Any other `auction` command, from an operator.
pub open spec fn is_auction_cmd(w: Seq<Seq<char>>, usr_op: bool) -> bool {
    !is_status_cmd(w) && usr_op && w.len() >= 2 && w[0] == "auction"@
}

/// `bid <amount>`.
pub open spec fn is_bid_cmd(w: Seq<Seq<char>>, usr_op: bool) -> bool {
    !is_status_cmd(w) && !is_auction_cmd(w, usr_op) && w.len() >= 2 && w[0] == "bid"@
}

/// `config`, from an operator.
pub open spec fn is_config_cmd(w: Seq<Seq<char>>, usr_op: bool) -> bool {
    &&& !is_status_cmd(w) && !is_auction_cmd(w, usr_op) && !is_bid_cmd(w, usr_op)
    &&& usr_op && w.len() >= 1 && w[0] == "config"@
}

/// The answer to the command `w` by `author` in `channel`, with the slot
/// holding `slot` at clock reading `now`: whether it is a reply, and its text.
pub open spec fn command_reply(
    slot: Option<Auction>,
    config: Config,
    channel: Seq<char>,
    author: Seq<char>,
    usr_op: bool,
    line: Seq<char>,
    w: Seq<Seq<char>>,
    now: u64,
) -> Option<(bool, Seq<char>)> {
    if is_status_cmd(w) {
        match slot {
            Some(a) => Some((true, status_text(a, now))),
            None => None,
        }
    } else if is_auction_cmd(w, usr_op) {
        let args = w.subrange(2, w.len() as int);
        if w[1] == "prize"@ {
            match slot {
                Some(_) => Some((true, match prize_text(line, w) {
                    Some(p) => "The current Auction is for "@ + p + "."@,
                    None => "The Auction prize has been unset."@,
                })),
                None => None,
            }
        } else if w[1] == "start"@ {
            match slot {
                Some(_) => Some((
                    true,
                    "An Auction is already running; Invoke '"@ + config.bot.prefix@
                        + "auction stop' to cancel it."@,
                )),
                None => {
                    let p = start_plan(config, channel, args);
                    Some((false, explain_text(humantime_of(sat_add(0, p.0 * 1000)), config.bot.prefix@, p.4, money_text(p.3 as nat))))
                },
            }
        } else if w[1] == "stop"@ {
            Some((true, if slot is Some { "Auction stopped."@ } else { "No Auction is currently running."@ }))
        } else {
            None
        }
    } else if is_bid_cmd(w, usr_op) {
        match parsed_usize(skip_leading(unquoted(w[1]), '$')) {
            Some(n) => match slot {
                Some(a) => Some(bid_reply_view(a.outcome(author, n), author, n)),
                None => None,
            },
            None => match slot {
                Some(_) => Some((true, "A bid must be a positive whole number of USD."@)),
                None => None,
            },
        }
    } else if is_config_cmd(w, usr_op) {
        Some((true, config_text(config, channel)))
    } else {
        None
    }
}

/// `b` is `a` with at most its prize changed.
pub open spec fn same_but_prize(a: Auction, b: Auction) -> bool {
    &&& b.bids == a.bids
    &&& b.duration == a.duration
    &&& b.helmet == a.helmet
    &&& b.max_raise == a.max_raise
    &&& b.min_bid == a.min_bid
    &&& b.time_begin == a.time_begin
    &&& b.time_close == a.time_close
    &&& b.origin == a.origin
}

/// What the command `w` by `author` in `channel` makes of the slot (from
/// `old` to `new`) at clock reading `now`, stamping an accepted bid `stamp`.
pub open spec fn command_effect(
    old: Option<Auction>,
    new: Option<Auction>,
    config: Config,
    channel: Seq<char>,
    author: Seq<char>,
    usr_op: bool,
    line: Seq<char>,
    w: Seq<Seq<char>>,
    now: u64,
    stamp: i64,
) -> bool {
    if is_auction_cmd(w, usr_op) && w[1] == "prize"@ {
        match old {
            Some(a) => new matches Some(b) && same_but_prize(a, b)
                && opt_view(b.prize) == prize_text(line, w),
            None => new is None,
        }
    } else if is_auction_cmd(w, usr_op) && w[1] == "start"@ && old is None {
        let p = start_plan(config, channel, w.subrange(2, w.len() as int));
        new matches Some(b) && {
            &&& b.bids@.len() == 0
            &&& b.duration == p.0
            &&& b.helmet == p.1
            &&& b.max_raise == p.2
            &&& b.min_bid == p.3
            &&& opt_view(b.prize) == p.5
            &&& b.time_begin == 0
            &&& b.time_close == sat_add(0, p.0 * 1000)
        }
    } else if is_auction_cmd(w, usr_op) && w[1] == "stop"@ {
        new is None
    } else if is_bid_cmd(w, usr_op) && old is Some && parsed_usize(skip_leading(unquoted(w[1]), '$')) is Some {
        let n = parsed_usize(skip_leading(unquoted(w[1]), '$'))->0;
        new matches Some(b) && old->0.bid_effect(b, author, n, now, stamp)
    } else {
        new == old
    }
}

/// Run the command `line`, split into `words`, by `author` (an operator
/// where `usr_op`) in `channel` against the auction slot, at clock reading
/// `now`, stamping an accepted bid `stamp`. Returns the answer, if the
/// command has one.
pub fn handle_command_at(
    slot: &mut Option<Auction>,
    config: &Config,
    channel: &str,
    author: &str,
    usr_op: bool,
    line: &str,
    words: &Vec<&str>,
    now: u64,
    stamp: i64,
) -> (r: Option<Response>)
    ensures
        match r {
            Some(x) => command_reply(*old(slot), *config, channel@, author@, usr_op, line@, words_view(words@), now) == Some(x@),
            None => command_reply(*old(slot), *config, channel@, author@, usr_op, line@, words_view(words@), now) is None,
        },
        command_effect(*old(slot), *final(slot), *config, channel@, author@, usr_op, line@, words_view(words@), now, stamp),
{
    let n = words.len();
    let first_auction = n >= 2 && str_eq(words[0], "auction");
    if first_auction && str_eq(words[1], "status") {
        return match &*slot {
            Some(a) => Some(status_reply(a, now)),
            None => None,
        };
    }
    if usr_op && first_auction {
        let sub = words[1];
        if str_eq(sub, "prize") {
            match slot {
                Some(a) => {
                    let prize = if n > 2 {
                        let rest = skip_words(line, 2);
                        Some(unquote(trim(rest)).to_owned())
                    } else {
                        None
                    };
                    a.prize = prize;
                    let text = match &a.prize {
                        Some(p) => {
                            let mut m = String::from_str("The current Auction is for ");
                            m.append(p.as_str());
                            m.append(".");
                            m
                        },
                        None => String::from_str("The Auction prize has been unset."),
                    };
                    Some(Response::Reply(text))
                },
                None => None,
            }
        } else if str_eq(sub, "start") {
            if slot.is_some() {
                proof {
                    reveal_strlit("start");
                    reveal_strlit("stop");
                    assert("start"@[3] != "stop"@[3]);
                }
                let mut m = String::from_str("An Auction is already running; Invoke '");
                m.append(config.prefix().as_str());
                m.append("auction stop' to cancel it.");
                Some(Response::Reply(m))
            } else {
                let o = start_options(config, channel, words, 2);
                let a = Auction::new(o.duration, o.helmet, o.max_raise, o.min_bid, o.prize);
                let text = a.explain(config.prefix().as_str(), o.verb.as_str());
                *slot = Some(a);
                Some(Response::Message(text))
            }
        } else if str_eq(sub, "stop") {
            let text = if slot.is_some() {
                String::from_str("Auction stopped.")
            } else {
                String::from_str("No Auction is currently running.")
            };
            *slot = None;
            Some(Response::Reply(text))
        } else {
            None
        }
    } else if n >= 2 && str_eq(words[0], "bid") {
        match parse_bid(words[1]) {
            Some(amount) => match slot {
                Some(a) => {
                    let result = a.bid_at(author, amount, now, stamp);
                    Some(bid_reply(result, author, amount))
                },
                None => None,
            },
            None => {
                if slot.is_some() {
                    Some(Response::Reply(String::from_str("A bid must be a positive whole number of USD.")))
                } else {
                    None
                }
            },
        }
    } else if usr_op && n >= 1 && str_eq(words[0], "config") {
        Some(config_reply(config, channel))
    } else {
        None
    }
}

/// Run the command `line`, split into `words`, by `author` (an operator
/// where `usr_op`) in `channel` against the auction slot, now; an accepted
/// bid is stamped with the UTC time `stamp` (milliseconds since the Unix
/// epoch) that the caller read.
pub fn handle_command(
    slot: &mut Option<Auction>,
    config: &Config,
    channel: &str,
    author: &str,
    usr_op: bool,
    line: &str,
    words: &Vec<&str>,
    stamp: i64,
) -> (r: Option<Response>)
    ensures
        exists|now: u64| {
            &&& match r {
                Some(x) => command_reply(*old(slot), *config, channel@, author@, usr_op, line@, words_view(words@), now) == Some(x@),
                None => command_reply(*old(slot), *config, channel@, author@, usr_op, line@, words_view(words@), now) is None,
            }
            &&& command_effect(*old(slot), *final(slot), *config, channel@, author@, usr_op, line@, words_view(words@), now, stamp)
        },
{
    let now = match &*slot {
        Some(a) => a.now(),
        None => 0,
    };
    handle_command_at(slot, config, channel, author, usr_op, line, words, now, stamp)
}

} // verus!
