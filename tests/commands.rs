use k2o::auction::Auction;
use k2o::client::Response;
use k2o::command::{bid_reply, handle_command_at, parse_bid, start_options, status_reply};
use k2o::config::{Config, ConfigAuction, ConfigAuth, ConfigBot, ConfigChannel, ConfigFile, ConfigOpen};
use k2o::text::{eq_ignore_ascii_case, human_duration, number, str_eq};
use k2o::util::{find_command, is_white_space_char, skip_words, split_cmd, strip_prefix, unquote};
use k2o::BidResult;

fn config() -> Config {
    let channel = ConfigChannel {
        admins: Some(vec![String::from("mod")]),
        ignore: Some(vec![String::from("spammer")]),
        duration: Some(120),
        helmet: None,
        max_raise: Some(500),
        min_bid: None,
        summary: Some(false),
        verb: Some(String::from("pay")),
    };
    Config {
        auth: ConfigAuth { username: String::from("bot"), oauth: String::from("SECRET-REDACTED") },
        auction: ConfigAuction {
            duration: 60,
            helmet: 15,
            max_raise: 50,
            min_bid: 10,
            summary: true,
            verb: String::from("donate"),
        },
        bot: ConfigBot {
            admins: vec![String::from("Owner")],
            ignore: vec![String::from("Troll")],
            parse_commands: true,
            prefix: String::from("!"),
            reconnect: 5,
            file_csv: None,
        },
        channels: Some(vec![(String::from("special"), channel)]),
    }
}

fn run(slot: &mut Option<Auction>, cfg: &Config, author: &str, op: bool, line: &str, now: u64) -> Option<Response> {
    let (line, words) = split_cmd(line);
    handle_command_at(slot, cfg, "room", author, op, line, &words, now, 0)
}

#[test]
fn config_resolves_per_channel() {
    let c = config();
    assert_eq!(c.duration("special"), 120);
    assert_eq!(c.duration("room"), 60);
    assert_eq!(c.helmet("special"), 15);
    assert_eq!(c.max_raise("special"), 500);
    assert_eq!(c.max_raise("room"), 50);
    assert_eq!(c.min_bid("special"), 10);
    assert_eq!(c.verb("special"), "pay");
    assert_eq!(c.verb("room"), "donate");
    assert!(!c.summary("special"));
    assert!(c.summary("room"));
    assert_eq!(c.prefix(), "!");
    assert!(c.parse_commands());
    assert_eq!(c.reconnect(), 5);
    assert!(c.file_csv().is_none());
}

#[test]
fn config_lists() {
    let mut c = config();
    assert!(c.is_admin("mod", "special"));
    assert!(!c.is_admin("mod", "room"));
    assert!(!c.is_globally_admin("owner"));
    assert!(c.is_blacklisted("spammer", "special"));
    assert!(!c.is_blacklisted("spammer", "room"));
    c.lower();
    assert_eq!(c.bot.admins, vec![String::from("owner")]);
    assert_eq!(c.bot.ignore, vec![String::from("troll")]);
    assert!(c.is_globally_admin("owner"));
    assert!(c.is_admin("owner", "room"));
    assert!(c.is_globally_blacklisted("troll"));
    assert!(c.is_blacklisted("troll", "special"));
}

#[test]
fn config_file_reload() {
    let mut f: ConfigFile = config().with_path(std::path::PathBuf::from("cfg.toml"));
    assert_eq!(f.config().reconnect(), 5);
    let mut next = config();
    next.bot.reconnect = 9;
    assert!(f.reload(ConfigOpen::FileValid(next)).is_ok());
    assert_eq!(f.config().reconnect(), 9);
    let err = std::io::Error::new(std::io::ErrorKind::NotFound, "gone");
    assert!(matches!(f.reload(ConfigOpen::FileInaccessible(err)), Err(ConfigOpen::FileInaccessible(_))));
    assert_eq!(f.config().reconnect(), 9);
}

#[test]
fn text_helpers() {
    assert_eq!(number(0), "0");
    assert_eq!(number(1234), "1234");
    assert_eq!(human_duration(90_000), "1m 30s");
    assert_eq!(human_duration(0), "0s");
    assert!(eq_ignore_ascii_case("AbC", "aBc"));
    assert!(!eq_ignore_ascii_case("abc", "abd"));
    assert!(!eq_ignore_ascii_case("abc", "ab"));
    assert!(str_eq("x", "x"));
    assert!(!str_eq("x", "X"));
}

#[test]
fn quoting_and_prefixes() {
    assert_eq!(unquote("'a b'"), "a b");
    assert_eq!(unquote("`x`"), "x");
    assert_eq!(unquote("'x\""), "'x\"");
    assert_eq!(unquote("'"), "'");
    assert_eq!(unquote(""), "");
    assert_eq!(strip_prefix("!bid 5", "!"), Some("bid 5"));
    assert_eq!(strip_prefix("bid 5", "!"), None);
    let (line, words) = find_command("!bid 'a b'; rest", "!", true).unwrap();
    assert_eq!(line, "bid 'a b'");
    assert_eq!(words, vec!["bid", "'a b'"]);
    let (line, words) = find_command("!bid  5\tx", "!", false).unwrap();
    assert_eq!(line, "bid  5\tx");
    assert_eq!(words, vec!["bid", "5", "x"]);
    assert!(find_command("bid 5", "!", true).is_none());
}

#[test]
fn split_words_are_trimmed() {
    let (line, words) = split_cmd("a\t b");
    assert_eq!(line, "a\t b");
    assert_eq!(words, vec!["a", "b"]);
    let (_, words) = split_cmd("asdf 'qwert zxcv' yuiop");
    assert_eq!(words, vec!["asdf", "'qwert zxcv'", "yuiop"]);
}

#[test]
fn bid_parsing() {
    assert_eq!(parse_bid("40"), Some(40));
    assert_eq!(parse_bid("$40"), Some(40));
    assert_eq!(parse_bid("'$$7'"), Some(7));
    assert_eq!(parse_bid("+3"), Some(3));
    assert_eq!(parse_bid("-3"), None);
    assert_eq!(parse_bid("4.5"), None);
    assert_eq!(parse_bid("$"), None);
    assert_eq!(parse_bid("99999999999999999999999"), None);
}

#[test]
fn bid_replies() {
    assert_eq!(bid_reply(BidResult::Accepted { first: true }, "al", 40), Response::Message(String::from("FIRST BID: @al has bid $40.")));
    assert_eq!(bid_reply(BidResult::Accepted { first: false }, "al", 41), Response::Message(String::from("NEW BID: @al has bid $41.")));
    assert_eq!(bid_reply(BidResult::RepeatBidder(40), "al", 50).text(), "You are already the top bidder at $40.");
    assert_eq!(bid_reply(BidResult::AboveMaximum(50), "al", 500).text(), "You can only raise by a maximum of $50.");
    assert_eq!(bid_reply(BidResult::BelowMinimum(10), "al", 5).text(), "The minimum bid is $10.");
    assert_eq!(bid_reply(BidResult::DoesNotRaise(40), "al", 5).text(), "The current bid is $40.");
}

#[test]
fn start_flags() {
    let c = config();
    let (_, words) = split_cmd("auction start -t 90 -h 5 -r 20 -m 3 -v give --prize 'a hat' --bogus -m x");
    let o = start_options(&c, "room", &words, 2);
    assert_eq!(o.duration, 90);
    assert_eq!(o.helmet, 5);
    assert_eq!(o.max_raise, 20);
    assert_eq!(o.min_bid, 3);
    assert_eq!(o.verb, "give");
    assert_eq!(o.prize, Some(String::from("a hat")));
    let (_, words) = split_cmd("auction start --prize");
    let o = start_options(&c, "special", &words, 2);
    assert_eq!(o.duration, 120);
    assert_eq!(o.prize, None);
}

#[test]
fn a_whole_auction_by_commands() {
    let c = config();
    let mut slot: Option<Auction> = None;
    assert_eq!(run(&mut slot, &c, "al", false, "auction status", 0), None);
    assert_eq!(run(&mut slot, &c, "al", false, "bid 5", 0), None);
    assert_eq!(run(&mut slot, &c, "al", false, "auction start", 0), None);
    assert!(slot.is_none());
    match run(&mut slot, &c, "op", true, "auction start -t 90", 0) {
        Some(Response::Message(text)) => assert!(text.contains("run for 1m 30s")),
        other => panic!("{:?}", other),
    }
    assert_eq!(slot.as_ref().unwrap().time_close, 90_000);
    assert_eq!(
        run(&mut slot, &c, "op", true, "auction start", 0).unwrap().text(),
        "An Auction is already running; Invoke '!auction stop' to cancel it."
    );
    assert_eq!(
        run(&mut slot, &c, "al", false, "auction status", 30_000).unwrap().text(),
        "The Auction still has 1m remaining. The minimum bid is $10, but there have not been any bids yet."
    );
    assert_eq!(run(&mut slot, &c, "al", false, "bid lots", 0), Some(Response::Reply(String::from("A bid must be a positive whole number of USD."))));
    assert_eq!(run(&mut slot, &c, "al", false, "bid $40", 1000), Some(Response::Message(String::from("FIRST BID: @al has bid $40."))));
    assert_eq!(run(&mut slot, &c, "AL", false, "bid 45", 1000).unwrap().text(), "You are already the top bidder at $40.");
    assert_eq!(
        run(&mut slot, &c, "op", true, "auction prize 'a  hat'", 0),
        Some(Response::Reply(String::from("The current Auction is for a  hat.")))
    );
    assert_eq!(
        run(&mut slot, &c, "al", false, "auction status", 30_000).unwrap().text(),
        "The Auction for a  hat still has 1m remaining. The leader is currently al, who bids $40."
    );
    assert_eq!(
        run(&mut slot, &c, "op", true, "  auction  prize Big  Hat ; ignored", 0).unwrap().text(),
        "The current Auction is for Big  Hat."
    );
    assert_eq!(slot.as_ref().unwrap().prize, Some(String::from("Big  Hat")));
    assert_eq!(run(&mut slot, &c, "op", true, "auction prize", 0).unwrap().text(), "The Auction prize has been unset.");
    assert_eq!(slot.as_ref().unwrap().prize, None);
    assert_eq!(run(&mut slot, &c, "op", true, "auction nonsense", 0), None);
    assert_eq!(
        run(&mut slot, &c, "op", true, "config", 0).unwrap().text(),
        "Auction length is 60 seconds. Helmet value is 15 seconds. Minimum bid is $10. Maximum raise is $50."
    );
    assert_eq!(run(&mut slot, &c, "al", false, "config", 0), None);
    assert_eq!(run(&mut slot, &c, "op", true, "auction stop", 0).unwrap().text(), "Auction stopped.");
    assert!(slot.is_none());
    assert_eq!(run(&mut slot, &c, "op", true, "auction stop", 0).unwrap().text(), "No Auction is currently running.");
}

#[test]
fn status_reply_text() {
    let a = Auction::new(60, 15, 50, 10, None);
    assert_eq!(
        status_reply(&a, 70_000).text(),
        "The Auction still has 0s remaining. The minimum bid is $10, but there have not been any bids yet."
    );
}

#[test]
fn white_space_and_words() {
    assert!(is_white_space_char('\u{3000}'));
    assert!(is_white_space_char('\t'));
    assert!(!is_white_space_char('x'));
    assert_eq!(skip_words(" a \tbb c d", 2), " c d");
    assert_eq!(skip_words("a", 3), "");
    let (_, words) = split_cmd("x\u{3000} y");
    assert_eq!(words, vec!["x", "y"]);
}
