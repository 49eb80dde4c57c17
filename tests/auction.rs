use k2o::announce::{announce_time, auction_check_at, next_tick, resume_at, AuctionStatus};
use k2o::auction::{Auction, BidResult};
use k2o::saving::round_to_second;

fn scenario() -> Auction {
    // minBid 10, maxRaise 50, helmet 15 s, duration 60 s.
    Auction::new(60, 15, 50, 10, None)
}

#[test]
fn first_bid_rules() {
    let mut a = scenario();
    assert_eq!(a.bid_at("alice", 5, 1000, 0), BidResult::BelowMinimum(10));
    assert_eq!(a.bid_at("alice", 70, 1000, 0), BidResult::AboveMaximum(50));
    assert_eq!(a.bids.len(), 0);
    assert_eq!(a.bid_at("alice", 40, 1000, 7), BidResult::Accepted { first: true });
    assert_eq!(a.bids.len(), 1);
    assert_eq!(a.last_bid().unwrap().amount, 40);
    assert_eq!(a.last_bid().unwrap().time, 7);
}

#[test]
fn first_bid_above_maximum_wins_over_below_minimum() {
    let mut a = Auction::new(60, 15, 5, 100, None);
    assert_eq!(a.bid_at("alice", 106, 0, 0), BidResult::AboveMaximum(5));
    assert_eq!(a.bid_at("alice", 99, 0, 0), BidResult::BelowMinimum(100));
    assert_eq!(a.bid_at("alice", 105, 0, 0), BidResult::Accepted { first: true });
}

#[test]
fn later_bid_rules() {
    let mut a = scenario();
    assert_eq!(a.bid_at("alice", 40, 1000, 0), BidResult::Accepted { first: true });
    assert_eq!(a.bid_at("bob", 35, 2000, 0), BidResult::DoesNotRaise(40));
    assert_eq!(a.bid_at("bob", 40, 2000, 0), BidResult::DoesNotRaise(40));
    assert_eq!(a.bid_at("bob", 100, 2000, 0), BidResult::AboveMaximum(50));
    assert_eq!(a.bids.len(), 1);
    assert_eq!(a.bid_at("bob", 60, 2000, 0), BidResult::Accepted { first: false });
    assert_eq!(a.last_bid().unwrap().amount, 60);
    assert_eq!(a.last_bid().unwrap().bidder, "bob");
}

#[test]
fn repeat_bidder_ignores_case() {
    let mut a = scenario();
    assert_eq!(a.bid_at("Alice", 40, 1000, 0), BidResult::Accepted { first: true });
    assert_eq!(a.bid_at("aLICE", 50, 1000, 0), BidResult::RepeatBidder(40));
    assert_eq!(a.bids.len(), 1);
}

#[test]
fn amounts_rise_along_the_ledger() {
    let mut a = scenario();
    let names = ["a", "b", "a", "c", "b"];
    let mut amount = 10;
    for name in names {
        assert!(matches!(a.bid_at(name, amount, 0, 0), BidResult::Accepted { .. }));
        amount += 7;
    }
    for pair in a.bids.windows(2) {
        assert!(pair[0].amount < pair[1].amount);
    }
}

#[test]
fn anti_snipe_pushes_close_to_helmet() {
    let mut a = scenario();
    assert_eq!(a.remaining_at(57_000), Some(3));
    assert_eq!(a.bid_at("alice", 40, 57_000, 0), BidResult::Accepted { first: true });
    assert_eq!(a.remaining_at(57_000), Some(15));
    assert_eq!(a.time_close, 72_000);
}

#[test]
fn anti_snipe_leaves_a_distant_close_alone() {
    let mut a = scenario();
    assert_eq!(a.bid_at("alice", 40, 10_000, 0), BidResult::Accepted { first: true });
    assert_eq!(a.time_close, 60_000);
    assert_eq!(a.remaining_at(10_000), Some(50));
}

#[test]
fn remaining_truncates_and_expires() {
    let a = scenario();
    assert_eq!(a.remaining_at(0), Some(60));
    assert_eq!(a.remaining_at(500), Some(59));
    assert_eq!(a.remaining_at(59_999), Some(0));
    assert_eq!(a.remaining_at(60_000), Some(0));
    assert_eq!(a.remaining_at(60_001), None);
    // Asking twice changes nothing.
    assert_eq!(a.remaining_at(30_000), a.remaining_at(30_000));
    assert_eq!(a.bids.len(), 0);
}

#[test]
fn add_time_moves_the_close() {
    let mut a = scenario();
    a.add_time(42_000);
    assert_eq!(a.time_close, 102_000);
    a.add_time(u64::MAX);
    assert_eq!(a.time_close, u64::MAX);
}

#[test]
fn winner_counts_bids_of_the_leader() {
    let mut a = scenario();
    assert!(a.winner().is_none());
    a.bid_at("Alice", 10, 0, 0);
    a.bid_at("bob", 20, 0, 0);
    a.bid_at("alice", 30, 0, 0);
    let w = a.winner().unwrap();
    assert_eq!(w.name, "alice");
    assert_eq!(w.amount, 30);
    assert_eq!(w.bid_count, 2);
}

#[test]
fn describe_and_explain() {
    let mut a = Auction::new(90, 15, 50, 10, Some(String::from("a hat")));
    assert_eq!(a.describe(), "Auction for a hat");
    assert_eq!(a.for_prize(), " for a hat");
    a.prize = None;
    assert_eq!(a.describe(), "Auction");
    let text = a.explain("!", "donate");
    assert!(text.starts_with("ATTENTION: An Auction will now run for 1m 30s. Submit a bid by posting '!bid <amount>'."));
    assert!(text.contains("they will have to donate that amount"));
    assert!(text.ends_with("Bidding starts at $10, and is NOW OPEN."));
}

#[test]
fn announce_boundaries() {
    for t in [10, 15, 30, 60, 120, 300, 600, 900, 1800, 3600, 7200, 86_400, 129_600, 172_800, 259_200] {
        assert!(announce_time(t), "{}", t);
    }
    for t in [0, 1, 5, 11, 45, 90, 3599, 3601, 90_000, 100_800, 345_600] {
        assert!(!announce_time(t), "{}", t);
    }
}

#[test]
fn tick_countdown_and_status() {
    let mut slot = Some(scenario());
    match auction_check_at(&mut slot, 57_500) {
        AuctionStatus::Active(Some(text)) => assert_eq!(text, "Auction: 3..."),
        _ => panic!("expected a countdown"),
    }
    match auction_check_at(&mut slot, 45_500) {
        AuctionStatus::Active(Some(text)) => assert_eq!(text, "Auction: 15 seconds remain."),
        _ => panic!("expected a status line"),
    }
    match auction_check_at(&mut slot, 40_000) {
        AuctionStatus::Active(None) => {}
        _ => panic!("expected silence"),
    }
    slot.as_mut().unwrap().bid_at("alice", 40, 0, 0);
    slot.as_mut().unwrap().prize = Some(String::from("a hat"));
    match auction_check_at(&mut slot, 30_500) {
        AuctionStatus::Active(Some(text)) => {
            assert_eq!(text, "Auction: 30 seconds remain. The current bid for a hat is $40.")
        }
        _ => panic!("expected a status line"),
    }
    slot.as_mut().unwrap().bids.clear();
    match auction_check_at(&mut slot, 30_500) {
        AuctionStatus::Active(Some(text)) => {
            assert_eq!(text, "Auction: 30 seconds remain to bid for a hat.")
        }
        _ => panic!("expected a status line"),
    }
    assert!(slot.is_some());
}

#[test]
fn expiry_without_bids_closes_once() {
    let mut slot = Some(scenario());
    match auction_check_at(&mut slot, 61_000) {
        AuctionStatus::Ended(text, auction) => {
            assert_eq!(text, "The Auction has ended with no bids.");
            assert_eq!(auction.bids.len(), 0);
        }
        _ => panic!("expected the close"),
    }
    assert!(slot.is_none());
    assert!(matches!(auction_check_at(&mut slot, 62_000), AuctionStatus::Inactive));
}

#[test]
fn expiry_with_a_winner() {
    let mut slot = Some(Auction::new(60, 15, 50, 10, Some(String::from("a hat"))));
    slot.as_mut().unwrap().bid_at("alice", 40, 0, 0);
    match auction_check_at(&mut slot, 70_000) {
        AuctionStatus::Ended(text, _) => {
            assert_eq!(text, "The Auction for a hat has been won by @alice, with a bid of $40.")
        }
        _ => panic!("expected the close"),
    }
    assert!(slot.is_none());
}

#[test]
fn resume_after_downtime() {
    let mut a = scenario();
    assert_eq!(a.remaining_at(40_000), Some(20));
    let text = resume_at(&mut a, 42_000, 40_000);
    assert_eq!(a.remaining_at(40_000), Some(62));
    assert_eq!(
        text,
        "Sorry, it seems I lost connection for a moment. No problem though, I can continue the \
        Auction from where it left off. The minimum bid is $10, with 1m 3s remaining."
    );
}

#[test]
fn resume_with_a_leader() {
    let mut a = scenario();
    a.bid_at("alice", 40, 0, 0);
    let text = resume_at(&mut a, 0, 60_000);
    assert!(text.contains("The highest bidder is currently @alice at $40, with 1s remaining."));
}

#[test]
fn finish_records_the_auction() {
    let mut a = scenario();
    a.bid_at("alice", 40, 1000, 5);
    a.bid_at("bob", 50, 2000, 6);
    let f = a.finish_at(70_000, 1_000_000_000);
    assert_eq!(f.minimum_bid, 10);
    assert_eq!(f.raise_limit, 50);
    assert_eq!(f.duration, 60);
    assert_eq!(f.helmet, 15);
    assert_eq!(f.opened, 1_000_000_000 - 70_000);
    assert_eq!(f.closed, 1_000_000_000 - 10_000);
    assert_eq!(f.bids.len(), 2);
    let w = f.winner.unwrap();
    assert_eq!(w.name, "bob");
    assert_eq!(w.amount, 50);
    assert_eq!(w.bid_count, 1);
}

#[test]
fn clocked_calls_run() {
    let mut a = scenario();
    assert!(a.remaining().unwrap() <= 60);
    assert_eq!(a.bid("alice", 40, 5), BidResult::Accepted { first: true });
    assert_eq!(a.last_bid().unwrap().time, 5);
    let f = a.finish(1_000_000);
    assert_eq!(f.bids.len(), 1);
    assert!(f.opened <= f.closed);
}

#[test]
fn ticks_do_not_drift() {
    assert_eq!(next_tick(0, 300), (1000, 700));
    assert_eq!(next_tick(1000, 2500), (2000, 0));
    assert_eq!(next_tick(u64::MAX, 0), (u64::MAX, u64::MAX));
}

#[test]
fn finish_rounds_to_the_second() {
    let a = scenario();
    let f = a.finish_at(70_000, 1_000_070_499);
    assert_eq!(f.opened, 1_000_000_000);
    assert_eq!(f.closed, 1_000_060_000);
    let a = scenario();
    let f = a.finish_at(70_000, 1_000_070_500);
    assert_eq!(f.opened, 1_000_001_000);
}

#[test]
fn rounding_of_negative_times() {
    assert_eq!(round_to_second(-1_499), -1_000);
    assert_eq!(round_to_second(-1_500), -1_000);
    assert_eq!(round_to_second(-1_501), -2_000);
    assert_eq!(round_to_second(1_500), 2_000);
    assert_eq!(round_to_second(i64::MAX), i64::MAX);
}

#[test]
fn file_names() {
    let mut f = scenario().finish_at(0, 0);
    assert_eq!(f.opened, 0);
    assert_eq!(f.file_name("#room"), "auction-room-19700101-000000.toml");
    f.prize = Some(String::from("Big Hat"));
    f.opened = 1_700_000_000_000;
    assert_eq!(f.file_name("room"), "auction-room-20231114-221320-big_hat.toml");
    f.opened = i64::MAX;
    assert_eq!(f.file_name("room"), "auction-room-9223372036854775-big_hat.toml");
}

#[test]
fn delay_keeps_everything_else() {
    let mut a = Auction::new(60, 15, 50, 10, Some(String::from("hat")));
    a.bid_at("alice", 40, 1000, 3);
    let _ = resume_at(&mut a, 5_000, 1000);
    assert_eq!(a.time_close, 65_000);
    assert_eq!(a.bids.len(), 1);
    assert_eq!(a.prize, Some(String::from("hat")));
    assert_eq!((a.duration, a.helmet, a.max_raise, a.min_bid, a.time_begin), (60, 15, 50, 10, 0));
}
