use slot_race::feed::{CorrelationEvent, Feed, Observation};
use slot_race::race::{window_closed, Race};
use slot_race::stats::{FeedSummary, Report};
use slot_race::table::CorrelationTable;

fn obs(feed: Feed, key: u64, timestamp: u128) -> Observation {
    Observation { feed, key, timestamp }
}

#[test]
fn end_to_end_two_races() {
    let mut race = Race::new();
    assert_eq!(race.ingest(obs(Feed::A, 100, 1000)), None);
    assert_eq!(race.ingest(obs(Feed::A, 101, 1100)), None);
    assert_eq!(
        race.ingest(obs(Feed::B, 100, 950)),
        Some(CorrelationEvent { key: 100, winner: Feed::B, delay_millis: 50 })
    );
    assert_eq!(
        race.ingest(obs(Feed::B, 101, 1150)),
        Some(CorrelationEvent { key: 101, winner: Feed::A, delay_millis: 50 })
    );
    let expected = FeedSummary { win_pct_x100: 5000, avg_loss_delay_x100: 5000, avg_overall_delay_x100: 2500 };
    assert_eq!(race.report(), Report::Data { total: 2, a: expected, b: expected });
    assert_eq!(race.stats().delay_sum(Feed::A), 50);
    assert_eq!(race.stats().delay_sum(Feed::B), 50);
}

#[test]
fn only_one_feed_gives_no_data() {
    let mut race = Race::new();
    for k in 0..20u64 {
        assert_eq!(race.ingest(obs(Feed::A, k, 1000 + k as u128)), None);
    }
    assert_eq!(race.stats().total_matches(), 0);
    assert_eq!(race.report(), Report::NoData);
    assert!(!race.steady_state_reached());
}

#[test]
fn one_sided_key_never_matches_even_when_repeated() {
    let mut race = Race::new();
    assert_eq!(race.ingest(obs(Feed::B, 7, 10)), None);
    assert_eq!(race.ingest(obs(Feed::B, 7, 20)), None);
    assert_eq!(race.ingest(obs(Feed::A, 8, 30)), None);
    assert_eq!(race.stats().total_matches(), 0);
}

#[test]
fn two_sided_key_matches_once_and_counts_one() {
    let mut race = Race::new();
    race.ingest(obs(Feed::A, 1, 5));
    let before = race.stats().total_matches();
    let e = race.ingest(obs(Feed::B, 1, 9));
    assert_eq!(e, Some(CorrelationEvent { key: 1, winner: Feed::A, delay_millis: 4 }));
    assert_eq!(race.stats().total_matches(), before + 1);
    assert!(race.steady_state_reached());
}

#[test]
fn smaller_timestamp_wins_whatever_the_order() {
    let mut table = CorrelationTable::new();
    assert_eq!(table.record(obs(Feed::B, 3, 700)), None);
    assert!(table.is_pending(Feed::B, 3));
    assert_eq!(
        table.record(obs(Feed::A, 3, 640)),
        Some(CorrelationEvent { key: 3, winner: Feed::A, delay_millis: 60 })
    );
    assert!(!table.is_pending(Feed::B, 3));
    assert!(table.is_settled(3));

    let mut table = CorrelationTable::new();
    assert_eq!(table.record(obs(Feed::A, 3, 640)), None);
    assert_eq!(
        table.record(obs(Feed::B, 3, 700)),
        Some(CorrelationEvent { key: 3, winner: Feed::A, delay_millis: 60 })
    );
}

#[test]
fn tie_goes_to_the_feed_recorded_first() {
    let mut table = CorrelationTable::new();
    table.record(obs(Feed::A, 9, 500));
    assert_eq!(
        table.record(obs(Feed::B, 9, 500)),
        Some(CorrelationEvent { key: 9, winner: Feed::A, delay_millis: 0 })
    );
    let mut table = CorrelationTable::new();
    table.record(obs(Feed::B, 9, 500));
    assert_eq!(
        table.record(obs(Feed::A, 9, 500)),
        Some(CorrelationEvent { key: 9, winner: Feed::B, delay_millis: 0 })
    );
}

#[test]
fn replayed_pair_is_not_counted_twice() {
    let mut race = Race::new();
    race.ingest(obs(Feed::A, 42, 100));
    race.ingest(obs(Feed::B, 42, 130));
    assert_eq!(race.ingest(obs(Feed::A, 42, 100)), None);
    assert_eq!(race.ingest(obs(Feed::B, 42, 130)), None);
    assert_eq!(race.stats().total_matches(), 1);
    assert_eq!(race.stats().delay_count(Feed::B), 1);
}

#[test]
fn repeated_observation_replaces_pending_timestamp() {
    let mut table = CorrelationTable::new();
    table.record(obs(Feed::A, 5, 100));
    table.record(obs(Feed::A, 5, 180));
    assert_eq!(
        table.record(obs(Feed::B, 5, 150)),
        Some(CorrelationEvent { key: 5, winner: Feed::B, delay_millis: 30 })
    );
}

#[test]
fn win_shares_round_down_and_sum_near_whole() {
    let mut race = Race::new();
    race.ingest(obs(Feed::A, 1, 10));
    race.ingest(obs(Feed::B, 1, 20));
    race.ingest(obs(Feed::A, 2, 30));
    race.ingest(obs(Feed::B, 2, 25));
    race.ingest(obs(Feed::A, 3, 40));
    race.ingest(obs(Feed::B, 3, 41));
    match race.report() {
        Report::Data { total, a, b } => {
            assert_eq!(total, 3);
            assert_eq!(a.win_pct_x100, 6666);
            assert_eq!(b.win_pct_x100, 3333);
            assert_eq!(a.win_pct_x100 + b.win_pct_x100, 9999);
            assert_eq!(a.avg_loss_delay_x100, 500);
            assert_eq!(a.avg_overall_delay_x100, 166);
            assert_eq!(b.avg_loss_delay_x100, 550);
            assert_eq!(b.avg_overall_delay_x100, 366);
        }
        Report::NoData => panic!("expected data"),
    }
}

#[test]
fn huge_delay_saturates_the_sum() {
    let mut race = Race::new();
    race.ingest(obs(Feed::A, 1, 0));
    let e = race.ingest(obs(Feed::B, 1, u128::MAX));
    assert_eq!(e, Some(CorrelationEvent { key: 1, winner: Feed::A, delay_millis: u128::MAX }));
    assert_eq!(race.stats().delay_sum(Feed::B), u64::MAX);
    assert_eq!(race.stats().delay_count(Feed::B), 1);
    assert_eq!(race.stats().first_count(Feed::A), 1);
}

#[test]
fn window_closes_after_its_length() {
    assert!(!window_closed(1000, 30999, 30000));
    assert!(window_closed(1000, 31000, 30000));
    assert!(!window_closed(1000, 500, 30000));
    assert!(window_closed(0, 0, 0));
}
