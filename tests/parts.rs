use slot_race::dedup::{ChangeDedup, SetDedup};
use slot_race::feed::Feed;
use slot_race::render::render_report;
use slot_race::stats::{FeedSummary, Report, Stats};
use slot_race::tracker::{SlotLead, SlotTracker};

#[test]
fn change_dedup_passes_only_increasing_keys() {
    let mut d = ChangeDedup::new();
    assert_eq!(d.last(), None);
    assert!(d.pass(0));
    assert!(!d.pass(0));
    assert!(d.pass(5));
    assert!(!d.pass(3));
    assert!(!d.pass(5));
    assert!(d.pass(6));
    assert_eq!(d.last(), Some(6));
}

#[test]
fn set_dedup_passes_each_key_once() {
    let mut d = SetDedup::new();
    assert!(d.pass(9));
    assert!(d.pass(3));
    assert!(!d.pass(9));
    assert!(d.has_seen(3));
    assert!(!d.has_seen(4));
}

#[test]
fn tracker_keeps_the_highest_slots() {
    let mut t = SlotTracker::new();
    assert_eq!(t.lead(), SlotLead::Even);
    assert!(t.update_grpc_slot(10));
    assert!(!t.update_grpc_slot(10));
    assert!(!t.update_grpc_slot(8));
    assert!(t.update_shred_slot(13));
    assert_eq!(t.grpc_latest_slot, 10);
    assert_eq!(t.shred_latest_slot, 13);
    assert_eq!(t.slot_gap(), -3);
    assert_eq!(t.lead(), SlotLead::Shred(3));
    assert!(t.update_grpc_slot(20));
    assert_eq!(t.lead(), SlotLead::Grpc(7));
}

#[test]
fn fresh_stats_report_no_data() {
    let s = Stats::new();
    assert_eq!(s.total_matches(), 0);
    assert_eq!(s.first_count(Feed::A), 0);
    assert_eq!(s.snapshot(), Report::NoData);
}

#[test]
fn report_text_with_data() {
    let a = FeedSummary { win_pct_x100: 5000, avg_loss_delay_x100: 5000, avg_overall_delay_x100: 2500 };
    let b = FeedSummary { win_pct_x100: 10000, avg_loss_delay_x100: 7, avg_overall_delay_x100: 123456 };
    let text = render_report(&Report::Data { total: 2, a, b });
    assert_eq!(
        text,
        "races decided: 2\n\
         GRPC  : first 50.00%, mean delay when behind 50.00 ms, mean delay overall 25.00 ms\n\
         SHRED : first 100.00%, mean delay when behind 0.07 ms, mean delay overall 1234.56 ms\n"
    );
}

#[test]
fn report_text_without_data() {
    assert_eq!(render_report(&Report::NoData), "GRPC  : no data\nSHRED : no data\n");
}
