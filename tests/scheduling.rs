use chachiprint::address::{encode_addresses, CanvasPlacement, PixelGrid};
use chachiprint::scheduler::{Action, DrawScheduler, Pacing, DEFAULT_REFRESH_MS};

#[test]
fn fresh_scheduler_counts_nothing() {
    let s = DrawScheduler::new(DEFAULT_REFRESH_MS, Pacing::Fixed(500));
    assert_eq!(s.packets_sent, 0);
    assert_eq!(s.refresh_interval_ms, 60_000);
}

#[test]
fn refresh_only_after_the_interval() {
    let s = DrawScheduler::new(60_000, Pacing::Fixed(0));
    assert_eq!(s.next_action(0), Action::Send);
    assert_eq!(s.next_action(60_000), Action::Send);
    assert_eq!(s.next_action(60_001), Action::Refresh);
}

#[test]
fn empty_batch_sends_nothing() {
    let grid = PixelGrid::new(0, 0, vec![]).unwrap();
    let batch = encode_addresses(&grid, CanvasPlacement { offset_x: 0, offset_y: 0 }, "2001:0db8:0000:0000").unwrap();
    let mut s = DrawScheduler::new(60_000, Pacing::Fixed(0));
    s.record_batch(batch.len());
    assert_eq!(s.packets_sent, 0);
}

#[test]
fn counter_resets_at_refresh() {
    let mut s = DrawScheduler::new(10, Pacing::Fixed(0));
    s.record_batch(6);
    s.record_batch(6);
    assert_eq!(s.next_action(11), Action::Refresh);
    assert_eq!(s.finish_interval(), 12);
    assert_eq!(s.packets_sent, 0);
    s.record_batch(3);
    assert_eq!(s.finish_interval(), 3);
}

#[test]
fn counter_saturates() {
    let mut s = DrawScheduler::new(10, Pacing::Fixed(0));
    s.packets_sent = u64::MAX - 1;
    s.record_batch(5);
    assert_eq!(s.packets_sent, u64::MAX);
}

#[test]
fn pacing_delays() {
    assert_eq!(DrawScheduler::new(1, Pacing::Fixed(250)).delay_ms(900), 250);
    assert_eq!(DrawScheduler::new(1, Pacing::Adaptive).delay_ms(900), 1800);
    assert_eq!(DrawScheduler::new(1, Pacing::Adaptive).delay_ms(u64::MAX), u64::MAX);
}
