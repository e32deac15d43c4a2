use std::cell::Cell;

use heartbeats_simple::context::HeartbeatContext;
use heartbeats_simple::hbs::Heartbeat;
use heartbeats_simple::hbs_acc::HeartbeatAcc;
use heartbeats_simple::hbs_acc_pow::HeartbeatAccPow;
use heartbeats_simple::hbs_pow::HeartbeatPow;
use heartbeats_simple::record::Ratio;

type NoCallback = fn(&HeartbeatContext);

fn value(r: Ratio) -> f64 {
    r.num as f64 / r.den as f64
}

fn ten_seconds(hb: &mut Heartbeat<NoCallback>) {
    const TIME_INC: u64 = 1_000_000_000;
    let mut start_time: u64 = 0;
    let mut end_time: u64 = TIME_INC;
    for tag in 0..10 {
        hb.heartbeat(tag, 1, start_time, end_time);
        start_time = end_time;
        end_time += TIME_INC;
    }
}

#[test]
fn two_full_windows_of_five() {
    let mut hb = Heartbeat::<NoCallback>::new(5, None).unwrap();
    ten_seconds(&mut hb);
    assert_eq!(hb.get_global_work(), 10);
    assert_eq!(hb.get_global_time(), 10_000_000_000);
    assert_eq!(hb.get_window_work(), 5);
    assert_eq!(hb.get_window_time(), 5_000_000_000);
    assert_eq!(hb.get_global_perf(), Ratio { num: 10, den: 10_000_000_000 });
    assert!((value(hb.get_global_perf()) - 1e-9).abs() < 1e-18);
    assert_eq!(hb.get_window_perf(), Ratio { num: 5, den: 5_000_000_000 });
    assert_eq!(hb.get_instant_perf(), Ratio { num: 1, den: 1_000_000_000 });
    assert_eq!(hb.get_user_tag(), 9);
    assert_eq!(hb.get_window_size(), 5);
}

#[test]
fn callback_runs_once_before_report_returns() {
    let calls = Cell::new(0u32);
    let seen_work = Cell::new(0u64);
    let mut hb = Heartbeat::new(
        1,
        Some(|c: &HeartbeatContext| {
            calls.set(calls.get() + 1);
            seen_work.set(c.get_global_work());
        }),
    )
    .unwrap();
    hb.heartbeat(0, 1, 0, 1000);
    assert_eq!(calls.get(), 1);
    assert_eq!(seen_work.get(), 1);
}

#[test]
fn callback_fires_once_per_window() {
    let calls = Cell::new(0u32);
    let window_work = Cell::new(0u64);
    let mut hb = Heartbeat::new(
        3,
        Some(|c: &HeartbeatContext| {
            calls.set(calls.get() + 1);
            window_work.set(c.get_window_work());
        }),
    )
    .unwrap();
    let works = [1u64, 2, 3, 4, 5, 6, 7, 8, 9];
    let mut t: u64 = 0;
    for (i, w) in works.iter().enumerate() {
        hb.heartbeat(i as u64, *w, t, t + 10);
        t += 10;
        assert_eq!(calls.get() as usize, (i + 1) / 3);
    }
    assert_eq!(calls.get(), 3);
    assert_eq!(window_work.get(), 7 + 8 + 9);
    assert_eq!(hb.get_window_work(), 7 + 8 + 9);
    assert_eq!(hb.get_window_time(), 30);
    assert_eq!(hb.get_global_work(), 45);
}

#[test]
fn window_restarts_after_boundary() {
    let mut hb = Heartbeat::<NoCallback>::new(5, None).unwrap();
    ten_seconds(&mut hb);
    hb.heartbeat(10, 4, 10_000_000_000, 10_000_000_002);
    assert_eq!(hb.get_window_work(), 4);
    assert_eq!(hb.get_window_time(), 2);
    assert_eq!(hb.get_window_perf(), Ratio { num: 4, den: 2 });
    assert_eq!(hb.get_global_work(), 14);
}

#[test]
fn accuracy_rate_instant() {
    let mut hb = HeartbeatAcc::<NoCallback>::new(5, None).unwrap();
    hb.heartbeat(0, 10, 0, 1000, 7);
    assert_eq!(hb.get_instant_accuracy_rate(), Ratio { num: 7, den: 10 });
    assert!((value(hb.get_instant_accuracy_rate()) - 0.7).abs() < 1e-12);
    assert_eq!(hb.get_global_accuracy(), 7);
    assert_eq!(hb.get_window_accuracy(), 7);
    assert_eq!(hb.get_global_accuracy_rate(), Ratio { num: 7, den: 10 });
}

#[test]
fn power_instant() {
    let mut hb = HeartbeatPow::<NoCallback>::new(5, None).unwrap();
    hb.heartbeat(0, 1, 0, 1_000_000_000, 0, 1_000_000);
    assert_eq!(hb.get_instant_power(), Ratio { num: 1_000_000, den: 1_000_000_000 });
    assert!((value(hb.get_instant_power()) - 1e-3).abs() < 1e-15);
    assert_eq!(hb.get_global_energy(), 1_000_000);
    assert_eq!(hb.get_window_energy(), 1_000_000);
}

#[test]
fn acc_pow_all_groups() {
    let mut hb = HeartbeatAccPow::<NoCallback>::new(2, None).unwrap();
    hb.heartbeat(0, 10, 0, 100, 5, 1000, 1300);
    hb.heartbeat(1, 30, 100, 200, 30, 1300, 1400);
    assert_eq!(hb.get_global_work(), 40);
    assert_eq!(hb.get_global_accuracy(), 35);
    assert_eq!(hb.get_global_energy(), 400);
    assert_eq!(hb.get_global_accuracy_rate(), Ratio { num: 35, den: 40 });
    assert_eq!(hb.get_window_power(), Ratio { num: 400, den: 200 });
    assert_eq!(hb.get_instant_power(), Ratio { num: 100, den: 100 });
    assert_eq!(hb.get_instant_accuracy_rate(), Ratio { num: 30, den: 30 });
}

#[test]
fn global_performance_matches_counters() {
    let mut hb = HeartbeatAccPow::<NoCallback>::new(3, None).unwrap();
    let mut t: u64 = 5;
    for i in 0..8u64 {
        hb.heartbeat(i, i * 3 + 1, t, t + i + 2, i, 0, i);
        t += i + 2;
        let p = hb.get_global_perf();
        assert_eq!(p.num, hb.get_global_work());
        assert_eq!(p.den, hb.get_global_time());
        let w = hb.get_window_perf();
        assert_eq!(w.num, hb.get_window_work());
        assert_eq!(w.den, hb.get_window_time());
    }
}

#[test]
fn snapshot_before_buffer_is_full() {
    let mut hb = Heartbeat::<NoCallback>::new(5, None).unwrap();
    for i in 0..3u64 {
        hb.heartbeat(100 + i, i + 1, i * 10, i * 10 + 10);
    }
    let recs = hb.snapshot_records();
    assert_eq!(recs.len(), 3);
    for (k, r) in recs.iter().enumerate() {
        assert_eq!(r.id, k as u64);
        assert_eq!(r.user_tag, 100 + k as u64);
        assert_eq!(r.work, k as u64 + 1);
    }
    assert_eq!(recs[2].work_counters.global, 6);
}

#[test]
fn snapshot_after_wrap_keeps_latest_in_order() {
    let mut hb = Heartbeat::<NoCallback>::new(5, None).unwrap();
    for i in 0..7u64 {
        hb.heartbeat(i, i + 1, i * 10, i * 10 + 10);
    }
    let recs = hb.snapshot_records();
    assert_eq!(recs.len(), 5);
    let ids: Vec<u64> = recs.iter().map(|r| r.id).collect();
    assert_eq!(ids, vec![2, 3, 4, 5, 6]);
    assert_eq!(recs[4].work, 7);
    assert_eq!(recs[4].work_counters.global, 28);
    assert_eq!(recs[4].work_counters.window, 6 + 7);
    assert_eq!(recs[2].work_counters.window, 1 + 2 + 3 + 4 + 5);
}

#[test]
fn empty_snapshot_and_zero_reads() {
    let hb = Heartbeat::<NoCallback>::new(4, None).unwrap();
    assert!(hb.snapshot_records().is_empty());
    assert_eq!(hb.get_global_work(), 0);
    assert_eq!(hb.get_window_time(), 0);
    assert_eq!(hb.get_user_tag(), u64::MAX);
    assert!(value(hb.get_global_perf()).is_nan());
}

#[test]
fn reads_are_repeatable() {
    let mut hb = HeartbeatAccPow::<NoCallback>::new(3, None).unwrap();
    hb.heartbeat(1, 4, 10, 20, 2, 5, 9);
    hb.heartbeat(2, 6, 20, 25, 3, 9, 10);
    assert_eq!(hb.get_global_work(), hb.get_global_work());
    assert_eq!(hb.get_window_time(), hb.get_window_time());
    assert_eq!(hb.get_global_perf(), hb.get_global_perf());
    assert_eq!(hb.get_instant_power(), hb.get_instant_power());
    assert_eq!(hb.get_window_accuracy_rate(), hb.get_window_accuracy_rate());
    assert_eq!(hb.snapshot_records(), hb.snapshot_records());
}

#[test]
fn zero_window_size_is_refused() {
    assert!(Heartbeat::<NoCallback>::new(0, None).is_err());
    assert!(HeartbeatAcc::<NoCallback>::new(0, None).is_err());
    assert!(HeartbeatPow::<NoCallback>::new(0, None).is_err());
    assert!(HeartbeatAccPow::<NoCallback>::new(0, None).is_err());
}

#[test]
fn zero_elapsed_time_gives_degenerate_rates() {
    let mut hb = Heartbeat::<NoCallback>::new(2, None).unwrap();
    hb.heartbeat(0, 1, 50, 50);
    assert_eq!(hb.get_instant_perf(), Ratio { num: 1, den: 0 });
    assert!(value(hb.get_instant_perf()).is_infinite());
    hb.heartbeat(1, 0, 60, 60);
    assert!(value(hb.get_instant_perf()).is_nan());
    assert!(value(hb.get_window_perf()).is_infinite());
}

#[test]
fn user_tag_can_be_set() {
    let mut hb = Heartbeat::<NoCallback>::new(2, None).unwrap();
    hb.set_user_tag(42);
    assert_eq!(hb.get_user_tag(), 42);
    hb.heartbeat(7, 1, 0, 1);
    assert_eq!(hb.get_user_tag(), 7);
    assert_eq!(hb.context().get_user_tag(), 7);
}

#[test]
fn buffer_index_saturates_at_window_size() {
    let mut hb = Heartbeat::<NoCallback>::new(3, None).unwrap();
    assert_eq!(hb.context().get_buffer_index(), 0);
    for i in 0..5u64 {
        hb.heartbeat(i, 1, i, i + 1);
        assert_eq!(hb.context().get_buffer_index(), std::cmp::min(i + 1, 3));
    }
}

#[test]
fn zero_window_size_error_message() {
    assert_eq!(Heartbeat::<NoCallback>::new(0, None).err(), Some("Failed to initialize heartbeat"));
    assert_eq!(HeartbeatPow::<NoCallback>::new(0, None).err(), Some("Failed to initialize heartbeat"));
}
