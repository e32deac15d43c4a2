use std::cell::Cell;

use heartbeats_simple::context::HeartbeatContext;
use heartbeats_simple::hbs::Heartbeat;
use heartbeats_simple::hbs_acc::HeartbeatAcc;
use heartbeats_simple::hbs_acc_pow::HeartbeatAccPow;
use heartbeats_simple::hbs_pow::HeartbeatPow;

type NoCallback = fn(&HeartbeatContext);

#[test]
fn hbs_test_simple() {
    const TIME_INC: u64 = 1000000000;
    let mut hb = Heartbeat::<NoCallback>::new(5, None).unwrap();
    let mut start_time: u64 = 0;
    let mut end_time: u64 = TIME_INC;
    for tag in 0..10 {
        hb.heartbeat(tag, 1, start_time, end_time);
        start_time = end_time;
        end_time += TIME_INC;
    }
}

#[test]
fn hbs_test_callback() {
    let received_cb = Cell::new(false);
    let mut hb = Heartbeat::new(1, Some(|_hb: &HeartbeatContext| received_cb.set(true))).unwrap();
    hb.heartbeat(0, 1, 0, 1000);
    assert!(received_cb.get());
}

#[test]
fn hbs_acc_test_simple() {
    const TIME_INC: u64 = 1000000000;
    let mut hb = HeartbeatAcc::<NoCallback>::new(5, None).unwrap();
    let mut start_time: u64 = 0;
    let mut end_time: u64 = TIME_INC;
    for tag in 0..10 {
        hb.heartbeat(tag, 1, start_time, end_time, 1);
        start_time = end_time;
        end_time += TIME_INC;
    }
}

#[test]
fn hbs_acc_test_callback() {
    let received_cb = Cell::new(false);
    let mut hb = HeartbeatAcc::new(1, Some(|_hb: &HeartbeatContext| received_cb.set(true))).unwrap();
    hb.heartbeat(0, 1, 0, 1000, 1);
    assert!(received_cb.get());
}

#[test]
fn hbs_acc_pow_test_simple() {
    const TIME_INC: u64 = 1000000000;
    const ENERGY_INC: u64 = 1000000;
    let mut hb = HeartbeatAccPow::<NoCallback>::new(5, None).unwrap();
    let mut start_time: u64 = 0;
    let mut end_time: u64 = TIME_INC;
    let mut start_energy: u64 = 0;
    let mut end_energy: u64 = ENERGY_INC;
    for tag in 0..10 {
        hb.heartbeat(tag, 1, start_time, end_time, 1, start_energy, end_energy);
        start_time = end_time;
        end_time += TIME_INC;
        start_energy = end_energy;
        end_energy += ENERGY_INC;
    }
}

#[test]
fn hbs_acc_pow_test_callback() {
    let received_cb = Cell::new(false);
    let mut hb =
        HeartbeatAccPow::new(1, Some(|_hb: &HeartbeatContext| received_cb.set(true))).unwrap();
    hb.heartbeat(0, 1, 0, 1000, 1, 0, 0);
    assert!(received_cb.get());
}

#[test]
fn pow_test_simple() {
    const TIME_INC: u64 = 1000000000;
    const ENERGY_INC: u64 = 1000000;
    let mut hb = HeartbeatPow::<NoCallback>::new(5, None).unwrap();
    let mut start_time: u64 = 0;
    let mut end_time: u64 = TIME_INC;
    let mut start_energy: u64 = 0;
    let mut end_energy: u64 = ENERGY_INC;
    for tag in 0..10 {
        hb.heartbeat(tag, 1, start_time, end_time, start_energy, end_energy);
        start_time = end_time;
        end_time += TIME_INC;
        start_energy = end_energy;
        end_energy += ENERGY_INC;
    }
}

#[test]
fn pow_test_callback() {
    let received_cb = Cell::new(false);
    let mut hb = HeartbeatPow::new(1, Some(|_hb: &HeartbeatContext| received_cb.set(true))).unwrap();
    hb.heartbeat(0, 1, 0, 1000, 0, 0);
    assert!(received_cb.get());
}
