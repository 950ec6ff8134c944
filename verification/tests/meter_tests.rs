use mining_stats::difficulty::{Shares, Target};
use mining_stats::hashes::HashesUnit;
use mining_stats::meter::{default_time_mean_intervals, Meter, MeterSnapshot};
use mining_stats::time_mean::WindowedTimeMean;

fn snapshot(meter: &Meter) -> MeterSnapshot {
    meter.take_snapshot()
}

#[test]
fn fresh_meter_counts_zero() {
    let intervals: Vec<u64> = vec![5, 60];
    let meter = Meter::new(&intervals);
    let snap = snapshot(&meter);
    assert_eq!(snap.solutions, 0);
    assert_eq!(snap.shares.total, 0);
}

#[test]
fn monotonic_counting_many_solutions() {
    let intervals: Vec<u64> = vec![5];
    let mut meter = Meter::new(&intervals);
    let target = Target::from_difficulty(1);
    let n: u64 = 250;
    let mut i: u64 = 0;
    while i < n {
        meter.account_solution(&target, i);
        i += 1;
    }
    let snap = snapshot(&meter);
    assert_eq!(snap.solutions, n);
    assert_eq!(snap.shares.total, n as u128);
}

#[test]
fn snapshot_independent_of_later_mutation() {
    let intervals: Vec<u64> = vec![5, 60];
    let mut meter = Meter::new(&intervals);
    let target = Target::from_difficulty(3);
    meter.account_solution(&target, 10);
    let snap = snapshot(&meter);
    let rate_before = snap.to_kilo_hashes(5, 10);
    meter.account_solution(&target, 11);
    meter.account_solution(&target, 12);
    assert_eq!(snap.solutions, 1);
    assert_eq!(snap.shares.total, 3);
    assert_eq!(snap.to_kilo_hashes(5, 10), rate_before);
    assert_eq!(snapshot(&meter).solutions, 3);
}

#[test]
fn interval_completeness_configured_intervals_succeed() {
    let intervals: Vec<u64> = vec![5, 60];
    let meter = Meter::new(&intervals);
    let snap = snapshot(&meter);
    assert!(snap.contains_interval(5));
    assert!(snap.contains_interval(60));
    assert!(!snap.contains_interval(300));
    assert_eq!(snap.to_kilo_hashes(5, 0), HashesUnit::KiloHashes(0));
    assert_eq!(snap.to_kilo_hashes(60, 0), HashesUnit::KiloHashes(0));
}

#[test]
fn default_meter_has_the_five_default_intervals() {
    let meter = Meter::default();
    let snap = snapshot(&meter);
    let expected: Vec<u64> = vec![5, 60, 300, 900, 86400];
    assert_eq!(default_time_mean_intervals(), expected);
    for interval in expected {
        assert!(snap.contains_interval(interval));
    }
    assert!(!snap.contains_interval(7));
}

#[test]
fn accounting_scenario_two_intervals() {
    // Meter over {5 s, 60 s}; one solution at t0; snapshot immediately.
    let intervals: Vec<u64> = vec![5, 60];
    let mut meter = Meter::new(&intervals);
    let target = Target::from_difficulty(2);
    let t0: u64 = 100;
    meter.account_solution(&target, t0);
    let snap = snapshot(&meter);
    assert_eq!(snap.solutions, 1);
    // shares reflect exactly one accumulation of the target's difficulty
    assert_eq!(snap.shares.total, 2);
    // one sample of 2 * 4294967 kilo-hashes inside the 5 s window
    assert_eq!(snap.to_kilo_hashes(5, t0), HashesUnit::KiloHashes(8589934 / 5));
    assert_eq!(snap.to_kilo_hashes(60, t0), HashesUnit::KiloHashes(8589934 / 60));
}

#[test]
fn samples_leave_the_window() {
    let intervals: Vec<u64> = vec![5];
    let mut meter = Meter::new(&intervals);
    let target = Target::from_difficulty(1);
    meter.account_solution(&target, 10);
    let snap = snapshot(&meter);
    assert_eq!(snap.to_kilo_hashes(5, 10), HashesUnit::KiloHashes(4294967 / 5));
    // five seconds later the sample has aged out of the trailing window
    assert_eq!(snap.to_kilo_hashes(5, 15), HashesUnit::KiloHashes(0));
}

#[test]
fn unit_scaling_follows_kilo_measurement() {
    let intervals: Vec<u64> = vec![1];
    let mut meter = Meter::new(&intervals);
    // 1000 difficulty: 1000 * 4294967 kilo-hashes in a 1 s window
    let target = Target::from_difficulty(1000);
    meter.account_solution(&target, 7);
    let snap = snapshot(&meter);
    let kilo: u128 = 4294967000;
    assert_eq!(snap.to_kilo_hashes(1, 7), HashesUnit::KiloHashes(kilo));
    assert_eq!(snap.to_mega_hashes(1, 7), HashesUnit::MegaHashes(kilo / 1000));
    assert_eq!(snap.to_giga_hashes(1, 7), HashesUnit::GigaHashes(kilo / 1000000));
    assert_eq!(snap.to_tera_hashes(1, 7), HashesUnit::TeraHashes(kilo / 1000000000));
    assert_eq!(snap.to_pretty_hashes(1, 7), HashesUnit::TeraHashes(4));
}

#[test]
fn windowed_time_mean_measures_exactly() {
    let mut mean = WindowedTimeMean::new(10);
    assert_eq!(mean.interval(), 10);
    assert_eq!(mean.measure(0), 0);
    mean.insert(100, 5);
    mean.insert(40, 9);
    // both samples inside the window ending at 12: (100 + 40) / 10
    assert_eq!(mean.measure(12), 14);
    // at 16 the first sample (5 + 10 <= 16) has aged out: 40 / 10
    assert_eq!(mean.measure(16), 4);
}

#[test]
fn aged_samples_are_discarded_on_insert() {
    let mut mean = WindowedTimeMean::new(5);
    mean.insert(100, 0);
    // by second 20 the first sample has aged out of the window and is
    // discarded while inserting the second, so storage stays bounded:
    // measuring back at second 3 no longer sees it
    mean.insert(50, 20);
    assert_eq!(mean.measure(3), 10);
    assert_eq!(mean.measure(20), 10);
    assert_eq!(mean.measure(25), 0);
}

#[test]
fn shares_accumulate_and_convert() {
    let target = Target::from_difficulty(2);
    let mut shares = Shares::new(&target);
    assert_eq!(shares.total, 2);
    shares.account_solution(&Target::from_difficulty(5));
    assert_eq!(shares.total, 7);
    assert_eq!(shares.into_kilo_hashes(), 7 * 4294967);
    assert_eq!(Shares::default().total, 0);
}

#[test]
fn shares_kilo_hashes_saturate() {
    let shares = Shares::new(&Target::from_difficulty(u64::MAX));
    assert_eq!(shares.into_kilo_hashes(), u64::MAX);
    let huge = Shares { total: u128::MAX };
    assert_eq!(huge.into_kilo_hashes(), u64::MAX);
}

#[test]
fn shares_total_wraps_on_overflow() {
    let mut shares = Shares { total: u128::MAX };
    shares.account_solution(&Target::from_difficulty(5));
    assert_eq!(shares.total, 4);
}

#[test]
fn hashes_unit_conversions_are_exact() {
    let rate = HashesUnit::KiloHashes(123456789012);
    assert_eq!(rate.into_kilo_hashes(), HashesUnit::KiloHashes(123456789012));
    assert_eq!(rate.into_mega_hashes(), HashesUnit::MegaHashes(123456789));
    assert_eq!(rate.into_giga_hashes(), HashesUnit::GigaHashes(123456));
    assert_eq!(rate.into_tera_hashes(), HashesUnit::TeraHashes(123));
    assert_eq!(rate.into_pretty_hashes(), HashesUnit::TeraHashes(123));
    assert_eq!(
        HashesUnit::GigaHashes(2).into_mega_hashes(),
        HashesUnit::MegaHashes(2000)
    );
    assert_eq!(
        HashesUnit::TeraHashes(3).into_kilo_hashes(),
        HashesUnit::KiloHashes(3000000000)
    );
}

#[test]
fn pretty_unit_selection_boundaries() {
    assert_eq!(
        HashesUnit::KiloHashes(999).into_pretty_hashes(),
        HashesUnit::KiloHashes(999)
    );
    assert_eq!(
        HashesUnit::KiloHashes(1000).into_pretty_hashes(),
        HashesUnit::MegaHashes(1)
    );
    assert_eq!(
        HashesUnit::KiloHashes(999999999).into_pretty_hashes(),
        HashesUnit::GigaHashes(999)
    );
    assert_eq!(
        HashesUnit::KiloHashes(1000000000).into_pretty_hashes(),
        HashesUnit::TeraHashes(1)
    );
}
