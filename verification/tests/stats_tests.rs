use mining_stats::difficulty::{Solution, Target};
use mining_stats::stats::{
    account_error_backend_diff, account_valid_backend_diff, account_valid_job_diff,
    account_valid_network_diff, account_valid_solution, account_valid_solution_node,
    BasicMining, DiffTargetType, Mining,
};

fn test_solution() -> Solution {
    Solution::new(
        Target::from_difficulty(1000),
        Target::from_difficulty(100),
        Target::from_difficulty(1),
    )
}

fn three_node_path() -> Vec<BasicMining> {
    let intervals: Vec<u64> = vec![5, 60];
    vec![
        BasicMining::new(0, &intervals),
        BasicMining::new(0, &intervals),
        BasicMining::new(0, &intervals),
    ]
}

fn counts_via_capability<T: Mining>(node: &T) -> (u64, u64, u64, u64) {
    (
        node.valid_network_diff().take_snapshot().solutions,
        node.valid_job_diff().take_snapshot().solutions,
        node.valid_backend_diff().take_snapshot().solutions,
        node.error_backend_diff().take_snapshot().solutions,
    )
}

fn counts(node: &BasicMining) -> (u64, u64, u64, u64) {
    (
        node.valid_network_diff.take_snapshot().solutions,
        node.valid_job_diff.take_snapshot().solutions,
        node.valid_backend_diff.take_snapshot().solutions,
        node.error_backend_diff.take_snapshot().solutions,
    )
}

#[test]
fn basic_mining_new_builds_four_fresh_meters() {
    let intervals: Vec<u64> = vec![5];
    let node = BasicMining::new(42, &intervals);
    assert_eq!(node.start_time(), 42);
    assert_eq!(counts(&node), (0, 0, 0, 0));
    assert!(node.valid_job_diff.take_snapshot().contains_interval(5));
    assert!(!node.valid_job_diff.take_snapshot().contains_interval(60));
}

#[test]
fn default_node_uses_default_intervals() {
    let node = BasicMining::default();
    assert_eq!(node.start_time(), 0);
    let snap = node.valid_backend_diff.take_snapshot();
    for interval in [5u64, 60, 300, 900, 86400] {
        assert!(snap.contains_interval(interval));
    }
}

#[test]
fn mining_capability_exposes_the_four_meters() {
    let intervals: Vec<u64> = vec![5];
    let mut node = BasicMining::new(0, &intervals);
    node.valid_network_diff
        .account_solution(&Target::from_difficulty(1), 0);
    assert_eq!(counts_via_capability(&node), (1, 0, 0, 0));
    assert_eq!(node.start_time(), 0);
}

#[test]
fn containment_network_tier_credits_all_three() {
    let mut path = three_node_path();
    account_valid_solution(&mut path, &test_solution(), 10, DiffTargetType::Network);
    for node in &path {
        assert_eq!(counts(node), (1, 1, 1, 0));
    }
}

#[test]
fn containment_job_tier_credits_job_and_backend() {
    let mut path = three_node_path();
    account_valid_solution(&mut path, &test_solution(), 10, DiffTargetType::Job);
    for node in &path {
        assert_eq!(counts(node), (0, 1, 1, 0));
    }
}

#[test]
fn containment_backend_tier_credits_backend_only() {
    let mut path = three_node_path();
    account_valid_solution(&mut path, &test_solution(), 10, DiffTargetType::Backend);
    for node in &path {
        assert_eq!(counts(node), (0, 0, 1, 0));
    }
}

#[test]
fn tier_accounting_uses_the_matching_target() {
    let mut path = three_node_path();
    account_valid_solution(&mut path, &test_solution(), 10, DiffTargetType::Network);
    let node = &path[0];
    assert_eq!(node.valid_network_diff.take_snapshot().shares.total, 1000);
    assert_eq!(node.valid_job_diff.take_snapshot().shares.total, 100);
    assert_eq!(node.valid_backend_diff.take_snapshot().shares.total, 1);
}

#[test]
fn single_node_tier_accounting() {
    let intervals: Vec<u64> = vec![5];
    let mut node = BasicMining::new(0, &intervals);
    account_valid_solution_node(&mut node, &test_solution(), 3, DiffTargetType::Job);
    assert_eq!(counts(&node), (0, 1, 1, 0));
    account_valid_solution_node(&mut node, &test_solution(), 4, DiffTargetType::Network);
    assert_eq!(counts(&node), (1, 2, 2, 0));
}

#[test]
fn hierarchical_propagation_credits_every_path_node_once() {
    let mut path = three_node_path();
    let target = Target::from_difficulty(7);
    account_valid_job_diff(&mut path, &target, 10);
    for node in &path {
        assert_eq!(counts(node), (0, 1, 0, 0));
        assert_eq!(node.valid_job_diff.take_snapshot().shares.total, 7);
    }
    // a node never handed to the accounting call is unaffected
    let intervals: Vec<u64> = vec![5, 60];
    let outside = BasicMining::new(0, &intervals);
    assert_eq!(counts(&outside), (0, 0, 0, 0));
}

#[test]
fn each_category_function_credits_its_own_meter() {
    let target = Target::from_difficulty(2);
    let mut path = three_node_path();
    account_valid_network_diff(&mut path, &target, 1);
    account_valid_job_diff(&mut path, &target, 1);
    account_valid_job_diff(&mut path, &target, 2);
    account_valid_backend_diff(&mut path, &target, 2);
    account_error_backend_diff(&mut path, &target, 3);
    for node in &path {
        assert_eq!(counts(node), (1, 2, 1, 1));
    }
}

#[test]
fn empty_path_accounts_nothing() {
    let mut path: Vec<BasicMining> = Vec::new();
    account_valid_solution(&mut path, &test_solution(), 10, DiffTargetType::Network);
    assert!(path.is_empty());
}

#[test]
fn reporting_sample_over_job_meter() {
    // what one reporting tick computes: a snapshot of the job meter and a
    // pretty-printed rate over a configured interval
    let mut path = three_node_path();
    account_valid_solution(&mut path, &test_solution(), 100, DiffTargetType::Network);
    let snap = path[2].valid_job_diff().take_snapshot();
    assert!(snap.contains_interval(60));
    let rate = snap.to_pretty_hashes(60, 100);
    // 100 difficulty * 4294967 kilo-hashes over 60 s: 7158277 kH/s, ~7 GH/s
    assert_eq!(rate, mining_stats::hashes::HashesUnit::GigaHashes(7));
}
