use search_rs::recency::RecencyOracle;
use search_rs::result::SearchResult;
use search_rs::sorter::FileSorter;

fn result_at(path: &str, line: usize) -> SearchResult {
    SearchResult::new(
        path.to_string(),
        line,
        format!("line {} of {}", line, path),
        "match".to_string(),
        None,
        None,
    )
}

#[test]
fn test_pass_through_keeps_arrival_order() {
    // Aggregator disabled: batches are appended unchanged, no ranking.
    let mut sorter = FileSorter::new();
    assert!(!sorter.is_enabled());

    let r1 = result_at("a.rs", 1);
    let r2 = result_at("b.rs", 2);
    let r3 = result_at("c.rs", 3);

    let returned = sorter.add_results(vec![r1.clone(), r2.clone()]);
    assert_eq!(returned, vec![r1.clone(), r2.clone()]);
    let returned = sorter.add_results(vec![r3.clone()]);
    assert_eq!(returned, vec![r3.clone()]);

    assert_eq!(sorter.len(), 3);
    assert_eq!(sorter.get_all_results(), &vec![r1, r2, r3]);
}

#[test]
fn test_enabled_merge_orders_by_descending_time() {
    // Aggregator enabled, the oracle seeded: t(r1)=100, t(r2)=50, t(r3)=75.
    let mut sorter = FileSorter::new();
    sorter.set_enabled(true);

    let r1 = result_at("a.rs", 1);
    let r2 = result_at("b.rs", 2);
    let r3 = result_at("c.rs", 3);

    sorter.memoize_time(&"a.rs".to_string(), 1, 100);
    sorter.memoize_time(&"b.rs".to_string(), 2, 50);
    sorter.memoize_time(&"c.rs".to_string(), 3, 75);

    let _ = sorter.add_results(vec![r1.clone(), r2.clone()]);
    assert_eq!(sorter.get_all_results(), &vec![r1.clone(), r2.clone()]);

    let _ = sorter.add_results(vec![r3.clone()]);
    assert_eq!(sorter.get_all_results(), &vec![r1, r3, r2]);
}

#[test]
fn test_merge_totality_counts_and_order() {
    // Any two batches: the global order holds every element of both, sorted
    // by descending seeded time.
    let mut sorter = FileSorter::new();
    sorter.set_enabled(true);

    let times: [(usize, i64); 6] = [(1, 10), (2, 90), (3, 40), (4, 70), (5, 20), (6, 60)];
    for (line, t) in times {
        sorter.memoize_time(&"f.rs".to_string(), line, t);
    }

    let batch_a = vec![result_at("f.rs", 1), result_at("f.rs", 2), result_at("f.rs", 3)];
    let batch_b = vec![result_at("f.rs", 4), result_at("f.rs", 5), result_at("f.rs", 6)];

    let _ = sorter.add_results(batch_a);
    let _ = sorter.add_results(batch_b);

    assert_eq!(sorter.len(), 6);
    let lines: Vec<usize> = sorter
        .get_all_results()
        .iter()
        .map(|r| r.line_number)
        .collect();
    assert_eq!(lines, vec![2, 4, 6, 3, 5, 1]);
}

#[test]
fn test_order_independence_with_distinct_times() {
    // Adding A then B equals adding B then A, given the same oracle answers.
    let batch_a = vec![result_at("x.rs", 1), result_at("x.rs", 2)];
    let batch_b = vec![result_at("x.rs", 3), result_at("x.rs", 4)];

    let seed = |sorter: &mut FileSorter| {
        sorter.set_enabled(true);
        sorter.memoize_time(&"x.rs".to_string(), 1, 5);
        sorter.memoize_time(&"x.rs".to_string(), 2, 25);
        sorter.memoize_time(&"x.rs".to_string(), 3, 15);
        sorter.memoize_time(&"x.rs".to_string(), 4, 35);
    };

    let mut first = FileSorter::new();
    seed(&mut first);
    let _ = first.add_results(batch_a.clone());
    let _ = first.add_results(batch_b.clone());

    let mut second = FileSorter::new();
    seed(&mut second);
    let _ = second.add_results(batch_b);
    let _ = second.add_results(batch_a);

    assert_eq!(first.get_all_results(), second.get_all_results());
    let lines: Vec<usize> = first
        .get_all_results()
        .iter()
        .map(|r| r.line_number)
        .collect();
    assert_eq!(lines, vec![4, 2, 3, 1]);
}

#[test]
fn test_oracle_memoized_key_is_stable() {
    // A key once recorded keeps its value; a second lookup answers the same.
    let mut oracle = RecencyOracle::new();
    let path = "src/lib.rs".to_string();
    oracle.record(&path, 7, 1234);

    let first = oracle.modification_time(&path, 7);
    let second = oracle.modification_time(&path, 7);
    assert_eq!(first, 1234);
    assert_eq!(second, 1234);

    // Recording again does not overwrite the first answer.
    oracle.record(&path, 7, 9999);
    assert_eq!(oracle.lookup(&path, 7), Some(1234));
}

#[test]
fn test_sorter_modification_time_is_memoized() {
    // The sorter's oracle route returns the seeded value and never probes.
    let mut sorter = FileSorter::new();
    let r = result_at("seeded.rs", 3);
    sorter.memoize_time(&"seeded.rs".to_string(), 3, 777);
    assert_eq!(sorter.get_modification_time(&r), 777);
    assert_eq!(sorter.get_modification_time(&r), 777);
}

#[test]
fn test_clear_resets_results_and_times() {
    let mut sorter = FileSorter::new();
    sorter.set_enabled(true);
    sorter.memoize_time(&"y.rs".to_string(), 1, 11);
    let _ = sorter.add_results(vec![result_at("y.rs", 1)]);
    assert_eq!(sorter.len(), 1);
    assert!(!sorter.is_empty());

    sorter.clear();
    assert_eq!(sorter.len(), 0);
    assert!(sorter.is_empty());
    assert!(sorter.is_enabled());

    // The seeded time is gone with the session; a fresh seed takes effect.
    sorter.memoize_time(&"y.rs".to_string(), 1, 22);
    assert_eq!(
        sorter.get_modification_time(&result_at("y.rs", 1)),
        22
    );
}

#[test]
fn test_empty_batch_is_a_no_op_append() {
    let mut sorter = FileSorter::new();
    sorter.set_enabled(true);
    let returned = sorter.add_results(vec![]);
    assert!(returned.is_empty());
    assert_eq!(sorter.len(), 0);
}
