use fanout::coordinator::run_simulation;
use fanout::coordinator::Config;
use fanout::registry::print_delay;

#[test]
fn boundary_one_producer_one_consumer_one_message() {
    let ids: Vec<u128> = vec![42];
    let (registry, consumed, claims) = run_simulation(1, 1, 1, &ids);
    assert_eq!(registry.len(), 1);
    assert_eq!(consumed.len(), 1);
    assert_eq!(claims, vec![42u128]);
    let report = print_delay(&registry);
    assert_eq!(report.len(), 1);
    assert_eq!(report[0].0, 42u128);
    let latency = report[0].1;
    assert_eq!(latency, 1);
    assert!(latency <= 1100);
}

#[test]
fn boundary_no_consumers() {
    let ids: Vec<u128> = vec![10, 11, 12, 13, 14, 15];
    let (registry, consumed, claims) = run_simulation(2, 0, 3, &ids);
    assert_eq!(registry.len(), 6);
    assert_eq!(consumed.len(), 0);
    assert_eq!(claims.len(), 0);
    assert_eq!(print_delay(&registry), Vec::new());
}

#[test]
fn stress_many_producers_and_consumers() {
    let total: usize = 50 * 20;
    let ids: Vec<u128> = (0..total as u128).collect();
    let (registry, consumed, claims) = run_simulation(50, 50, 20, &ids);
    assert_eq!(registry.len(), total);
    assert_eq!(consumed.len(), total);
    assert_eq!(claims.len(), total);

    // no duplicate first-processor claims
    let mut seen = vec![false; total];
    for id in &claims {
        let k = *id as usize;
        assert!(!seen[k]);
        seen[k] = true;
    }

    // every published message is finalized, with its end at or after its start
    let report = print_delay(&registry);
    assert_eq!(report.len(), total);
    for (k, entry) in report.iter().enumerate() {
        assert_eq!(entry.0, k as u128);
        assert_eq!(entry.1, total as u64);
    }
}

#[test]
fn finalized_count_never_exceeds_published() {
    let ids: Vec<u128> = vec![3, 1, 4, 15, 9];
    let (registry, _consumed, claims) = run_simulation(5, 2, 1, &ids);
    assert!(claims.len() <= ids.len());
    assert!(print_delay(&registry).len() <= ids.len());
}

#[test]
fn default_config_matches_cli_defaults() {
    let config = Config::default();
    assert_eq!(config.producers, 10);
    assert_eq!(config.consumers, 5);
    assert_eq!(config.messages_per_producer, 5);
}
