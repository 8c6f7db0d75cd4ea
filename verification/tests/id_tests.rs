use std::collections::HashSet;
use story::id::{compose_id, reasonably_unique_id, IdGenerator};

fn counter_component(id: &str) -> u64 {
    id.rsplit('_').next().unwrap().parse().unwrap()
}

#[test]
fn compose_id_renders_decimal_digits() {
    assert_eq!(compose_id(0, 0), "0_0");
    assert_eq!(compose_id(12, 3), "12_3");
    assert_eq!(compose_id(1234567890, 42), "1234567890_42");
    assert_eq!(
        compose_id(u128::MAX, u64::MAX),
        format!("{}_{}", u128::MAX, u64::MAX)
    );
}

#[test]
fn generator_counts_up_from_zero() {
    let mut ids = IdGenerator::new();
    assert_eq!(ids.counter_value(), 0);
    let a = ids.next_id().unwrap();
    assert_eq!(ids.counter_value(), 1);
    let b = ids.next_id().unwrap();
    assert_eq!(ids.counter_value(), 2);
    assert_eq!(counter_component(&a), 0);
    assert_eq!(counter_component(&b), 1);
}

#[test]
fn ids_are_pairwise_distinct() {
    let mut ids = IdGenerator::new();
    let mut seen = HashSet::new();
    for _ in 0..1000 {
        let id = ids.next_id().unwrap();
        assert!(seen.insert(id));
    }
    assert_eq!(seen.len(), 1000);
}

#[test]
fn counter_component_increases_across_calls() {
    let mut ids = IdGenerator::new();
    let mut last: Option<u64> = None;
    for _ in 0..100 {
        let id = ids.next_id().unwrap();
        let c = counter_component(&id);
        if let Some(prev) = last {
            assert!(c > prev);
        }
        last = Some(c);
    }
}

#[test]
fn reasonably_unique_id_draws_from_generator() {
    let mut ids = IdGenerator::new();
    let a = reasonably_unique_id(&mut ids).unwrap();
    let b = reasonably_unique_id(&mut ids).unwrap();
    assert_ne!(a, b);
    assert!(a.contains('_'));
    assert_eq!(counter_component(&a), 0);
    assert_eq!(counter_component(&b), 1);
}
