use noise::Cache;

fn bits(point: &[f64]) -> Vec<u64> {
    point.iter().map(|c| c.to_bits()).collect()
}

#[test]
fn new_cache_has_nothing_on_record() {
    let cache = Cache::new();
    assert_eq!(cache.lookup(&bits(&[0.0, 0.0])), None);
    assert_eq!(cache.lookup(&[]), None);
}

#[test]
fn store_then_lookup() {
    let mut cache = Cache::new();
    let point: Vec<u64> = bits(&[1.5, -2.25, 3.0]);
    cache.store(&point, (0.125f64).to_bits());
    assert_eq!(cache.lookup(&point), Some((0.125f64).to_bits()));
    assert_eq!(cache.lookup(&bits(&[1.5, -2.25, 3.5])), None);
    assert_eq!(cache.lookup(&bits(&[1.5, -2.25])), None);
    cache.store(&bits(&[9.0]), 7);
    assert_eq!(cache.lookup(&point), None);
    assert_eq!(cache.lookup(&bits(&[9.0])), Some(7));
}

#[test]
fn same_point_twice_calls_the_source_once() {
    let mut cache = Cache::new();
    let point: Vec<u64> = bits(&[0.5, 0.25]);
    let mut calls: u32 = 0;
    let first: u64 = cache.get(&point, || {
        calls += 1;
        (0.75f64).to_bits()
    });
    let second: u64 = cache.get(&point, || {
        calls += 1;
        (-0.75f64).to_bits()
    });
    assert_eq!(calls, 1);
    assert_eq!(f64::from_bits(first), 0.75);
    assert_eq!(second, first);
}

#[test]
fn another_point_calls_the_source_again() {
    let mut cache = Cache::new();
    let mut calls: u32 = 0;
    let a: u64 = cache.get(&bits(&[1.0, 2.0]), || {
        calls += 1;
        11
    });
    let b: u64 = cache.get(&bits(&[1.0, 2.5]), || {
        calls += 1;
        22
    });
    assert_eq!((a, b, calls), (11, 22, 2));
    assert_eq!(cache.lookup(&bits(&[1.0, 2.0])), None);
    assert_eq!(cache.lookup(&bits(&[1.0, 2.5])), Some(22));
    let c: u64 = cache.get(&bits(&[1.0, 2.0]), || {
        calls += 1;
        33
    });
    assert_eq!((c, calls), (33, 3));
}

#[test]
fn points_are_compared_bit_for_bit() {
    let mut cache = Cache::new();
    let mut calls: u32 = 0;
    cache.get(&bits(&[0.0]), || {
        calls += 1;
        1
    });
    let negative_zero: u64 = cache.get(&bits(&[-0.0]), || {
        calls += 1;
        2
    });
    assert_eq!((negative_zero, calls), (2, 2));

    let nan: Vec<u64> = bits(&[f64::NAN]);
    cache.get(&nan, || {
        calls += 1;
        3
    });
    let nan_again: u64 = cache.get(&nan, || {
        calls += 1;
        4
    });
    assert_eq!((nan_again, calls), (3, 3));
}

#[test]
fn a_clone_has_a_record_of_its_own() {
    let mut cache = Cache::new();
    let point: Vec<u64> = bits(&[4.0, 5.0, 6.0, 7.0]);
    cache.store(&point, 100);
    let mut copy = cache.clone();
    assert_eq!(copy.lookup(&point), Some(100));
    copy.store(&bits(&[0.0]), 200);
    assert_eq!(cache.lookup(&point), Some(100));
    assert_eq!(copy.lookup(&point), None);
}
