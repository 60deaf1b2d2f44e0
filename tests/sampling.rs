use fescent::sampling::{chain_gradient_coordinates, CoordinateSampler};

#[test]
fn empty_range_gives_no_sampler() {
    assert!(CoordinateSampler::new(0, 7).is_none());
    assert!(CoordinateSampler::for_chain(0, 7).is_none());
    assert!(CoordinateSampler::for_chain(1, 7).is_none());
}

#[test]
fn chain_sampler_leaves_out_last_coordinate() {
    let s = CoordinateSampler::for_chain(1000, 3).unwrap();
    assert_eq!(s.bound(), 999);
    let s = CoordinateSampler::for_chain(2, 3).unwrap();
    assert_eq!(s.bound(), 1);
}

#[test]
fn single_index_range_always_draws_zero() {
    let mut s = CoordinateSampler::new(1, 11).unwrap();
    for _ in 0..100 {
        assert_eq!(s.next_index(), 0);
    }
}

#[test]
fn draws_stay_below_bound() {
    let mut s = CoordinateSampler::for_chain(5, 42).unwrap();
    let mut seen = [false; 4];
    for _ in 0..1000 {
        let i = s.next_index();
        assert!(i < 4);
        seen[i] = true;
    }
    assert!(seen.iter().all(|&b| b));
    assert_eq!(s.bound(), 4);
}

#[test]
fn same_seed_gives_same_indices() {
    let mut a = CoordinateSampler::for_chain(1000, 2024).unwrap();
    let mut b = CoordinateSampler::for_chain(1000, 2024).unwrap();
    for _ in 0..100_000 {
        assert_eq!(a.next_index(), b.next_index());
    }
}

#[test]
fn chain_coordinates_are_successor_then_index() {
    assert_eq!(chain_gradient_coordinates(0, 2), [1, 0, 0]);
    assert_eq!(chain_gradient_coordinates(998, 1000), [999, 998, 998]);
    assert_eq!(chain_gradient_coordinates(17, 1000), [18, 17, 17]);
}
