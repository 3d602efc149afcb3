use fund_engine::rng::Rng;

#[test]
fn first_draws_from_fund_seed() {
    let mut rng = Rng::new(12345);
    assert_eq!(rng.next_raw(), 986996338168104);
    assert_eq!(rng.next_raw(), 2390378239609466);
    assert_eq!(rng.next_raw(), 7976991766744273);
}

#[test]
fn first_draws_from_monte_carlo_seed() {
    let mut rng = Rng::new(98765);
    assert_eq!(rng.next_raw(), 487927583075360);
    assert_eq!(rng.next_raw(), 4050847876721283);
    assert_eq!(rng.next_raw(), 566634255161752);
}

#[test]
fn state_follows_the_congruential_step() {
    let mut rng = Rng::new(12345);
    rng.next_raw();
    assert_eq!(rng.state, 2021368500568277588);
    rng.next_raw();
    assert_eq!(rng.state, 4895494634720187923);
}

#[test]
fn draw_raw_matches_repeated_next_raw() {
    let mut a = Rng::new(42);
    let batch = a.draw_raw(50);
    let mut b = Rng::new(42);
    for k in 0..50 {
        assert_eq!(batch[k], b.next_raw());
    }
    assert_eq!(a.state, b.state);
}

#[test]
fn same_seed_gives_bit_identical_streams() {
    let mut a = Rng::new(12345);
    let mut b = Rng::new(12345);
    assert_eq!(a.draw_raw(200), b.draw_raw(200));
    assert_eq!(a.state, b.state);
}

#[test]
fn different_seeds_diverge() {
    let mut a = Rng::new(12345);
    let mut b = Rng::new(98765);
    assert_ne!(a.draw_raw(4), b.draw_raw(4));
}

#[test]
fn zero_draws_leave_the_state_alone() {
    let mut rng = Rng::new(7);
    let drawn = rng.draw_raw(0);
    assert!(drawn.is_empty());
    assert_eq!(rng.state, 7);
}
