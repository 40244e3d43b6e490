use cardtrace::random::Rng;

#[test]
fn known_first_draws() {
    let mut r = Rng::new(0);
    assert_eq!(r.next_u64(), 0xe220a8397b1dcdaf);
    assert_eq!(r.next_u64(), 0x6e789e6aa1b965f4);
    assert_eq!(r.next_u64(), 0x06c45d188009454f);
}

#[test]
fn unit_bits_are_the_top_bits() {
    let mut r = Rng::new(42);
    let v = r.next_unit_bits();
    assert_eq!(v, 0xbdd732262feb6e95 >> 11);
    assert!(v < 1u64 << 53);
}

#[test]
fn same_seed_same_stream() {
    let mut a = Rng::for_worker(7, 3);
    let mut b = Rng::for_worker(7, 3);
    for _ in 0..1000 {
        assert_eq!(a.next_u64(), b.next_u64());
    }
}

#[test]
fn worker_start_is_spaced_from_seed() {
    let mut a = Rng::for_worker(7, 3);
    let mut b = Rng::new(0x751fde9874b8c710);
    assert_eq!(a.next_u64(), b.next_u64());
}

#[test]
fn different_seeds_differ() {
    let mut a = Rng::new(1);
    let mut b = Rng::new(2);
    let mut c = Rng::for_worker(1, 1);
    let x = a.next_u64();
    assert_ne!(x, b.next_u64());
    assert_ne!(x, c.next_u64());
}

#[test]
fn workers_of_one_run_differ() {
    let mut a = Rng::for_worker(9, 0);
    let mut b = Rng::for_worker(9, 1);
    let mut c = Rng::for_worker(9, u64::MAX);
    let x = a.next_u64();
    assert_ne!(x, b.next_u64());
    assert_ne!(x, c.next_u64());
}
