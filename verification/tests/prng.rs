use mem_arena::prng::Pcg32;

#[test]
fn seeded_stream_matches_the_reference_outputs() {
    let mut rng = Pcg32::new(42, 54);
    let expected: [u32; 6] = [
        0xa15c02b7, 0x7b47f409, 0xba1d3330, 0x83d2f293, 0xbfa4784b, 0xcbed606e,
    ];
    for want in expected {
        assert_eq!(rng.next_u32(), want);
    }
}

#[test]
fn equal_seeds_give_equal_streams() {
    let mut a = Pcg32::new(7, 11);
    let mut b = Pcg32::new(7, 11);
    for _ in 0..32 {
        assert_eq!(a.next_u32(), b.next_u32());
    }
}

#[test]
fn different_streams_diverge() {
    let mut a = Pcg32::new(7, 11);
    let mut b = Pcg32::new(7, 12);
    let same = (0..8).all(|_| a.next_u32() == b.next_u32());
    assert!(!same);
}

#[test]
fn default_uses_the_reference_constants() {
    let rng = Pcg32::default();
    assert_eq!(rng.state, 0x853c49e6748fea9b);
    assert_eq!(rng.inc, 0xda3e39cb94b95bdb);
}
