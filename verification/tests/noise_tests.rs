use deterministic_ball_sim::noise::{random_key_bytes, NOISE_BYTES};

#[test]
fn random_keys_fill_the_whole_block() {
    let a = random_key_bytes();
    let b = random_key_bytes();
    assert_eq!(a.len(), NOISE_BYTES);
    assert_eq!(b.len(), 4096 * 4);
    assert_ne!(a, b);
    assert!(a.iter().any(|&x| x != 0));
}
