use sorosusu::stealth_mode::{
    derive_seed, generate_random_seed, mt_init, mt_next, mt_range, RngState, StealthConfig,
    StealthStore, MT_N,
};

#[test]
fn test_mt_init() {
    let rng = mt_init(12345);
    assert_eq!(rng.index, MT_N as u32);
}

#[test]
fn test_mt_range_uniformity() {
    let mut rng = mt_init(42);
    for _ in 0..100 {
        let val = mt_range(&mut rng, 10);
        assert!(val < 10);
    }
}

#[test]
fn test_derive_seed_deterministic() {
    let seed1 = derive_seed(100, 1);
    let seed2 = derive_seed(100, 1);
    assert_eq!(seed1, seed2);

    let seed3 = derive_seed(100, 2);
    assert_ne!(seed1, seed3);
}

#[test]
fn test_stealth_config_default() {
    let config = StealthConfig::default();
    assert!(!config.enabled);
    assert_eq!(config.seed, 0);
    assert_eq!(config.round_number, 0);
    assert_eq!(config.pending_winner, None);
    assert_eq!(config.revealed_winner, None);
}

#[test]
fn test_prepare_and_reveal_winner() {
    let mut store = StealthStore::new();
    store.init_stealth_mode(1, 9999);

    let winner = store.prepare_next_winner(1, 5);
    assert!(winner < 5);

    let config_after_prepare = store.get_stealth_config(1);
    assert_eq!(config_after_prepare.pending_winner, Some(winner));
    assert_eq!(config_after_prepare.revealed_winner, None);

    let revealed = store.reveal_winner(1);
    assert_eq!(revealed, Some(winner));

    let config_after_reveal = store.get_stealth_config(1);
    assert_eq!(config_after_reveal.revealed_winner, Some(winner));
}

#[test]
fn stealth_mt_init_reference_words() {
    // MT19937 initialisation of seed 5489 gives these first state words.
    let rng = mt_init(5489);
    assert_eq!(rng.state[0], 5489);
    assert_eq!(rng.state[1], 1301868182);
    assert_eq!(rng.state[2], 2938499221);
}

#[test]
fn stealth_derive_seed_exact() {
    assert_eq!(derive_seed(0, 0), 0xb);
    assert_eq!(derive_seed(1, 0), 0x5deece66d + 0xb);
    assert_eq!(derive_seed(0, 1), 0x5deece66d + 0xb);
}

#[test]
fn stealth_random_seed_exact() {
    assert_eq!(generate_random_seed(0, 7, 0), 7);
    assert_eq!(generate_random_seed(1, 0, 0), 0x5deece66d);
    assert_eq!(generate_random_seed(0, 0, 1), 0x9e3779b97f4a7c15);
}

#[test]
fn stealth_mt_next_advances_and_reloads() {
    let mut rng = RngState::default();
    assert_eq!(rng.index, 624);
    let first = mt_next(&mut rng);
    assert_eq!(rng.index, 1);
    assert_eq!(first, 0);
    let mut seeded = mt_init(1);
    let _ = mt_next(&mut seeded);
    assert_eq!(seeded.index, 1);
}

#[test]
fn stealth_range_zero_is_zero() {
    let mut rng = mt_init(3);
    assert_eq!(mt_range(&mut rng, 0), 0);
    assert_eq!(mt_range(&mut rng, 1), 0);
}

#[test]
fn stealth_sequential_when_disabled() {
    let mut store = StealthStore::new();
    assert!(!store.is_stealth_enabled(4));
    assert_eq!(store.prepare_next_winner(4, 3), 0);
    assert_eq!(store.prepare_next_winner(4, 3), 1);
    assert_eq!(store.prepare_next_winner(4, 3), 2);
    assert_eq!(store.prepare_next_winner(4, 3), 0);
    assert_eq!(store.reveal_winner(4), None);
    assert_eq!(store.prepare_next_winner(4, 0), 0);
}

#[test]
fn stealth_toggle_resets_and_reseeds() {
    let mut store = StealthStore::new();
    store.init_stealth_mode(2, 10);
    let w = store.prepare_next_winner(2, 7);
    assert_eq!(store.reveal_winner(2), Some(w));
    assert_eq!(store.reveal_winner(2), Some(w));
    store.toggle_stealth_mode(2, true, 55, 0, 0, 0);
    let c = store.get_stealth_config(2);
    assert!(c.enabled);
    assert_eq!(c.seed, derive_seed(55, 0));
    assert_eq!(c.round_number, 0);
    assert_eq!(c.pending_winner, None);
    store.toggle_stealth_mode(2, false, 0, 0, 0, 0);
    let d = store.get_stealth_config(2);
    assert!(!d.enabled);
    assert_eq!(d.seed, derive_seed(55, 0));
    store.toggle_stealth_mode(9, true, 0, 1, 2, 3);
    assert_eq!(store.get_stealth_config(9).seed, derive_seed(generate_random_seed(1, 2, 3), 0));
}
