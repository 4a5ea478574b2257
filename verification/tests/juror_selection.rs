use sorosusu::juror_selection::{JurorError, JurorStore, JUROR_COUNT, MIN_JUROR_RI};

fn pool(store: &mut JurorStore, n: u64) -> Vec<u64> {
    let ids: Vec<u64> = (100..100 + n).collect();
    for id in &ids {
        store.register_juror_candidate(*id, MIN_JUROR_RI);
    }
    ids
}

/// A shuffle as the ledger's generator might produce it.
fn shuffled(ids: &[u64], seed: usize) -> Vec<u64> {
    let mut v = ids.to_vec();
    v.rotate_left(seed % ids.len());
    v.reverse();
    v
}

#[test]
fn test_register_and_select_jurors() {
    let mut s = JurorStore::new();
    let ids = pool(&mut s, 10);
    assert_eq!(s.eligible_pool.len(), 10, "Pool should have 10 candidates");
    let jurors = s.select_jurors(1, &shuffled(&ids, 3)).unwrap();
    assert_eq!(jurors.len() as u32, JUROR_COUNT, "Must select exactly JUROR_COUNT jurors");
    for juror in &jurors {
        assert!(s.eligible_pool.contains(juror), "Selected juror must be from the eligible pool");
    }
}

#[test]
fn test_selected_jurors_are_unique() {
    let mut s = JurorStore::new();
    let ids = pool(&mut s, 10);
    let jurors = s.select_jurors(2, &shuffled(&ids, 7)).unwrap();
    for i in 0..jurors.len() {
        for j in (i + 1)..jurors.len() {
            assert_ne!(jurors[i], jurors[j], "Selected jurors must be unique");
        }
    }
}

#[test]
fn test_low_ri_rejected() {
    let s = JurorStore::new();
    assert_eq!(s.registration_refusal(1, MIN_JUROR_RI - 1), Some(JurorError::RiScoreTooLow));
    assert_eq!(s.registration_refusal(1, MIN_JUROR_RI), None);
    assert!(s.eligible_pool.is_empty());
}

#[test]
fn test_pool_too_small_panics() {
    let mut s = JurorStore::new();
    pool(&mut s, 4);
    assert_eq!(s.selection_refusal(), Some(JurorError::PoolTooSmall));
    s.register_juror_candidate(500, MIN_JUROR_RI);
    assert_eq!(s.selection_refusal(), None);
}

#[test]
fn test_selection_persisted_on_chain() {
    let mut s = JurorStore::new();
    let ids = pool(&mut s, 6);
    let selected = s.select_jurors(42, &shuffled(&ids, 1)).unwrap();
    let retrieved = s.get_selected_jurors(42);
    assert_eq!(selected.len(), retrieved.len());
    for i in 0..selected.len() {
        assert_eq!(selected[i], retrieved[i]);
    }
}

#[test]
fn test_duplicate_registration_rejected() {
    let mut s = JurorStore::new();
    s.register_juror_candidate(9, MIN_JUROR_RI);
    assert_eq!(s.registration_refusal(9, MIN_JUROR_RI), Some(JurorError::AlreadyRegistered));
    assert_eq!(s.eligible_pool, vec![9]);
}

#[test]
fn juror_selection_takes_first_five_of_shuffle() {
    let mut s = JurorStore::new();
    let ids = pool(&mut s, 7);
    let sh = shuffled(&ids, 2);
    assert_eq!(s.select_jurors(5, &sh).unwrap(), sh[..5].to_vec());
    assert!(s.get_selected_jurors(6).is_empty());
}

#[test]
fn juror_selection_rejects_a_list_that_is_not_a_shuffle() {
    let mut s = JurorStore::new();
    let ids = pool(&mut s, 6);
    let mut bad = ids.clone();
    bad[0] = bad[1];
    assert_eq!(s.select_jurors(1, &bad), Err(JurorError::NotAShuffleOfThePool));
    let mut outsider = ids.clone();
    outsider[5] = 999;
    assert_eq!(s.select_jurors(1, &outsider), Err(JurorError::NotAShuffleOfThePool));
    assert_eq!(s.select_jurors(1, &ids[..5].to_vec()), Err(JurorError::NotAShuffleOfThePool));
    assert!(s.get_selected_jurors(1).is_empty());
}
