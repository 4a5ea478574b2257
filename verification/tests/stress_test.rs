use sorosusu::stress_test::{SusuContract, BATCH_SIZE, MAX_MEMBERS};

#[test]
fn stress_batches_and_finalizes() {
    let g = SusuContract::create_test_group(1000);
    assert_eq!(g.members.len() as u32, MAX_MEMBERS);
    assert_eq!(g.members[49].address, 1049);
    let g = SusuContract::distribute_yield(g);
    assert_eq!(g.current_index, BATCH_SIZE);
    assert_eq!(g.members[9].balance, 2_000);
    assert_eq!(g.members[10].balance, 1_000);
    // the cycle is not fully paid yet: finalizing now would abort
    assert!((g.current_index as usize) < g.members.len());
    let done = SusuContract::stress_test(1000);
    assert!(done.members.iter().all(|m| m.balance == 2_000));
    assert_eq!((done.current_index, done.total_funds), (0, 0));
}
