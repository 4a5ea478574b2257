use sorosusu::auto_compounder::{AutoCompounder, CompoundEvent};

#[test]
fn compounder_moves_rewards_into_reserve() {
    let mut a = AutoCompounder::new();
    a.stake_reserve(1_000);
    assert_eq!(a.compound_interest(), None);
    a.accrue_rewards(40);
    a.accrue_rewards(2);
    assert_eq!(a.get_pending_rewards(), 42);
    assert_eq!(a.compound_interest(), Some(CompoundEvent { rewards: 42, reserve_after: 1_042 }));
    assert_eq!((a.get_reserve_balance(), a.get_pending_rewards()), (1_042, 0));
    a.accrue_rewards(-5);
    assert_eq!(a.compound_interest(), None);
    assert_eq!((a.get_reserve_balance(), a.get_pending_rewards()), (1_042, -5));
}
