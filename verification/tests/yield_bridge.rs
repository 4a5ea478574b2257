use sorosusu::defi_adapter_trait::{
    calculate_slippage, check_principal_protection, validate_deposit_params, validate_withdrawal_params, DeFiAdapterError,
    DepositParams, VaultType, WithdrawalParams, YieldHarvestResult,
};
use sorosusu::yield_bridge_adapter::{VaultRequest, YieldBridgeAdapter, YieldBridgeError};

const ADMIN: u64 = 1;
const VAULT: u64 = 50;
const CIRCLE: u64 = 7;

fn bridge_with_vault() -> YieldBridgeAdapter {
    let mut b = YieldBridgeAdapter::initialize(ADMIN);
    b.add_vault_to_whitelist(ADMIN, VAULT, "Blend".to_string(), VaultType::Lending, 20, 5);
    b
}

fn result(principal: i128, yield_amount: i128) -> YieldHarvestResult {
    YieldHarvestResult {
        harvested_amount: principal + yield_amount,
        principal_returned: principal,
        yield_amount,
        slippage_bps: 3,
        timestamp: 0,
    }
}

#[test]
fn defi_params_validation() {
    let ok = DepositParams { amount: 1000, min_return_amount: 990, max_slippage_bps: 50, deadline: 9 };
    assert_eq!(validate_deposit_params(&ok, 50), Ok(()));
    assert_eq!(validate_deposit_params(&DepositParams { amount: 0, ..ok }, 50), Err(DeFiAdapterError::InvalidAmount));
    assert_eq!(validate_deposit_params(&DepositParams { min_return_amount: 0, ..ok }, 50), Err(DeFiAdapterError::InvalidAmount));
    assert_eq!(validate_deposit_params(&ok, 49), Err(DeFiAdapterError::SlippageExceeded));
    assert_eq!(validate_deposit_params(&DepositParams { min_return_amount: 1001, ..ok }, 50), Err(DeFiAdapterError::InvalidAmount));
    let w = WithdrawalParams { amount: 10, min_return_amount: 10, max_slippage_bps: 0, deadline: 0, force_withdrawal: true };
    assert_eq!(validate_withdrawal_params(&w, 0), Ok(()));
    assert_eq!(validate_withdrawal_params(&WithdrawalParams { amount: -1, ..w }, 0), Err(DeFiAdapterError::InvalidAmount));
}

#[test]
fn defi_slippage_and_principal_protection() {
    assert_eq!(calculate_slippage(10_000, 9_950), 50);
    assert_eq!(calculate_slippage(3, 2), 3333);
    assert_eq!(calculate_slippage(0, 5), 0);
    assert_eq!(calculate_slippage(100, 120), 0);
    assert_eq!(check_principal_protection(10_000, 9_500, 9500), Ok(()));
    assert_eq!(check_principal_protection(10_000, 9_499, 9500), Err(DeFiAdapterError::PrincipalAtRisk));
}

#[test]
fn bridge_admin_checks() {
    let mut b = YieldBridgeAdapter::initialize(ADMIN);
    assert_eq!(b.admin, ADMIN);
    assert_eq!(b.get_whitelisted_vault(VAULT).err(), Some(YieldBridgeError::VaultNotWhitelisted));
    b.add_vault_to_whitelist(ADMIN, VAULT, "X".to_string(), VaultType::AMM, 1, 0);
    assert_eq!(b.whitelist_count, 1);
    b.remove_vault_from_whitelist(ADMIN, VAULT);
    assert!(!b.get_whitelisted_vault(VAULT).unwrap().is_active);
    assert_eq!(b.whitelist_count, 1);
    assert_eq!(b.prepare_deployment(CIRCLE, VAULT, 1000, 5000, 0), Err(YieldBridgeError::VaultNotWhitelisted));
    let mut cfg = b.get_config();
    cfg.is_active = false;
    b.update_config(ADMIN, cfg);
    assert!(!b.get_config().is_active);
}

#[test]
fn bridge_deploy_splits_principal_and_vault_share() {
    let mut b = bridge_with_vault();
    assert_eq!(b.prepare_deployment(CIRCLE, VAULT, 10_000, 999, 0), Err(YieldBridgeError::InvalidParameters));
    assert_eq!(b.prepare_deployment(CIRCLE, VAULT, 10_000, 8001, 0), Err(YieldBridgeError::InvalidParameters));
    let params = b.prepare_deployment(CIRCLE, VAULT, 10_000, 3000, 40).unwrap();
    assert_eq!(params, DepositParams { amount: 3000, min_return_amount: 2985, max_slippage_bps: 50, deadline: 140 });
    let ev = b.deploy_to_yield_vault(CIRCLE, VAULT, 10_000, 3000, 40, 3000).unwrap();
    assert_eq!(ev.amount_deployed, 3000);
    assert_eq!(ev.vault_name, "Blend");
    let st = b.get_circle_bridge_state(CIRCLE).unwrap();
    assert_eq!(st.total_deposited, 10_000);
    assert_eq!(st.principal_amount, 7_000);
    assert_eq!(st.current_balance, 3000);
    assert_eq!(st.selected_vault, Some(VAULT));
    assert_eq!(st.deposit_share_ratio, 3000);
    assert_eq!(b.deployed_counts[&CIRCLE], 1);
}

#[test]
fn bridge_schedule_and_harvest() {
    let mut b = bridge_with_vault();
    assert_eq!(b.schedule_harvest(CIRCLE, 100, 0), Err(YieldBridgeError::InvalidCircle));
    b.deploy_to_yield_vault(CIRCLE, VAULT, 10_000, 5000, 10, 5000).unwrap();
    assert_eq!(b.schedule_harvest(CIRCLE, 12, 10), Err(YieldBridgeError::HarvestNotReady));
    b.schedule_harvest(CIRCLE, 100, 10).unwrap();
    let sched = b.harvest_schedules[&(CIRCLE, 0)];
    assert_eq!(sched.target_ledger, 98);
    assert_eq!(sched.harvest_amount, 5000);
    assert_eq!(b.harvest_request(CIRCLE, 97, false), Err(YieldBridgeError::HarvestNotReady));
    assert_eq!(b.harvest_request(CIRCLE, 98, false), Ok(VaultRequest::HarvestYield { vault: VAULT, min_return: 4975 }));
    // 96% of the principal comes back: the 200 missing are covered by the reserve
    b.add_to_reserve(1_000);
    let ev = b.execute_harvest(CIRCLE, 98, false, result(4_800, 300)).unwrap();
    assert_eq!(ev.yield_amount, 300);
    assert_eq!(b.get_reserve_balance(), 800);
    let st = b.get_circle_bridge_state(CIRCLE).unwrap();
    assert_eq!(st.current_balance, 5_100);
    assert_eq!(st.yield_earned, 300);
    assert_eq!(st.last_harvest_ledger, 98);
}

#[test]
fn bridge_harvest_refusals() {
    let mut b = bridge_with_vault();
    b.deploy_to_yield_vault(CIRCLE, VAULT, 10_000, 5000, 0, 5000).unwrap();
    assert_eq!(b.execute_harvest(CIRCLE, 1, false, result(4_000, 0)), Err(YieldBridgeError::PrincipalAtRisk));
    assert_eq!(b.execute_harvest(CIRCLE, 1, false, result(4_900, 0)), Err(YieldBridgeError::ReserveInsufficient));
    assert_eq!(b.get_circle_bridge_state(CIRCLE).unwrap().current_balance, 5000);
}

#[test]
fn bridge_paused_vault_bails_out() {
    let mut b = bridge_with_vault();
    b.deploy_to_yield_vault(CIRCLE, VAULT, 10_000, 5000, 0, 5000).unwrap();
    assert_eq!(b.harvest_request(CIRCLE, 1, true), Ok(VaultRequest::EmergencyWithdraw { vault: VAULT, amount: 5000 }));
    assert_eq!(b.execute_harvest(CIRCLE, 1, true, result(4_000, 0)), Err(YieldBridgeError::ReserveInsufficient));
    b.add_to_reserve(2_000);
    let ev = b.execute_harvest(CIRCLE, 1, true, result(4_000, 0)).unwrap();
    assert_eq!(ev.principal_returned, 4_000);
    assert_eq!(b.get_reserve_balance(), 1_000);
    assert!(b.get_circle_bridge_state(CIRCLE).unwrap().is_bailed_out);
    assert_eq!(b.prepare_deployment(CIRCLE, VAULT, 10, 5000, 0), Err(YieldBridgeError::BailedOut));
    assert_eq!(b.harvest_request(CIRCLE, 1, false), Err(YieldBridgeError::BailedOut));
}

#[test]
fn bridge_deploys_amounts_up_to_the_overflow_point() {
    let mut b = bridge_with_vault();
    let amount: i128 = i128::MAX / 8000;
    let params = b.prepare_deployment(CIRCLE, VAULT, amount, 8000, 0).unwrap();
    assert_eq!(params.amount, amount * 8000 / 10000);
    assert_eq!(params.min_return_amount, params.amount * 9950 / 10000);
    let ev = b.deploy_to_yield_vault(CIRCLE, VAULT, amount, 8000, 0, params.amount).unwrap();
    assert_eq!(ev.amount_deployed, amount * 8000 / 10000);
    let st = b.get_circle_bridge_state(CIRCLE).unwrap();
    assert_eq!(st.total_deposited, amount);
    assert_eq!(st.principal_amount, amount * 2000 / 10000);
}
