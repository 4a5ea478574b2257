//! The interface every external yield vault offers the yield bridge, and the
//! parameter checks shared by its implementations.
use vstd::prelude::*;
use crate::AccountId;
use crate::arith::tdiv;

verus! {

/// Why a vault adapter refuses an operation.
#[derive(Clone, Copy, Debug, PartialEq, Eq, Structural)]
pub enum DeFiAdapterError {
    Unauthorized,
    InsufficientBalance,
    InvalidAmount,
    AdapterNotActive,
    WithdrawalNotAllowed,
    DepositFailed,
    WithdrawalFailed,
    SlippageExceeded,
    VaultPaused,
    InvalidVault,
    InsufficientLiquidity,
    UnauthorizedVault,
    InvalidParameters,
    PrincipalAtRisk,
    HarvestNotReady,
    BailedOut,
}

/// Kind of yield strategy behind a vault.
#[derive(Clone, Copy, Debug, PartialEq, Eq, Structural)]
pub enum VaultType {
    AMM,
    Lending,
    LiquidStaking,
    YieldAggregator,
    Custom,
}

/// A vault's description and balances.
#[derive(Clone, Debug)]
pub struct VaultInfo {
    pub vault_address: AccountId,
    pub vault_name: String,
    pub vault_type: VaultType,
    pub total_deposited: i128,
    pub current_balance: i128,
    pub total_yield_earned: i128,
    pub apy_bps: u32,
    pub is_active: bool,
    pub is_paused: bool,
    pub last_updated: u64,
}

/// A deposit request with slippage protection.
#[derive(Clone, Copy, Debug, PartialEq, Eq, Structural)]
pub struct DepositParams {
    pub amount: i128,
    pub min_return_amount: i128,
    pub max_slippage_bps: u32,
    pub deadline: u64,
}

/// A withdrawal request with slippage protection.
#[derive(Clone, Copy, Debug, PartialEq, Eq, Structural)]
pub struct WithdrawalParams {
    pub amount: i128,
    pub min_return_amount: i128,
    pub max_slippage_bps: u32,
    pub deadline: u64,
    pub force_withdrawal: bool,
}

/// What a harvest or withdrawal returned.
#[derive(Clone, Copy, Debug, PartialEq, Eq, Structural)]
pub struct YieldHarvestResult {
    pub harvested_amount: i128,
    pub principal_returned: i128,
    pub yield_amount: i128,
    pub slippage_bps: u32,
    pub timestamp: u64,
}

/// A vault's health report.
#[derive(Clone, Copy, Debug, PartialEq, Eq, Structural)]
pub struct VaultHealth {
    pub is_healthy: bool,
    pub total_value_locked: i128,
    pub available_liquidity: i128,
    pub utilization_rate_bps: u32,
    pub last_check: u64,
}

/// An adapter's configuration.
#[derive(Clone, Debug)]
pub struct DeFiAdapterConfig {
    pub adapter_name: String,
    pub adapter_version: u32,
    pub min_deposit_amount: i128,
    pub max_deposit_amount: Option<i128>,
    pub min_withdrawal_amount: i128,
    pub max_slippage_bps: u32,
    pub emergency_withdrawal_enabled: bool,
    pub is_active: bool,
    pub admin_address: AccountId,
    pub supported_tokens: Vec<AccountId>,
}

/// The operations every external yield vault implements to be usable by the
/// yield bridge.
pub trait DeFiAdapterTrait {
    /// Sets the adapter up.
    fn initialize(&mut self, admin: AccountId, config: DeFiAdapterConfig);

    /// Deposits funds into the vault.
    fn deposit(&mut self, from: AccountId, amount: i128, params: DepositParams) -> Result<VaultInfo, DeFiAdapterError>;

    /// Withdraws funds from the vault.
    fn withdraw(&mut self, to: AccountId, params: WithdrawalParams) -> Result<YieldHarvestResult, DeFiAdapterError>;

    /// Harvests the yield, keeping the principal in the vault.
    fn harvest_yield(&mut self, to: AccountId, min_return_amount: i128) -> Result<YieldHarvestResult, DeFiAdapterError>;

    /// The vault's current description.
    fn get_vault_info(&self) -> Result<VaultInfo, DeFiAdapterError>;

    /// The vault's health.
    fn check_health(&self) -> Result<VaultHealth, DeFiAdapterError>;

    /// Whether the vault is paused.
    fn is_paused(&self) -> Result<bool, DeFiAdapterError>;

    /// The yield expected on `amount` over `period_seconds`.
    fn get_estimated_yield(&self, amount: i128, period_seconds: u64) -> Result<i128, DeFiAdapterError>;

    /// Withdraws bypassing the normal restrictions.
    fn emergency_withdraw(&mut self, to: AccountId, amount: i128) -> Result<YieldHarvestResult, DeFiAdapterError>;

    /// Replaces the configuration (admin only).
    fn update_config(&mut self, admin: AccountId, config: DeFiAdapterConfig) -> Result<(), DeFiAdapterError>;
}

/// The verdict on an amount, a minimum return and a slippage bound: the
/// amount and the minimum return must be positive, the slippage bound at most
/// `max_slippage_bps`, and the minimum return at most the amount.
pub open spec fn params_verdict(amount: i128, min_return_amount: i128, slippage_bps: u32, max_slippage_bps: u32)
    -> Result<(), DeFiAdapterError>
{
    if amount <= 0 || min_return_amount <= 0 {
        Err(DeFiAdapterError::InvalidAmount)
    } else if slippage_bps > max_slippage_bps {
        Err(DeFiAdapterError::SlippageExceeded)
    } else if min_return_amount > amount {
        Err(DeFiAdapterError::InvalidAmount)
    } else {
        Ok(())
    }
}

fn check_params(amount: i128, min_return_amount: i128, slippage_bps: u32, max_slippage_bps: u32) -> (r: Result<(), DeFiAdapterError>)
    ensures
        r == params_verdict(amount, min_return_amount, slippage_bps, max_slippage_bps),
{
    if amount <= 0 {
        return Err(DeFiAdapterError::InvalidAmount);
    }
    if min_return_amount <= 0 {
        return Err(DeFiAdapterError::InvalidAmount);
    }
    if slippage_bps > max_slippage_bps {
        return Err(DeFiAdapterError::SlippageExceeded);
    }
    if min_return_amount > amount {
        return Err(DeFiAdapterError::InvalidAmount);
    }
    Ok(())
}

/// Checks a deposit request against a slippage bound.
pub fn validate_deposit_params(params: &DepositParams, max_slippage_bps: u32) -> (r: Result<(), DeFiAdapterError>)
    ensures
        r == params_verdict(params.amount, params.min_return_amount, params.max_slippage_bps, max_slippage_bps),
{
    check_params(params.amount, params.min_return_amount, params.max_slippage_bps, max_slippage_bps)
}

/// Checks a withdrawal request against a slippage bound.
pub fn validate_withdrawal_params(params: &WithdrawalParams, max_slippage_bps: u32) -> (r: Result<(), DeFiAdapterError>)
    ensures
        r == params_verdict(params.amount, params.min_return_amount, params.max_slippage_bps, max_slippage_bps),
{
    check_params(params.amount, params.min_return_amount, params.max_slippage_bps, max_slippage_bps)
}

/// Slippage of `actual_amount` against `expected_amount`, in basis points
/// (zero when nothing was expected or nothing was lost).
pub open spec fn spec_slippage(expected_amount: int, actual_amount: int) -> u32 {
    if expected_amount <= 0 || expected_amount - actual_amount <= 0 {
        0
    } else {
        (tdiv((expected_amount - actual_amount) * 10000, expected_amount)) as u32
    }
}

/// Computes the slippage in basis points.
pub fn calculate_slippage(expected_amount: i128, actual_amount: i128) -> (r: u32)
    requires
        expected_amount > 0 ==> i128::MIN <= (expected_amount - actual_amount) * 10000 <= i128::MAX,
    ensures
        r == spec_slippage(expected_amount as int, actual_amount as int),
{
    if expected_amount <= 0 {
        return 0;
    }
    let diff = expected_amount - actual_amount;
    if diff <= 0 {
        return 0;
    }
    let slippage_bps = (diff * 10000) / expected_amount;
    slippage_bps as u32
}

/// The principal is protected when the balance is at least
/// `principal * min_protection_ratio_bps / 10000` (rounded toward zero).
pub open spec fn principal_protected(principal: int, current_balance: int, min_protection_ratio_bps: int) -> bool {
    current_balance >= tdiv(principal * min_protection_ratio_bps, 10000)
}

/// Refuses a balance that has fallen below the protected share of the
/// principal.
pub fn check_principal_protection(principal: i128, current_balance: i128, min_protection_ratio_bps: u32)
    -> (r: Result<(), DeFiAdapterError>)
    requires
        i128::MIN <= principal * min_protection_ratio_bps <= i128::MAX,
    ensures
        r == (if principal_protected(principal as int, current_balance as int, min_protection_ratio_bps as int) {
            Ok::<(), DeFiAdapterError>(())
        } else {
            Err(DeFiAdapterError::PrincipalAtRisk)
        }),
{
    if current_balance < (principal * min_protection_ratio_bps as i128) / 10000 {
        return Err(DeFiAdapterError::PrincipalAtRisk);
    }
    Ok(())
}

} // verus!
