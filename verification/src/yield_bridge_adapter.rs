//! Yield bridge: deploys part of a circle's idle funds to a whitelisted
//! yield vault, keeps the rest as protected principal, harvests before the
//! payout, and bails a circle out of a paused vault from the group reserve.
//!
//! The vault is another contract. Each operation that talks to it is split in
//! two: a query that says what to ask the vault, and the operation proper,
//! which takes the vault's answer as an argument.
use vstd::prelude::*;
use std::collections::BTreeMap;
use crate::AccountId;
use crate::arith::{tdiv, sat_sub_i128, saturating_sub_i128};
use crate::defi_adapter_trait::{
    DepositParams, VaultType, YieldHarvestResult, principal_protected, check_principal_protection,
};

verus! {

broadcast use vstd::std_specs::btree::group_btree_axioms;

/// Largest slippage accepted on vault operations (0.5%).
pub const MAX_SLIPPAGE_BPS: u32 = 50;
/// Share of the principal that must come back from a harvest (95%).
pub const MIN_PRINCIPAL_PROTECTION_BPS: u32 = 9500;
/// Ledgers before the payout at which the harvest is due.
pub const HARVEST_LEDGER_OFFSET: u64 = 2;
/// Deposit share of a circle that has not chosen one (50%).
pub const DEFAULT_DEPOSIT_SHARE_RATIO: u32 = 5000;
/// Smallest share of a deployment sent to the vault (10%).
pub const MIN_DEPOSIT_SHARE_RATIO: u32 = 1000;
/// Largest share of a deployment sent to the vault (80%).
pub const MAX_DEPOSIT_SHARE_RATIO: u32 = 8000;

/// Storage keys of the bridge tables.
#[derive(Clone, Copy, Debug, PartialEq, Eq, Structural)]
pub enum YieldBridgeDataKey {
    Admin,
    Config,
    WhitelistedVault(AccountId),
    WhitelistCount,
    CircleBridge(u64),
    HarvestSchedule(u64, u64),
    HarvestScheduleCount(u64),
    GroupReserve,
    YieldBridgeDeployed(u64),
}

/// Why a yield-bridge operation is refused.
#[derive(Clone, Copy, Debug, PartialEq, Eq, Structural)]
pub enum YieldBridgeError {
    Unauthorized,
    VaultNotWhitelisted,
    InsufficientBalance,
    InvalidAmount,
    SlippageExceeded,
    VaultPaused,
    PrincipalAtRisk,
    HarvestNotReady,
    InvalidCircle,
    BridgeNotActive,
    ReserveInsufficient,
    UnauthorizedAdmin,
    InvalidParameters,
    BailedOut,
    WithdrawalFailed,
    DepositFailed,
}

/// Bridge settings.
#[derive(Clone, Copy, Debug, PartialEq, Eq, Structural)]
pub struct YieldBridgeConfig {
    pub admin: AccountId,
    pub is_active: bool,
    pub max_slippage_bps: u32,
    pub min_principal_protection_bps: u32,
    pub harvest_ledger_offset: u64,
}

/// A vault admitted by the admin.
#[derive(Clone, Debug)]
pub struct WhitelistedVault {
    pub vault_address: AccountId,
    pub vault_name: String,
    pub vault_type: VaultType,
    pub is_active: bool,
    pub added_at: u64,
    pub risk_level: u32,
}

/// A circle's position in the bridge.
#[derive(Clone, Copy, Debug, PartialEq, Eq, Structural)]
pub struct CircleBridgeState {
    pub circle_id: u64,
    pub selected_vault: Option<AccountId>,
    pub total_deposited: i128,
    pub principal_amount: i128,
    pub current_balance: i128,
    pub deposit_share_ratio: u32,
    pub last_harvest_ledger: u64,
    pub next_payout_ledger: u64,
    pub is_bailed_out: bool,
    pub yield_earned: i128,
}

/// A harvest planned ahead of a payout.
#[derive(Clone, Copy, Debug, PartialEq, Eq, Structural)]
pub struct HarvestSchedule {
    pub circle_id: u64,
    pub target_ledger: u64,
    pub harvest_amount: i128,
    pub is_executed: bool,
}

/// Report of a deployment.
#[derive(Clone, Debug)]
pub struct YieldBridgeDeployedEvent {
    pub circle_id: u64,
    pub vault_address: AccountId,
    pub vault_name: String,
    pub amount_deployed: i128,
    pub deposit_share_ratio: u32,
    pub timestamp: u64,
}

/// Report of a harvest (or of an emergency withdrawal).
#[derive(Clone, Copy, Debug, PartialEq, Eq, Structural)]
pub struct YieldHarvestedEvent {
    pub circle_id: u64,
    pub vault_address: AccountId,
    pub amount_harvested: i128,
    pub principal_returned: i128,
    pub yield_amount: i128,
    pub slippage_bps: u32,
    pub timestamp: u64,
}

/// Report of a bail-out from a paused vault.
#[derive(Clone, Copy, Debug, PartialEq, Eq, Structural)]
pub struct VaultPausedEvent {
    pub circle_id: u64,
    pub vault_address: AccountId,
    pub bailed_out: bool,
    pub reserve_used: i128,
    pub timestamp: u64,
}

/// What to ask a circle's vault for before executing its harvest.
#[derive(Clone, Copy, Debug, PartialEq, Eq, Structural)]
pub enum VaultRequest {
    /// The vault is paused: withdraw the circle's whole balance.
    EmergencyWithdraw { vault: AccountId, amount: i128 },
    /// Harvest the yield, accepting no less than `min_return`.
    HarvestYield { vault: AccountId, min_return: i128 },
}

/// The state of a circle that has never deployed.
pub open spec fn fresh_bridge_state(circle_id: u64) -> CircleBridgeState {
    CircleBridgeState {
        circle_id,
        selected_vault: None,
        total_deposited: 0,
        principal_amount: 0,
        current_balance: 0,
        deposit_share_ratio: DEFAULT_DEPOSIT_SHARE_RATIO,
        last_harvest_ledger: 0,
        next_payout_ledger: 0,
        is_bailed_out: false,
        yield_earned: 0,
    }
}

/// `a - b` for ledger numbers, stopping at zero.
pub open spec fn sat_sub_u64(a: u64, b: u64) -> u64 {
    if a >= b { (a - b) as u64 } else { 0 }
}

/// The part of a deployment kept as protected principal.
pub open spec fn principal_part(amount: int, ratio: int) -> int {
    tdiv(amount * (10000 - ratio), 10000)
}

/// The part of a deployment sent to the vault.
pub open spec fn vault_part(amount: int, ratio: int) -> int {
    tdiv(amount * ratio, 10000)
}

/// The least a vault operation on `amount` may return.
pub open spec fn min_return_of(amount: int) -> int {
    tdiv(amount * (10000 - MAX_SLIPPAGE_BPS), 10000)
}

/// A product that fits in `i128`, divided by 10000 toward zero, fits, and
/// so does the slippage bound taken of the quotient.
proof fn lemma_share_fits(product: int)
    requires
        i128::MIN <= product <= i128::MAX,
    ensures
        i128::MIN <= tdiv(product, 10000) <= i128::MAX,
        i128::MIN <= tdiv(product, 10000) * (10000 - MAX_SLIPPAGE_BPS) <= i128::MAX,
        i128::MIN <= min_return_of(tdiv(product, 10000)) <= i128::MAX,
{
    let y = tdiv(product, 10000);
    if product >= 0 {
        assert(0 <= y && y * 10000 <= product);
        assert(0 <= y * 9950 <= product);
        assert(0 <= (y * 9950) / 10000 <= y * 9950);
    } else {
        assert((-product) / 10000 * 10000 <= -product);
        assert(y <= 0 && y * 10000 >= product);
        assert(product <= y * 9950 <= 0);
        assert(0 <= (-(y * 9950)) / 10000 <= -(y * 9950));
    }
}

/// Bridge storage.
pub struct YieldBridgeAdapter {
    pub admin: AccountId,
    pub config: YieldBridgeConfig,
    pub whitelist: BTreeMap<AccountId, WhitelistedVault>,
    pub whitelist_count: u32,
    pub circle_bridges: BTreeMap<u64, CircleBridgeState>,
    pub harvest_schedules: BTreeMap<(u64, u64), HarvestSchedule>,
    pub harvest_schedule_counts: BTreeMap<u64, u64>,
    pub group_reserve: i128,
    pub deployed_counts: BTreeMap<u64, u64>,
}

fn copy_vault(v: &WhitelistedVault) -> (r: WhitelistedVault)
    ensures
        r == *v,
{
    WhitelistedVault {
        vault_address: v.vault_address,
        vault_name: v.vault_name.clone(),
        vault_type: v.vault_type,
        is_active: v.is_active,
        added_at: v.added_at,
        risk_level: v.risk_level,
    }
}

impl YieldBridgeAdapter {
    /// The circle's state, or that of a circle that has never deployed.
    pub open spec fn bridge_of(&self, circle_id: u64) -> CircleBridgeState {
        if self.circle_bridges@.contains_key(circle_id) { self.circle_bridges@[circle_id] } else { fresh_bridge_state(circle_id) }
    }

    /// A counter stored per circle (zero when none is stored).
    pub open spec fn count_in(m: Map<u64, u64>, circle_id: u64) -> u64 {
        if m.contains_key(circle_id) { m[circle_id] } else { 0 }
    }

    /// Why deploying to `vault_address` with `ratio` is refused, if it is.
    pub open spec fn deploy_refusal(&self, circle_id: u64, vault_address: AccountId, ratio: u32) -> Option<YieldBridgeError> {
        if !self.whitelist@.contains_key(vault_address) || !self.whitelist@[vault_address].is_active {
            Some(YieldBridgeError::VaultNotWhitelisted)
        } else if ratio < MIN_DEPOSIT_SHARE_RATIO || ratio > MAX_DEPOSIT_SHARE_RATIO {
            Some(YieldBridgeError::InvalidParameters)
        } else if self.bridge_of(circle_id).is_bailed_out {
            Some(YieldBridgeError::BailedOut)
        } else {
            None
        }
    }

    /// Why a circle's bridge cannot be harvested or scheduled, if it cannot
    /// (the checks both make before looking at the vault).
    pub open spec fn bridge_refusal(&self, circle_id: u64) -> Option<YieldBridgeError> {
        if !self.circle_bridges@.contains_key(circle_id) {
            Some(YieldBridgeError::InvalidCircle)
        } else if self.circle_bridges@[circle_id].selected_vault is None {
            Some(YieldBridgeError::InvalidParameters)
        } else if self.circle_bridges@[circle_id].is_bailed_out {
            Some(YieldBridgeError::BailedOut)
        } else {
            None
        }
    }

    /// Why a circle's harvest is refused before the vault is asked, if it is.
    pub open spec fn harvest_refusal(&self, circle_id: u64, ledger: u64, vault_paused: bool) -> Option<YieldBridgeError> {
        if self.bridge_refusal(circle_id) is Some {
            self.bridge_refusal(circle_id)
        } else if !self.whitelist@.contains_key(self.circle_bridges@[circle_id].selected_vault->0) {
            Some(YieldBridgeError::VaultNotWhitelisted)
        } else if !vault_paused && self.circle_bridges@[circle_id].next_payout_ledger > 0
            && ledger < sat_sub_u64(self.circle_bridges@[circle_id].next_payout_ledger, HARVEST_LEDGER_OFFSET) {
            Some(YieldBridgeError::HarvestNotReady)
        } else {
            None
        }
    }

    /// A bridge configured by `admin`, active, with an empty whitelist and an
    /// empty reserve.
    pub fn initialize(admin: AccountId) -> (r: Self)
        ensures
            r.admin == admin,
            r.config == (YieldBridgeConfig {
                admin, is_active: true, max_slippage_bps: MAX_SLIPPAGE_BPS,
                min_principal_protection_bps: MIN_PRINCIPAL_PROTECTION_BPS, harvest_ledger_offset: HARVEST_LEDGER_OFFSET,
            }),
            r.whitelist@ == Map::<AccountId, WhitelistedVault>::empty(),
            r.whitelist_count == 0,
            r.circle_bridges@ == Map::<u64, CircleBridgeState>::empty(),
            r.harvest_schedules@ == Map::<(u64, u64), HarvestSchedule>::empty(),
            r.harvest_schedule_counts@ == Map::<u64, u64>::empty(),
            r.group_reserve == 0,
            r.deployed_counts@ == Map::<u64, u64>::empty(),
    {
        YieldBridgeAdapter {
            admin,
            config: YieldBridgeConfig {
                admin,
                is_active: true,
                max_slippage_bps: MAX_SLIPPAGE_BPS,
                min_principal_protection_bps: MIN_PRINCIPAL_PROTECTION_BPS,
                harvest_ledger_offset: HARVEST_LEDGER_OFFSET,
            },
            whitelist: BTreeMap::new(),
            whitelist_count: 0,
            circle_bridges: BTreeMap::new(),
            harvest_schedules: BTreeMap::new(),
            harvest_schedule_counts: BTreeMap::new(),
            group_reserve: 0,
            deployed_counts: BTreeMap::new(),
        }
    }

    /// Admits a vault, recording the ledger it was added at. Only the admin
    /// may; any other caller aborts.
    pub fn add_vault_to_whitelist(
        &mut self,
        admin: AccountId,
        vault_address: AccountId,
        vault_name: String,
        vault_type: VaultType,
        risk_level: u32,
        ledger: u64,
    )
        requires
            admin == old(self).admin,
            old(self).whitelist_count < u32::MAX,
        ensures
            final(self).whitelist@ == old(self).whitelist@.insert(vault_address, WhitelistedVault {
                vault_address, vault_name, vault_type, is_active: true, added_at: ledger, risk_level,
            }),
            final(self).whitelist_count == old(self).whitelist_count + 1,
            final(self).circle_bridges == old(self).circle_bridges,
            final(self).group_reserve == old(self).group_reserve,
            final(self).config == old(self).config,
            final(self).admin == old(self).admin,
            final(self).harvest_schedules == old(self).harvest_schedules,
            final(self).harvest_schedule_counts == old(self).harvest_schedule_counts,
            final(self).deployed_counts == old(self).deployed_counts,
    {
        let vault = WhitelistedVault { vault_address, vault_name, vault_type, is_active: true, added_at: ledger, risk_level };
        self.whitelist.insert(vault_address, vault);
        self.whitelist_count = self.whitelist_count + 1;
    }

    /// Deactivates a whitelisted vault. Only the admin may, and only for a
    /// vault on the whitelist; any other call aborts.
    pub fn remove_vault_from_whitelist(&mut self, admin: AccountId, vault_address: AccountId)
        requires
            admin == old(self).admin,
            old(self).whitelist@.contains_key(vault_address),
        ensures
            final(self).whitelist@ == old(self).whitelist@.insert(vault_address, WhitelistedVault {
                is_active: false, ..old(self).whitelist@[vault_address] }),
            final(self).whitelist_count == old(self).whitelist_count,
            final(self).circle_bridges == old(self).circle_bridges,
            final(self).group_reserve == old(self).group_reserve,
            final(self).config == old(self).config,
            final(self).admin == old(self).admin,
            final(self).harvest_schedules == old(self).harvest_schedules,
            final(self).harvest_schedule_counts == old(self).harvest_schedule_counts,
            final(self).deployed_counts == old(self).deployed_counts,
    {
        let mut vault = copy_vault(self.whitelist.get(&vault_address).unwrap());
        vault.is_active = false;
        self.whitelist.insert(vault_address, vault);
    }

    /// The deposit to make to the vault for a deployment of `amount` with
    /// `deposit_share_ratio` of it going to the vault: the vault's share,
    /// the least it may return, the slippage bound, and a deadline 100
    /// ledgers ahead. On an inactive bridge the call aborts.
    pub fn prepare_deployment(
        &self,
        circle_id: u64,
        vault_address: AccountId,
        amount: i128,
        deposit_share_ratio: u32,
        ledger: u64,
    ) -> (r: Result<DepositParams, YieldBridgeError>)
        requires
            self.config.is_active,
            self.deploy_refusal(circle_id, vault_address, deposit_share_ratio) is None ==> {
                &&& i128::MIN <= amount * (10000 - deposit_share_ratio) <= i128::MAX
                &&& i128::MIN <= amount * deposit_share_ratio <= i128::MAX
                &&& ledger + 100 <= u64::MAX
            },
        ensures
            self.deploy_refusal(circle_id, vault_address, deposit_share_ratio) matches Some(e)
                ==> r == Err::<DepositParams, YieldBridgeError>(e),
            self.deploy_refusal(circle_id, vault_address, deposit_share_ratio) is None ==> r == Ok::<DepositParams,
                YieldBridgeError>(DepositParams {
                amount: vault_part(amount as int, deposit_share_ratio as int) as i128,
                min_return_amount: min_return_of(vault_part(amount as int, deposit_share_ratio as int)) as i128,
                max_slippage_bps: MAX_SLIPPAGE_BPS,
                deadline: (ledger + 100) as u64,
            }),
    {
        if let Err(e) = self.check_deployment(circle_id, vault_address, deposit_share_ratio) {
            return Err(e);
        }
        proof {
            lemma_share_fits(amount * deposit_share_ratio);
        }
        let yield_amount = amount * deposit_share_ratio as i128 / 10000;
        Ok(DepositParams {
            amount: yield_amount,
            min_return_amount: yield_amount * (10000 - MAX_SLIPPAGE_BPS) as i128 / 10000,
            max_slippage_bps: MAX_SLIPPAGE_BPS,
            deadline: ledger + 100,
        })
    }

    /// Whether a deployment to `vault_address` with `ratio` is refused, and
    /// why: the checks made before any amount is looked at.
    pub fn check_deployment(&self, circle_id: u64, vault_address: AccountId, ratio: u32) -> (r: Result<(), YieldBridgeError>)
        ensures
            self.deploy_refusal(circle_id, vault_address, ratio) matches Some(e) ==> r == Err::<(), YieldBridgeError>(e),
            self.deploy_refusal(circle_id, vault_address, ratio) is None ==> r is Ok,
    {
        match self.whitelist.get(&vault_address) {
            Some(v) => {
                if !v.is_active {
                    return Err(YieldBridgeError::VaultNotWhitelisted);
                }
            },
            None => { return Err(YieldBridgeError::VaultNotWhitelisted); },
        }
        if ratio < MIN_DEPOSIT_SHARE_RATIO || ratio > MAX_DEPOSIT_SHARE_RATIO {
            return Err(YieldBridgeError::InvalidParameters);
        }
        if let Some(b) = self.circle_bridges.get(&circle_id) {
            if b.is_bailed_out {
                return Err(YieldBridgeError::BailedOut);
            }
        }
        Ok(())
    }

    /// Records a deployment once the vault has taken the deposit and reported
    /// `vault_balance`: the principal share is added to the protected
    /// principal, the whole amount to the deposits, and the vault becomes
    /// the circle's. On an inactive bridge the call aborts.
    pub fn deploy_to_yield_vault(
        &mut self,
        circle_id: u64,
        vault_address: AccountId,
        amount: i128,
        deposit_share_ratio: u32,
        ledger: u64,
        vault_balance: i128,
    ) -> (r: Result<YieldBridgeDeployedEvent, YieldBridgeError>)
        requires
            old(self).config.is_active,
            old(self).deploy_refusal(circle_id, vault_address, deposit_share_ratio) is None ==> {
                let b = old(self).bridge_of(circle_id);
                &&& i128::MIN <= amount * (10000 - deposit_share_ratio) <= i128::MAX
                &&& i128::MIN <= amount * deposit_share_ratio <= i128::MAX
                &&& i128::MIN <= b.total_deposited + amount <= i128::MAX
                &&& i128::MIN <= b.principal_amount + principal_part(amount as int, deposit_share_ratio as int) <= i128::MAX
                &&& Self::count_in(old(self).deployed_counts@, circle_id) < u64::MAX
            },
        ensures
            old(self).deploy_refusal(circle_id, vault_address, deposit_share_ratio) matches Some(e)
                ==> (r matches Err(x) && x == e) && *final(self) == *old(self),
            old(self).deploy_refusal(circle_id, vault_address, deposit_share_ratio) is None ==> {
                let b = old(self).bridge_of(circle_id);
                let nb = CircleBridgeState {
                    selected_vault: Some(vault_address),
                    total_deposited: (b.total_deposited + amount) as i128,
                    principal_amount: (b.principal_amount + principal_part(amount as int, deposit_share_ratio as int)) as i128,
                    current_balance: vault_balance,
                    deposit_share_ratio,
                    last_harvest_ledger: ledger,
                    ..b
                };
                &&& r matches Ok(ev) && ev == (YieldBridgeDeployedEvent {
                    circle_id, vault_address, vault_name: old(self).whitelist@[vault_address].vault_name,
                    amount_deployed: vault_part(amount as int, deposit_share_ratio as int) as i128,
                    deposit_share_ratio, timestamp: ledger,
                })
                &&& final(self).circle_bridges@ == old(self).circle_bridges@.insert(circle_id, nb)
                &&& final(self).deployed_counts@ == old(self).deployed_counts@.insert(circle_id,
                    (Self::count_in(old(self).deployed_counts@, circle_id) + 1) as u64)
                &&& final(self).whitelist == old(self).whitelist
                &&& final(self).whitelist_count == old(self).whitelist_count
                &&& final(self).group_reserve == old(self).group_reserve
                &&& final(self).config == old(self).config
                &&& final(self).admin == old(self).admin
                &&& final(self).harvest_schedules == old(self).harvest_schedules
                &&& final(self).harvest_schedule_counts == old(self).harvest_schedule_counts
            },
    {
        if let Err(e) = self.check_deployment(circle_id, vault_address, deposit_share_ratio) {
            return Err(e);
        }
        let vault_name = match self.whitelist.get(&vault_address) {
            Some(v) => v.vault_name.clone(),
            None => { return Err(YieldBridgeError::VaultNotWhitelisted); },
        };
        let mut state = match self.circle_bridges.get(&circle_id) {
            Some(b) => *b,
            None => CircleBridgeState {
                circle_id,
                selected_vault: None,
                total_deposited: 0,
                principal_amount: 0,
                current_balance: 0,
                deposit_share_ratio: DEFAULT_DEPOSIT_SHARE_RATIO,
                last_harvest_ledger: 0,
                next_payout_ledger: 0,
                is_bailed_out: false,
                yield_earned: 0,
            },
        };
        proof {
            lemma_share_fits(amount * deposit_share_ratio);
            lemma_share_fits(amount * (10000 - deposit_share_ratio));
        }
        let principal_amount = amount * (10000 - deposit_share_ratio) as i128 / 10000;
        let yield_amount = amount * deposit_share_ratio as i128 / 10000;
        state.selected_vault = Some(vault_address);
        state.total_deposited = state.total_deposited + amount;
        state.principal_amount = state.principal_amount + principal_amount;
        state.current_balance = vault_balance;
        state.deposit_share_ratio = deposit_share_ratio;
        state.last_harvest_ledger = ledger;
        self.circle_bridges.insert(circle_id, state);
        let count: u64 = match self.deployed_counts.get(&circle_id) {
            Some(c) => *c,
            None => 0,
        };
        self.deployed_counts.insert(circle_id, count + 1);
        Ok(YieldBridgeDeployedEvent {
            circle_id,
            vault_address,
            vault_name,
            amount_deployed: yield_amount,
            deposit_share_ratio,
            timestamp: ledger,
        })
    }

    fn check_bridge(&self, circle_id: u64) -> (r: Result<CircleBridgeState, YieldBridgeError>)
        ensures
            self.bridge_refusal(circle_id) matches Some(e) ==> r == Err::<CircleBridgeState, YieldBridgeError>(e),
            self.bridge_refusal(circle_id) is None ==> r == Ok::<CircleBridgeState, YieldBridgeError>(
                self.circle_bridges@[circle_id]),
    {
        let state = match self.circle_bridges.get(&circle_id) {
            Some(b) => *b,
            None => { return Err(YieldBridgeError::InvalidCircle); },
        };
        if state.selected_vault.is_none() {
            return Err(YieldBridgeError::InvalidParameters);
        }
        if state.is_bailed_out {
            return Err(YieldBridgeError::BailedOut);
        }
        Ok(state)
    }

    /// Plans a harvest two ledgers before `payout_ledger`, for the circle's
    /// current vault balance. Refused when the target ledger is not after
    /// `ledger`. On an inactive bridge the call aborts.
    pub fn schedule_harvest(&mut self, circle_id: u64, payout_ledger: u64, ledger: u64) -> (r: Result<(), YieldBridgeError>)
        requires
            old(self).config.is_active,
            old(self).bridge_refusal(circle_id) is None ==> Self::count_in(old(self).harvest_schedule_counts@, circle_id)
                < u64::MAX,
        ensures
            old(self).bridge_refusal(circle_id) matches Some(e) ==> r == Err::<(), YieldBridgeError>(e),
            old(self).bridge_refusal(circle_id) is None && sat_sub_u64(payout_ledger, HARVEST_LEDGER_OFFSET) <= ledger
                ==> r == Err::<(), YieldBridgeError>(YieldBridgeError::HarvestNotReady),
            r is Err ==> *final(self) == *old(self),
            old(self).bridge_refusal(circle_id) is None && sat_sub_u64(payout_ledger, HARVEST_LEDGER_OFFSET) > ledger ==> {
                let b = old(self).circle_bridges@[circle_id];
                let id = Self::count_in(old(self).harvest_schedule_counts@, circle_id);
                &&& r is Ok
                &&& final(self).circle_bridges@ == old(self).circle_bridges@.insert(circle_id,
                    CircleBridgeState { next_payout_ledger: payout_ledger, ..b })
                &&& final(self).harvest_schedules@ == old(self).harvest_schedules@.insert((circle_id, id), HarvestSchedule {
                    circle_id, target_ledger: sat_sub_u64(payout_ledger, HARVEST_LEDGER_OFFSET),
                    harvest_amount: b.current_balance, is_executed: false,
                })
                &&& final(self).harvest_schedule_counts@ == old(self).harvest_schedule_counts@.insert(circle_id, (id + 1) as u64)
                &&& final(self).whitelist == old(self).whitelist
                &&& final(self).whitelist_count == old(self).whitelist_count
                &&& final(self).group_reserve == old(self).group_reserve
                &&& final(self).config == old(self).config
                &&& final(self).admin == old(self).admin
                &&& final(self).deployed_counts == old(self).deployed_counts
            },
    {
        let mut state = match self.check_bridge(circle_id) {
            Ok(s) => s,
            Err(e) => { return Err(e); },
        };
        let target_ledger = payout_ledger.saturating_sub(HARVEST_LEDGER_OFFSET);
        if target_ledger <= ledger {
            return Err(YieldBridgeError::HarvestNotReady);
        }
        state.next_payout_ledger = payout_ledger;
        let schedule_id: u64 = match self.harvest_schedule_counts.get(&circle_id) {
            Some(c) => *c,
            None => 0,
        };
        let schedule = HarvestSchedule {
            circle_id,
            target_ledger,
            harvest_amount: state.current_balance,
            is_executed: false,
        };
        self.harvest_schedules.insert((circle_id, schedule_id), schedule);
        self.harvest_schedule_counts.insert(circle_id, schedule_id + 1);
        self.circle_bridges.insert(circle_id, state);
        Ok(())
    }

    /// What to ask the circle's vault for next, given whether it is paused:
    /// an emergency withdrawal of the whole balance from a paused vault, or
    /// a harvest accepting at most 0.5% slippage. On an inactive bridge the
    /// call aborts.
    pub fn harvest_request(&self, circle_id: u64, ledger: u64, vault_paused: bool) -> (r: Result<VaultRequest, YieldBridgeError>)
        requires
            self.config.is_active,
            self.harvest_refusal(circle_id, ledger, vault_paused) is None && !vault_paused ==> {
                let c = self.circle_bridges@[circle_id].current_balance;
                i128::MIN <= c * 9950 <= i128::MAX
            },
        ensures
            self.harvest_refusal(circle_id, ledger, vault_paused) matches Some(e)
                ==> r == Err::<VaultRequest, YieldBridgeError>(e),
            self.harvest_refusal(circle_id, ledger, vault_paused) is None ==> {
                let b = self.circle_bridges@[circle_id];
                r == Ok::<VaultRequest, YieldBridgeError>(if vault_paused {
                    VaultRequest::EmergencyWithdraw { vault: b.selected_vault->0, amount: b.current_balance }
                } else {
                    VaultRequest::HarvestYield { vault: b.selected_vault->0, min_return: min_return_of(b.current_balance as int) as i128 }
                })
            },
    {
        let state = match self.check_bridge(circle_id) {
            Ok(s) => s,
            Err(e) => { return Err(e); },
        };
        let vault = match state.selected_vault {
            Some(v) => v,
            None => { return Err(YieldBridgeError::InvalidParameters); },
        };
        if !self.whitelist.contains_key(&vault) {
            return Err(YieldBridgeError::VaultNotWhitelisted);
        }
        if vault_paused {
            return Ok(VaultRequest::EmergencyWithdraw { vault, amount: state.current_balance });
        }
        if state.next_payout_ledger > 0 {
            let target_ledger = state.next_payout_ledger.saturating_sub(HARVEST_LEDGER_OFFSET);
            if ledger < target_ledger {
                return Err(YieldBridgeError::HarvestNotReady);
            }
        }
        Ok(VaultRequest::HarvestYield {
            vault,
            min_return: state.current_balance * (10000 - MAX_SLIPPAGE_BPS) as i128 / 10000,
        })
    }

    /// Records a harvest once the vault has answered the request of
    /// `harvest_request`. From a paused vault the circle is bailed out: any
    /// shortfall of the principal is covered from the group reserve, or the
    /// harvest is refused when the reserve cannot cover it. Otherwise at least
    /// 95% of the principal must come back; a smaller shortfall is covered
    /// from the reserve, and the circle's balance and yield are updated. On
    /// an inactive bridge the call aborts.
    pub fn execute_harvest(
        &mut self,
        circle_id: u64,
        ledger: u64,
        vault_paused: bool,
        result: YieldHarvestResult,
    ) -> (r: Result<YieldHarvestedEvent, YieldBridgeError>)
        requires
            old(self).config.is_active,
            old(self).harvest_refusal(circle_id, ledger, vault_paused) is None && !vault_paused ==> {
                let b = old(self).circle_bridges@[circle_id];
                &&& i128::MIN <= b.principal_amount * MIN_PRINCIPAL_PROTECTION_BPS <= i128::MAX
                &&& i128::MIN <= b.principal_amount - result.principal_returned <= i128::MAX
                &&& i128::MIN <= result.principal_returned + result.yield_amount <= i128::MAX
                &&& i128::MIN <= b.yield_earned + result.yield_amount <= i128::MAX
            },
        ensures
            old(self).harvest_refusal(circle_id, ledger, vault_paused) matches Some(e)
                ==> r == Err::<YieldHarvestedEvent, YieldBridgeError>(e),
            r is Err ==> *final(self) == *old(self),
            old(self).harvest_refusal(circle_id, ledger, vault_paused) is None ==> {
                let b = old(self).circle_bridges@[circle_id];
                let event = YieldHarvestedEvent {
                    circle_id,
                    vault_address: b.selected_vault->0,
                    amount_harvested: result.harvested_amount,
                    principal_returned: result.principal_returned,
                    yield_amount: result.yield_amount,
                    slippage_bps: result.slippage_bps,
                    timestamp: ledger,
                };
                let reserve = old(self).group_reserve;
                if vault_paused {
                    let shortfall = sat_sub_i128(b.principal_amount as int, result.principal_returned as int);
                    &&& shortfall > 0 && reserve < shortfall ==> r == Err::<YieldHarvestedEvent, YieldBridgeError>(
                        YieldBridgeError::ReserveInsufficient)
                    &&& !(shortfall > 0 && reserve < shortfall) ==> {
                        &&& r == Ok::<YieldHarvestedEvent, YieldBridgeError>(event)
                        &&& final(self).group_reserve == (if shortfall > 0 { reserve - shortfall } else { reserve as int })
                        &&& final(self).circle_bridges@ == old(self).circle_bridges@.insert(circle_id,
                            CircleBridgeState { is_bailed_out: true, ..b })
                    }
                } else {
                    let shortfall = b.principal_amount - result.principal_returned;
                    &&& !principal_protected(b.principal_amount as int, result.principal_returned as int,
                        MIN_PRINCIPAL_PROTECTION_BPS as int) ==> r == Err::<YieldHarvestedEvent, YieldBridgeError>(
                        YieldBridgeError::PrincipalAtRisk)
                    &&& principal_protected(b.principal_amount as int, result.principal_returned as int,
                        MIN_PRINCIPAL_PROTECTION_BPS as int) && shortfall > 0 && reserve < shortfall
                        ==> r == Err::<YieldHarvestedEvent, YieldBridgeError>(YieldBridgeError::ReserveInsufficient)
                    &&& principal_protected(b.principal_amount as int, result.principal_returned as int,
                        MIN_PRINCIPAL_PROTECTION_BPS as int) && !(shortfall > 0 && reserve < shortfall) ==> {
                        &&& r == Ok::<YieldHarvestedEvent, YieldBridgeError>(event)
                        &&& final(self).group_reserve == (if shortfall > 0 { reserve - shortfall } else { reserve as int })
                        &&& final(self).circle_bridges@ == old(self).circle_bridges@.insert(circle_id, CircleBridgeState {
                            current_balance: (result.principal_returned + result.yield_amount) as i128,
                            yield_earned: (b.yield_earned + result.yield_amount) as i128,
                            last_harvest_ledger: ledger,
                            ..b
                        })
                    }
                }
            },
            r is Ok ==> {
                &&& final(self).whitelist == old(self).whitelist
                &&& final(self).whitelist_count == old(self).whitelist_count
                &&& final(self).config == old(self).config
                &&& final(self).admin == old(self).admin
                &&& final(self).harvest_schedules == old(self).harvest_schedules
                &&& final(self).harvest_schedule_counts == old(self).harvest_schedule_counts
                &&& final(self).deployed_counts == old(self).deployed_counts
            },
    {
        let state = match self.check_bridge(circle_id) {
            Ok(s) => s,
            Err(e) => { return Err(e); },
        };
        let vault = match state.selected_vault {
            Some(v) => v,
            None => { return Err(YieldBridgeError::InvalidParameters); },
        };
        if !self.whitelist.contains_key(&vault) {
            return Err(YieldBridgeError::VaultNotWhitelisted);
        }
        if vault_paused {
            return self.handle_paused_vault(circle_id, vault, state, result, ledger);
        }
        if state.next_payout_ledger > 0 {
            let target_ledger = state.next_payout_ledger.saturating_sub(HARVEST_LEDGER_OFFSET);
            if ledger < target_ledger {
                return Err(YieldBridgeError::HarvestNotReady);
            }
        }
        if check_principal_protection(state.principal_amount, result.principal_returned, MIN_PRINCIPAL_PROTECTION_BPS).is_err() {
            return Err(YieldBridgeError::PrincipalAtRisk);
        }
        if result.principal_returned < state.principal_amount {
            let shortfall = state.principal_amount - result.principal_returned;
            if self.group_reserve >= shortfall {
                self.group_reserve = self.group_reserve - shortfall;
            } else {
                return Err(YieldBridgeError::ReserveInsufficient);
            }
        }
        let mut updated = state;
        updated.current_balance = result.principal_returned + result.yield_amount;
        updated.yield_earned = updated.yield_earned + result.yield_amount;
        updated.last_harvest_ledger = ledger;
        self.circle_bridges.insert(circle_id, updated);
        Ok(YieldHarvestedEvent {
            circle_id,
            vault_address: vault,
            amount_harvested: result.harvested_amount,
            principal_returned: result.principal_returned,
            yield_amount: result.yield_amount,
            slippage_bps: result.slippage_bps,
            timestamp: ledger,
        })
    }

    fn handle_paused_vault(
        &mut self,
        circle_id: u64,
        vault: AccountId,
        state: CircleBridgeState,
        result: YieldHarvestResult,
        ledger: u64,
    ) -> (r: Result<YieldHarvestedEvent, YieldBridgeError>)
        ensures
            ({
                let shortfall = sat_sub_i128(state.principal_amount as int, result.principal_returned as int);
                let reserve = old(self).group_reserve;
                &&& shortfall > 0 && reserve < shortfall ==> r == Err::<YieldHarvestedEvent, YieldBridgeError>(
                    YieldBridgeError::ReserveInsufficient) && *final(self) == *old(self)
                &&& !(shortfall > 0 && reserve < shortfall) ==> {
                    &&& r == Ok::<YieldHarvestedEvent, YieldBridgeError>(YieldHarvestedEvent {
                        circle_id, vault_address: vault, amount_harvested: result.harvested_amount,
                        principal_returned: result.principal_returned, yield_amount: result.yield_amount,
                        slippage_bps: result.slippage_bps, timestamp: ledger,
                    })
                    &&& final(self).group_reserve == (if shortfall > 0 { reserve - shortfall } else { reserve as int })
                    &&& final(self).circle_bridges@ == old(self).circle_bridges@.insert(circle_id,
                        CircleBridgeState { is_bailed_out: true, ..state })
                    &&& final(self).whitelist == old(self).whitelist
                    &&& final(self).whitelist_count == old(self).whitelist_count
                    &&& final(self).config == old(self).config
                    &&& final(self).admin == old(self).admin
                    &&& final(self).harvest_schedules == old(self).harvest_schedules
                    &&& final(self).harvest_schedule_counts == old(self).harvest_schedule_counts
                    &&& final(self).deployed_counts == old(self).deployed_counts
                }
            }),
    {
        let shortfall = saturating_sub_i128(state.principal_amount, result.principal_returned);
        if shortfall > 0 {
            if self.group_reserve >= shortfall {
                self.group_reserve = self.group_reserve - shortfall;
            } else {
                return Err(YieldBridgeError::ReserveInsufficient);
            }
        }
        let mut updated = state;
        updated.is_bailed_out = true;
        self.circle_bridges.insert(circle_id, updated);
        Ok(YieldHarvestedEvent {
            circle_id,
            vault_address: vault,
            amount_harvested: result.harvested_amount,
            principal_returned: result.principal_returned,
            yield_amount: result.yield_amount,
            slippage_bps: result.slippage_bps,
            timestamp: ledger,
        })
    }

    /// Adds funds to the group reserve.
    pub fn add_to_reserve(&mut self, amount: i128)
        requires
            i128::MIN <= old(self).group_reserve + amount <= i128::MAX,
        ensures
            final(self).group_reserve == old(self).group_reserve + amount,
            final(self).circle_bridges == old(self).circle_bridges,
            final(self).whitelist == old(self).whitelist,
            final(self).whitelist_count == old(self).whitelist_count,
            final(self).config == old(self).config,
            final(self).admin == old(self).admin,
            final(self).harvest_schedules == old(self).harvest_schedules,
            final(self).harvest_schedule_counts == old(self).harvest_schedule_counts,
            final(self).deployed_counts == old(self).deployed_counts,
    {
        self.group_reserve = self.group_reserve + amount;
    }

    /// Replaces the configuration. Only the admin may; any other caller
    /// aborts.
    pub fn update_config(&mut self, admin: AccountId, config: YieldBridgeConfig)
        requires
            admin == old(self).admin,
        ensures
            *final(self) == (YieldBridgeAdapter { config, ..*old(self) }),
    {
        self.config = config;
    }

    /// The configuration.
    pub fn get_config(&self) -> (r: YieldBridgeConfig)
        ensures
            r == self.config,
    {
        self.config
    }

    /// A whitelisted vault.
    pub fn get_whitelisted_vault(&self, vault_address: AccountId) -> (r: Result<WhitelistedVault, YieldBridgeError>)
        ensures
            !self.whitelist@.contains_key(vault_address) ==> r == Err::<WhitelistedVault, YieldBridgeError>(
                YieldBridgeError::VaultNotWhitelisted),
            self.whitelist@.contains_key(vault_address) ==> r == Ok::<WhitelistedVault, YieldBridgeError>(
                self.whitelist@[vault_address]),
    {
        match self.whitelist.get(&vault_address) {
            Some(v) => Ok(copy_vault(v)),
            None => Err(YieldBridgeError::VaultNotWhitelisted),
        }
    }

    /// A circle's bridge state, if it has one.
    pub fn get_circle_bridge_state(&self, circle_id: u64) -> (r: Option<CircleBridgeState>)
        ensures
            r == self.circle_bridges@.get(circle_id),
    {
        match self.circle_bridges.get(&circle_id) {
            Some(b) => Some(*b),
            None => None,
        }
    }

    /// The group reserve.
    pub fn get_reserve_balance(&self) -> (r: i128)
        ensures
            r == self.group_reserve,
    {
        self.group_reserve
    }
}


/// A circle bailed out of a paused vault is done with the bridge: every
/// further deployment, harvest schedule and harvest of it is refused.
pub proof fn law_bailed_out_circle_is_frozen(b: YieldBridgeAdapter, circle_id: u64, vault_address: AccountId, ratio: u32,
    ledger: u64, vault_paused: bool)
    requires
        b.circle_bridges@.contains_key(circle_id),
        b.circle_bridges@[circle_id].is_bailed_out,
    ensures
        b.deploy_refusal(circle_id, vault_address, ratio) is Some,
        b.bridge_refusal(circle_id) is Some,
        b.harvest_refusal(circle_id, ledger, vault_paused) is Some,
{
}

/// A deployment never sends out more than it is given: the protected
/// principal and the vault's share of a non-negative amount add up to the
/// amount, short of at most one unit lost to rounding.
pub proof fn law_deployment_split_is_exact(amount: int, ratio: int)
    requires
        0 <= amount,
        MIN_DEPOSIT_SHARE_RATIO <= ratio <= MAX_DEPOSIT_SHARE_RATIO,
    ensures
        amount - 1 <= principal_part(amount, ratio) + vault_part(amount, ratio) <= amount,
        principal_part(amount, ratio) >= 0,
        vault_part(amount, ratio) >= 0,
{
    let a = amount * (10000 - ratio);
    let v = amount * ratio;
    assert(a >= 0 && v >= 0 && a + v == amount * 10000) by (nonlinear_arith)
        requires
            0 <= amount,
            0 <= ratio <= 10000,
            a == amount * (10000 - ratio),
            v == amount * ratio;
    assert(a / 10000 + v / 10000 <= (a + v) / 10000) by (nonlinear_arith)
        requires
            a >= 0,
            v >= 0;
    assert(a / 10000 + v / 10000 >= (a + v) / 10000 - 1) by (nonlinear_arith)
        requires
            a >= 0,
            v >= 0;
    assert((amount * 10000) / 10000 == amount) by (nonlinear_arith);
}

} // verus!
