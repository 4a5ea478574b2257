//! Reputation export: a member's reliability data bundled into a payload and
//! a 32-byte SHA-256 hash for a cross-chain bridge, refused while a default
//! investigation is open, within a day of the previous export, or when the
//! fee or the bridge configuration does not allow it.
use vstd::prelude::*;
use std::collections::BTreeMap;
use crate::AccountId;
use crate::bytes::{be_bytes, twos_complement_128, sha256_digest, sha256_of, push_be, push_be_i128, bytes_eq, copy_bytes};

verus! {

broadcast use vstd::std_specs::btree::group_btree_axioms;

/// Fee for an export, in stroops (0.1 XLM).
pub const EXPORT_PROTOCOL_FEE: i128 = 1_000_000;
/// Bridge chain id of Stellar.
pub const WORMHOLE_STELLAR_CHAIN_ID: u16 = 1;
/// Bridge chain id of Ethereum.
pub const WORMHOLE_ETHEREUM_CHAIN_ID: u16 = 2;
/// Bridge chain id of Solana.
pub const WORMHOLE_SOLANA_CHAIN_ID: u16 = 5;
/// Least time between two exports of the same member (24 hours).
pub const EXPORT_COOLDOWN_SECONDS: u64 = 86_400;

/// Storage keys of the export tables.
#[derive(Clone, Debug, PartialEq, Eq)]
pub enum ExportDataKey {
    ExportNonce(AccountId),
    LastExportTimestamp(AccountId),
    ExportRecord(u64),
    GlobalExportSequence,
    ExportHash(Vec<u8>),
    PendingDefaultInvestigation(AccountId),
    WormholeConfig,
}

/// The bridge configuration.
#[derive(Clone, Debug)]
pub struct WormholeConfig {
    pub wormhole_contract: AccountId,
    pub enabled: bool,
    pub supported_chains: Vec<u16>,
}

/// The data exported for verification on another chain.
#[derive(Clone, Copy, Debug, PartialEq, Eq, Structural)]
pub struct ReputationExportPayload {
    pub user_address: AccountId,
    pub ri_score: u32,
    pub total_cycles: u32,
    pub defaults_count: u32,
    pub on_time_rate_bps: u32,
    pub volume_saved: i128,
    pub sequence_nonce: u64,
    pub export_timestamp: u64,
    pub destination_chain: u16,
}

/// The record kept of an export.
#[derive(Clone, Debug)]
pub struct ExportMetadata {
    pub export_id: u64,
    pub user_address: AccountId,
    pub payload_hash: Vec<u8>,
    pub export_timestamp: u64,
    pub destination_chain: u16,
    pub fee_paid: i128,
    pub wormhole_sequence: Option<u64>,
}

/// The value of an export record.
pub struct ExportMetadataView {
    pub export_id: u64,
    pub user_address: AccountId,
    pub payload_hash: Seq<u8>,
    pub export_timestamp: u64,
    pub destination_chain: u16,
    pub fee_paid: i128,
    pub wormhole_sequence: Option<u64>,
}

impl View for ExportMetadata {
    type V = ExportMetadataView;

    open spec fn view(&self) -> ExportMetadataView {
        ExportMetadataView {
            export_id: self.export_id,
            user_address: self.user_address,
            payload_hash: self.payload_hash@,
            export_timestamp: self.export_timestamp,
            destination_chain: self.destination_chain,
            fee_paid: self.fee_paid,
            wormhole_sequence: self.wormhole_sequence,
        }
    }
}

/// An investigation of a member's default.
#[derive(Clone, Copy, Debug, PartialEq, Eq, Structural)]
pub struct DefaultInvestigation {
    pub circle_id: u64,
    pub investigation_start: u64,
    pub status: InvestigationStatus,
}

/// State of a default investigation.
#[derive(Clone, Copy, Debug, PartialEq, Eq, Structural)]
pub enum InvestigationStatus {
    Active,
    Resolved,
    Dismissed,
}

/// Why an export is refused.
#[derive(Clone, Copy, Debug, PartialEq, Eq, Structural)]
pub enum ExportError {
    PendingDefaultInvestigation,
    ExportCooldownNotMet,
    InsufficientProtocolFee,
    WormholeNotConfigured,
    UnsupportedChain,
    DuplicateExport,
    NoReputationData,
    WormholeDisabled,
}

/// The bytes hashed for a payload: every field in order, big-endian, the
/// volume in two's complement.
pub open spec fn payload_bytes(p: ReputationExportPayload) -> Seq<u8> {
    be_bytes(p.user_address as nat, 8) + be_bytes(p.ri_score as nat, 4) + be_bytes(p.total_cycles as nat, 4)
        + be_bytes(p.defaults_count as nat, 4) + be_bytes(p.on_time_rate_bps as nat, 4)
        + be_bytes(twos_complement_128(p.volume_saved as int), 16) + be_bytes(p.sequence_nonce as nat, 8)
        + be_bytes(p.export_timestamp as nat, 8) + be_bytes(p.destination_chain as nat, 2)
}

/// The hash that is verified on the destination chain.
pub open spec fn payload_digest(p: ReputationExportPayload) -> Seq<u8> {
    sha256_digest(payload_bytes(p))
}

fn calculate_payload_hash(payload: &ReputationExportPayload) -> (r: Vec<u8>)
    ensures
        r@ == payload_digest(*payload),
{
    let mut v: Vec<u8> = Vec::new();
    push_be(&mut v, payload.user_address as u128, 8);
    push_be(&mut v, payload.ri_score as u128, 4);
    push_be(&mut v, payload.total_cycles as u128, 4);
    push_be(&mut v, payload.defaults_count as u128, 4);
    push_be(&mut v, payload.on_time_rate_bps as u128, 4);
    push_be_i128(&mut v, payload.volume_saved);
    push_be(&mut v, payload.sequence_nonce as u128, 8);
    push_be(&mut v, payload.export_timestamp as u128, 8);
    push_be(&mut v, payload.destination_chain as u128, 2);
    assert(v@ =~= payload_bytes(*payload));
    sha256_of(&v)
}

fn copy_metadata(m: &ExportMetadata) -> (r: ExportMetadata)
    ensures
        r@ == m@,
{
    ExportMetadata {
        export_id: m.export_id,
        user_address: m.user_address,
        payload_hash: copy_bytes(&m.payload_hash),
        export_timestamp: m.export_timestamp,
        destination_chain: m.destination_chain,
        fee_paid: m.fee_paid,
        wormhole_sequence: m.wormhole_sequence,
    }
}

fn copy_chains(v: &Vec<u16>) -> (r: Vec<u16>)
    ensures
        r@ == v@,
{
    let mut out: Vec<u16> = Vec::new();
    let mut i: usize = 0;
    while i < v.len()
        invariant
            i <= v.len(),
            out@ == v@.subrange(0, i as int),
        decreases v.len() - i,
    {
        out.push(v[i]);
        i = i + 1;
        assert(out@ =~= v@.subrange(0, i as int));
    }
    assert(v@.subrange(0, v.len() as int) =~= v@);
    out
}

/// Whether `last` lies within a day before `now` (a clock running backward
/// counts as no time elapsed).
pub open spec fn within_cooldown(last: u64, now: u64) -> bool {
    (if now >= last { now - last } else { 0 }) < EXPORT_COOLDOWN_SECONDS
}

/// Export storage.
pub struct ExportStore {
    pub export_nonces: BTreeMap<AccountId, u64>,
    pub last_export: BTreeMap<AccountId, u64>,
    pub export_records: BTreeMap<u64, ExportMetadata>,
    pub global_sequence: u64,
    pub export_hashes: Vec<Vec<u8>>,
    pub investigations: BTreeMap<AccountId, DefaultInvestigation>,
    pub wormhole_config: Option<WormholeConfig>,
}

impl ExportStore {
    /// A member has an active default investigation.
    pub open spec fn has_pending_default(&self, user: AccountId) -> bool {
        self.investigations@.contains_key(user) && self.investigations@[user].status == InvestigationStatus::Active
    }

    /// A member exported less than a day before `now`.
    pub open spec fn cooldown_active(&self, user: AccountId, now: u64) -> bool {
        self.last_export@.contains_key(user) && within_cooldown(self.last_export@[user], now)
    }

    /// A member's export nonce (zero when none is stored).
    pub open spec fn nonce_of(&self, user: AccountId) -> u64 {
        if self.export_nonces@.contains_key(user) { self.export_nonces@[user] } else { 0 }
    }

    /// The hashes of all exports so far.
    pub open spec fn hashes(&self) -> Seq<Seq<u8>> {
        self.export_hashes@.map_values(|h: Vec<u8>| h@)
    }

    /// Why an export request is refused before its payload is built, if it is.
    pub open spec fn export_refusal(&self, user: AccountId, destination_chain: u16, fee_paid: i128, now: u64) -> Option<ExportError> {
        if fee_paid < EXPORT_PROTOCOL_FEE {
            Some(ExportError::InsufficientProtocolFee)
        } else if self.has_pending_default(user) {
            Some(ExportError::PendingDefaultInvestigation)
        } else if self.cooldown_active(user, now) {
            Some(ExportError::ExportCooldownNotMet)
        } else if self.wormhole_config is None {
            Some(ExportError::WormholeNotConfigured)
        } else if !self.wormhole_config->0.enabled {
            Some(ExportError::WormholeDisabled)
        } else if !self.wormhole_config->0.supported_chains@.contains(destination_chain) {
            Some(ExportError::UnsupportedChain)
        } else {
            None
        }
    }

    /// Empty storage, no bridge configured.
    pub fn new() -> (r: Self)
        ensures
            r.export_nonces@ == Map::<AccountId, u64>::empty(),
            r.last_export@ == Map::<AccountId, u64>::empty(),
            r.export_records@ == Map::<u64, ExportMetadata>::empty(),
            r.global_sequence == 0,
            r.hashes() == Seq::<Seq<u8>>::empty(),
            r.investigations@ == Map::<AccountId, DefaultInvestigation>::empty(),
            r.wormhole_config is None,
    {
        let r = ExportStore {
            export_nonces: BTreeMap::new(),
            last_export: BTreeMap::new(),
            export_records: BTreeMap::new(),
            global_sequence: 0,
            export_hashes: Vec::new(),
            investigations: BTreeMap::new(),
            wormhole_config: None,
        };
        assert(r.hashes() =~= Seq::<Seq<u8>>::empty());
        r
    }

    /// Configures the bridge, enabled, for the given destination chains.
    pub fn init_wormhole_config(&mut self, wormhole_contract: AccountId, supported_chains: Vec<u16>)
        ensures
            final(self).wormhole_config matches Some(c) && c.wormhole_contract == wormhole_contract && c.enabled
                && c.supported_chains@ == supported_chains@,
            final(self).export_nonces == old(self).export_nonces,
            final(self).last_export == old(self).last_export,
            final(self).export_records == old(self).export_records,
            final(self).global_sequence == old(self).global_sequence,
            final(self).export_hashes == old(self).export_hashes,
            final(self).investigations == old(self).investigations,
    {
        self.wormhole_config = Some(WormholeConfig { wormhole_contract, enabled: true, supported_chains });
    }

    fn has_pending_defaults(&self, user: AccountId) -> (r: bool)
        ensures
            r == self.has_pending_default(user),
    {
        match self.investigations.get(&user) {
            Some(inv) => inv.status == InvestigationStatus::Active,
            None => false,
        }
    }

    fn is_export_cooldown_active(&self, user: AccountId, now: u64) -> (r: bool)
        ensures
            r == self.cooldown_active(user, now),
    {
        match self.last_export.get(&user) {
            Some(last) => now.saturating_sub(*last) < EXPORT_COOLDOWN_SECONDS,
            None => false,
        }
    }

    fn is_duplicate_export(&self, hash: &Vec<u8>) -> (r: bool)
        ensures
            r == self.hashes().contains(hash@),
    {
        let mut i: usize = 0;
        while i < self.export_hashes.len()
            invariant
                i <= self.export_hashes.len(),
                forall|j: int| 0 <= j < i ==> self.hashes()[j] != hash@,
            decreases self.export_hashes.len() - i,
        {
            if bytes_eq(&self.export_hashes[i], hash) {
                assert(self.hashes()[i as int] == hash@);
                return true;
            }
            i = i + 1;
        }
        false
    }

    fn chain_supported(chains: &Vec<u16>, chain: u16) -> (r: bool)
        ensures
            r == chains@.contains(chain),
    {
        let mut i: usize = 0;
        while i < chains.len()
            invariant
                i <= chains.len(),
                forall|j: int| 0 <= j < i ==> chains@[j] != chain,
            decreases chains.len() - i,
        {
            if chains[i] == chain {
                assert(chains@[i as int] == chain);
                return true;
            }
            i = i + 1;
        }
        false
    }

    /// Exports a member's reputation to a destination chain. The payload
    /// carries the member's next nonce and the time; the export gets the next
    /// global id and is recorded with its payload hash, which must be new.
    /// Returns the export id and the payload hash.
    pub fn export_reputation(
        &mut self,
        user: AccountId,
        destination_chain: u16,
        fee_paid: i128,
        ri_score: u32,
        total_cycles: u32,
        defaults_count: u32,
        on_time_rate_bps: u32,
        volume_saved: i128,
        now: u64,
    ) -> (r: Result<(u64, Vec<u8>), ExportError>)
        requires
            old(self).export_refusal(user, destination_chain, fee_paid, now) is None ==> old(self).nonce_of(user)
                < u64::MAX && old(self).global_sequence < u64::MAX,
        ensures
            old(self).export_refusal(user, destination_chain, fee_paid, now) matches Some(e)
                ==> r == Err::<(u64, Vec<u8>), ExportError>(e),
            r is Err ==> *final(self) == *old(self),
            old(self).export_refusal(user, destination_chain, fee_paid, now) is None ==> {
                let payload = ReputationExportPayload {
                    user_address: user, ri_score, total_cycles, defaults_count, on_time_rate_bps, volume_saved,
                    sequence_nonce: old(self).nonce_of(user), export_timestamp: now, destination_chain,
                };
                let hash = payload_digest(payload);
                let id = (old(self).global_sequence + 1) as u64;
                &&& old(self).hashes().contains(hash) ==> r == Err::<(u64, Vec<u8>), ExportError>(ExportError::DuplicateExport)
                &&& !old(self).hashes().contains(hash) ==> {
                    &&& (r matches Ok((eid, h)) && eid == id && h@ == hash)
                    &&& final(self).export_nonces@ == old(self).export_nonces@.insert(user, (old(self).nonce_of(user) + 1) as u64)
                    &&& final(self).global_sequence == id
                    &&& final(self).hashes() == old(self).hashes().push(hash)
                    &&& final(self).export_records@.dom() == old(self).export_records@.dom().insert(id)
                    &&& final(self).export_records@[id]@ == (ExportMetadataView {
                        export_id: id, user_address: user, payload_hash: hash, export_timestamp: now,
                        destination_chain, fee_paid, wormhole_sequence: None,
                    })
                    &&& forall|k: u64| k != id && #[trigger] old(self).export_records@.contains_key(k)
                        ==> final(self).export_records@[k] == old(self).export_records@[k]
                    &&& final(self).last_export@ == old(self).last_export@.insert(user, now)
                    &&& final(self).investigations == old(self).investigations
                    &&& final(self).wormhole_config == old(self).wormhole_config
                }
            },
    {
        if fee_paid < EXPORT_PROTOCOL_FEE {
            return Err(ExportError::InsufficientProtocolFee);
        }
        if self.has_pending_defaults(user) {
            return Err(ExportError::PendingDefaultInvestigation);
        }
        if self.is_export_cooldown_active(user, now) {
            return Err(ExportError::ExportCooldownNotMet);
        }
        match &self.wormhole_config {
            None => { return Err(ExportError::WormholeNotConfigured); },
            Some(config) => {
                if !config.enabled {
                    return Err(ExportError::WormholeDisabled);
                }
                if !Self::chain_supported(&config.supported_chains, destination_chain) {
                    return Err(ExportError::UnsupportedChain);
                }
            },
        }
        let nonce: u64 = match self.export_nonces.get(&user) {
            Some(n) => *n,
            None => 0,
        };
        let export_id = self.global_sequence + 1;
        let payload = ReputationExportPayload {
            user_address: user,
            ri_score,
            total_cycles,
            defaults_count,
            on_time_rate_bps,
            volume_saved,
            sequence_nonce: nonce,
            export_timestamp: now,
            destination_chain,
        };
        let payload_hash = calculate_payload_hash(&payload);
        if self.is_duplicate_export(&payload_hash) {
            return Err(ExportError::DuplicateExport);
        }
        self.export_nonces.insert(user, nonce + 1);
        self.global_sequence = export_id;
        let ghost before = self.hashes();
        self.export_hashes.push(copy_bytes(&payload_hash));
        assert(self.hashes() =~= before.push(payload_hash@));
        let metadata = ExportMetadata {
            export_id,
            user_address: user,
            payload_hash: copy_bytes(&payload_hash),
            export_timestamp: now,
            destination_chain,
            fee_paid,
            wormhole_sequence: None,
        };
        self.export_records.insert(export_id, metadata);
        assert(self.export_records@.dom() =~= old(self).export_records@.dom().insert(export_id));
        self.last_export.insert(user, now);
        Ok((export_id, payload_hash))
    }

    /// Opens a default investigation of a member, which blocks exports.
    pub fn record_default_investigation(&mut self, user: AccountId, circle_id: u64, now: u64)
        ensures
            final(self).investigations@ == old(self).investigations@.insert(user, DefaultInvestigation {
                circle_id, investigation_start: now, status: InvestigationStatus::Active,
            }),
            final(self).export_nonces == old(self).export_nonces,
            final(self).last_export == old(self).last_export,
            final(self).export_records == old(self).export_records,
            final(self).global_sequence == old(self).global_sequence,
            final(self).export_hashes == old(self).export_hashes,
            final(self).wormhole_config == old(self).wormhole_config,
    {
        let investigation = DefaultInvestigation { circle_id, investigation_start: now, status: InvestigationStatus::Active };
        self.investigations.insert(user, investigation);
    }

    /// Closes a member's investigation with the given status (nothing
    /// happens when there is none).
    pub fn resolve_default_investigation(&mut self, user: AccountId, status: InvestigationStatus)
        ensures
            old(self).investigations@.contains_key(user) ==> final(self).investigations@ == old(self).investigations@.insert(
                user, DefaultInvestigation { status, ..old(self).investigations@[user] }),
            !old(self).investigations@.contains_key(user) ==> final(self).investigations == old(self).investigations,
            final(self).export_nonces == old(self).export_nonces,
            final(self).last_export == old(self).last_export,
            final(self).export_records == old(self).export_records,
            final(self).global_sequence == old(self).global_sequence,
            final(self).export_hashes == old(self).export_hashes,
            final(self).wormhole_config == old(self).wormhole_config,
    {
        let current = match self.investigations.get(&user) {
            Some(inv) => *inv,
            None => { return; },
        };
        self.investigations.insert(user, DefaultInvestigation { status, ..current });
    }

    /// The record of an export, if any.
    pub fn get_export_metadata(&self, export_id: u64) -> (r: Option<ExportMetadata>)
        ensures
            r is None <==> !self.export_records@.contains_key(export_id),
            r matches Some(m) ==> m@ == self.export_records@[export_id]@,
    {
        match self.export_records.get(&export_id) {
            Some(m) => Some(copy_metadata(m)),
            None => None,
        }
    }

    /// A member's export nonce.
    pub fn get_export_nonce(&self, user: AccountId) -> (r: u64)
        ensures
            r == self.nonce_of(user),
    {
        match self.export_nonces.get(&user) {
            Some(n) => *n,
            None => 0,
        }
    }

    /// Whether a member may export now: no open investigation and no export
    /// within the last day.
    pub fn can_export(&self, user: AccountId, now: u64) -> (r: bool)
        ensures
            r == (!self.has_pending_default(user) && !self.cooldown_active(user, now)),
    {
        !self.has_pending_defaults(user) && !self.is_export_cooldown_active(user, now)
    }

    /// The bridge configuration, if any.
    pub fn get_wormhole_config(&self) -> (r: Option<WormholeConfig>)
        ensures
            r is None <==> self.wormhole_config is None,
            r matches Some(c) ==> c.wormhole_contract == self.wormhole_config->0.wormhole_contract
                && c.enabled == self.wormhole_config->0.enabled
                && c.supported_chains@ == self.wormhole_config->0.supported_chains@,
    {
        match &self.wormhole_config {
            Some(c) => Some(WormholeConfig {
                wormhole_contract: c.wormhole_contract,
                enabled: c.enabled,
                supported_chains: copy_chains(&c.supported_chains),
            }),
            None => None,
        }
    }
}

/// An export starts a one-day cooldown: any later request by the same
/// member less than a day after it is within the cooldown, and one a full
/// day or more after it is not.
pub proof fn law_export_starts_cooldown(last: Map<AccountId, u64>, user: AccountId, at: u64, later: u64)
    requires
        at <= later,
    ensures
        ({
            let s = last.insert(user, at);
            &&& later < at + EXPORT_COOLDOWN_SECONDS ==> s.contains_key(user) && within_cooldown(s[user], later)
            &&& later >= at + EXPORT_COOLDOWN_SECONDS ==> !within_cooldown(s[user], later)
        }),
{
}

} // verus!
