//! Grant governance: settling a cancelled grant pro rata to the time it ran,
//! tallying a proposal's votes into an audit snapshot with a SHA-256 hash of
//! the voting ledger, and impact certificates whose status, score, badge and
//! link follow the grantee's milestones.
use vstd::prelude::*;
use std::collections::BTreeMap;
use vstd::utf8::encode_utf8;
use vstd::string::StringExecFns;
use crate::AccountId;
use crate::arith::tdiv;
use crate::decimal::{decimal, push_unsigned};
use crate::bytes::{ascii_decimal, be_bytes, sha256_digest, sha256_of, push_be, push_ascii_decimal};

verus! {

broadcast use vstd::std_specs::btree::group_btree_axioms;

/// Why a grant-governance operation is refused.
#[derive(Clone, Copy, Debug, PartialEq, Eq, Structural)]
pub enum GrantError {
    AdminNotSet,
    Unauthorized,
    CertificateNotFound,
}

/// The settlement of a cancelled grant.
#[derive(Clone, Debug)]
pub struct GrantSettlement {
    pub grant_id: u64,
    pub grantee: AccountId,
    pub total_grant_amount: i128,
    pub amount_dripped: i128,
    pub work_in_progress_pay: i128,
    pub treasury_return: i128,
    pub settlement_timestamp: u64,
    pub cancellation_reason: String,
    pub is_malicious: bool,
}

/// A payment from the contract, performed by the caller with the grant's
/// token.
#[derive(Clone, Copy, Debug, PartialEq, Eq, Structural)]
pub struct Payment {
    pub to: AccountId,
    pub amount: i128,
}

/// A vote: the voter, the weight, and the choice ("For", "Against", anything
/// else abstains).
#[derive(Clone, Debug)]
pub struct Vote {
    pub voter: AccountId,
    pub weight: u32,
    pub choice: String,
}

/// The tally of a proposal, frozen for audits.
#[derive(Clone, Debug)]
pub struct VotingSnapshot {
    pub proposal_id: u64,
    pub total_votes: u32,
    pub for_votes: u32,
    pub against_votes: u32,
    pub abstain_votes: u32,
    pub quorum_required: u32,
    pub quorum_met: bool,
    pub result: String,
    pub vote_hash: Vec<u8>,
    pub snapshot_timestamp: u64,
}

/// Progress of a grantee through the grant's milestones.
#[derive(Clone, Copy, Debug, PartialEq, Eq, Structural)]
pub enum MilestoneProgress {
    NotStarted,
    InProgress,
    Phase1Complete,
    Phase2Complete,
    Phase3Complete,
    Completed,
    Cancelled,
}

/// The metadata of an impact certificate.
#[derive(Clone, Debug)]
pub struct ImpactCertificateMetadata {
    pub certificate_id: u128,
    pub holder: AccountId,
    pub milestone_status: MilestoneProgress,
    pub phases_completed: u32,
    pub total_phases: u32,
    pub impact_score: u32,
    pub last_updated: u64,
    pub metadata_uri: String,
    pub on_chain_badge: String,
}

/// What the ecosystem dashboard shows of a certificate.
#[derive(Clone, Debug)]
pub struct ProgressBar {
    pub progress: String,
    pub badge: String,
    pub tier: String,
}

// --- grant settlement ---

/// The part of a grant earned after `elapsed` of `duration` seconds (all of
/// it when the duration is zero), capped at the grant.
pub open spec fn dripped(total_grant: int, duration: int, elapsed: int) -> int {
    let drip = if duration > 0 { tdiv(total_grant * elapsed, duration) } else { total_grant };
    if drip < total_grant { drip } else { total_grant }
}

/// Seconds a grant ran by `current`.
pub open spec fn elapsed_since(start: u64, current: u64) -> int {
    if current > start { current - start } else { 0 }
}

/// Computes the settlement owed when a grant is cancelled at
/// `current_timestamp`: the grantee keeps what dripped so far, the rest goes
/// back to the treasury.
pub fn calculate_drip_settlement(
    grant_id: u64,
    grantee: AccountId,
    total_grant: i128,
    grant_duration_seconds: u64,
    start_timestamp: u64,
    current_timestamp: u64,
) -> (r: Result<GrantSettlement, ()>)
    requires
        i128::MIN <= total_grant * elapsed_since(start_timestamp, current_timestamp) <= i128::MAX,
    ensures
        r matches Ok(s) && {
            let d = dripped(total_grant as int, grant_duration_seconds as int,
                elapsed_since(start_timestamp, current_timestamp));
            &&& s.grant_id == grant_id
            &&& s.grantee == grantee
            &&& s.total_grant_amount == total_grant
            &&& s.amount_dripped == d
            &&& s.work_in_progress_pay == d
            &&& s.treasury_return == total_grant - d
            &&& s.settlement_timestamp == current_timestamp
            &&& s.cancellation_reason@ == "Project pivoted"@
            &&& !s.is_malicious
        },
{
    let elapsed_time: u64 = if current_timestamp > start_timestamp { current_timestamp - start_timestamp } else { 0 };
    let drip_amount: i128 = if grant_duration_seconds > 0 {
        (total_grant * elapsed_time as i128) / grant_duration_seconds as i128
    } else {
        total_grant
    };
    let capped_drip: i128 = if drip_amount < total_grant { drip_amount } else { total_grant };
    proof {
        if grant_duration_seconds > 0 {
            lemma_drip_bounds(total_grant as int, grant_duration_seconds as int, elapsed_time as int);
        }
    }
    let treasury_return = total_grant - capped_drip;
    Ok(GrantSettlement {
        grant_id,
        grantee,
        total_grant_amount: total_grant,
        amount_dripped: capped_drip,
        work_in_progress_pay: capped_drip,
        treasury_return,
        settlement_timestamp: current_timestamp,
        cancellation_reason: "Project pivoted".to_owned(),
        is_malicious: false,
    })
}

proof fn lemma_drip_bounds(total: int, duration: int, elapsed: int)
    requires
        duration > 0,
        elapsed >= 0,
        i128::MIN <= total * elapsed <= i128::MAX,
    ensures
        i128::MIN <= tdiv(total * elapsed, duration) <= i128::MAX,
        total >= 0 ==> tdiv(total * elapsed, duration) >= 0,
        total < 0 ==> tdiv(total * elapsed, duration) <= 0 && tdiv(total * elapsed, duration) >= total * elapsed,
{
    let p = total * elapsed;
    if total >= 0 {
        assert(p >= 0) by (nonlinear_arith) requires total >= 0, elapsed >= 0, p == total * elapsed;
        assert(p / duration <= p) by (nonlinear_arith) requires p >= 0, duration > 0;
    } else {
        assert(p <= 0) by (nonlinear_arith) requires total < 0, elapsed >= 0, p == total * elapsed;
        assert((-p) / duration <= -p) by (nonlinear_arith) requires -p >= 0, duration > 0;
    }
}

// --- voting snapshot ---

/// The tally of `votes`: (for, against, abstain).
pub open spec fn tally(votes: Seq<Vote>) -> (int, int, int)
    decreases votes.len(),
{
    if votes.len() == 0 {
        (0, 0, 0)
    } else {
        let (f, a, n) = tally(votes.drop_last());
        let v = votes.last();
        if v.choice@ == "For"@ {
            (f + v.weight, a, n)
        } else if v.choice@ == "Against"@ {
            (f, a + v.weight, n)
        } else {
            (f, a, n + v.weight)
        }
    }
}

/// The bytes each vote adds to the voting-ledger hash: the voter's decimal
/// spelling, the weight (big-endian) and the choice's text.
pub open spec fn votes_bytes(votes: Seq<Vote>) -> Seq<u8>
    decreases votes.len(),
{
    if votes.len() == 0 {
        Seq::empty()
    } else {
        let v = votes.last();
        votes_bytes(votes.drop_last()) + ascii_decimal(v.voter as nat) + be_bytes(v.weight as nat, 4)
            + encode_utf8(v.choice@)
    }
}

/// The bytes of the voting ledger: proposal, totals, quorum and time
/// (big-endian), then every vote.
pub open spec fn ledger_bytes(proposal_id: u64, t: (int, int, int), quorum_required: u32, now: u64, votes: Seq<Vote>) -> Seq<u8> {
    be_bytes(proposal_id as nat, 8) + be_bytes((t.0 + t.1 + t.2) as nat, 4) + be_bytes(t.0 as nat, 4)
        + be_bytes(t.1 as nat, 4) + be_bytes(t.2 as nat, 4) + be_bytes(quorum_required as nat, 4)
        + be_bytes(now as nat, 8) + votes_bytes(votes)
}

/// The outcome of a tally.
pub open spec fn vote_result(f: int, a: int, quorum_met: bool) -> Seq<char> {
    if !quorum_met {
        "QUORUM_NOT_MET"@
    } else if f > a {
        "APPROVED"@
    } else if a > f {
        "REJECTED"@
    } else {
        "TIED"@
    }
}

proof fn lemma_tally_monotone(votes: Seq<Vote>, i: int)
    requires
        0 <= i <= votes.len(),
    ensures
        tally(votes.subrange(0, i)).0 <= tally(votes).0,
        tally(votes.subrange(0, i)).1 <= tally(votes).1,
        tally(votes.subrange(0, i)).2 <= tally(votes).2,
        tally(votes.subrange(0, i)).0 >= 0,
        tally(votes.subrange(0, i)).1 >= 0,
        tally(votes.subrange(0, i)).2 >= 0,
    decreases votes.len() - i,
{
    if i == votes.len() {
        assert(votes.subrange(0, i) =~= votes);
        lemma_tally_nonneg(votes);
    } else {
        lemma_tally_monotone(votes, i + 1);
        assert(votes.subrange(0, i + 1).drop_last() =~= votes.subrange(0, i));
        lemma_tally_nonneg(votes.subrange(0, i));
    }
}

proof fn lemma_tally_nonneg(votes: Seq<Vote>)
    ensures
        tally(votes).0 >= 0 && tally(votes).1 >= 0 && tally(votes).2 >= 0,
    decreases votes.len(),
{
    if votes.len() > 0 {
        lemma_tally_nonneg(votes.drop_last());
    }
}

fn append_slice(a: &mut Vec<u8>, b: &[u8])
    ensures
        final(a)@ == old(a)@ + b@,
{
    let mut i: usize = 0;
    while i < b.len()
        invariant
            i <= b.len(),
            a@ == old(a)@ + b@.subrange(0, i as int),
        decreases b.len() - i,
    {
        a.push(b[i]);
        i = i + 1;
        assert(a@ =~= old(a)@ + b@.subrange(0, i as int));
    }
    assert(b@.subrange(0, b@.len() as int) =~= b@);
}

fn is_choice(s: &String, word: &str) -> (r: bool)
    ensures
        r == (s@ == word@),
{
    let w = word.to_owned();
    *s == w
}

/// Tallies the votes of a proposal and freezes them with a SHA-256 hash of
/// the voting ledger. The quorum is met when the total weight reaches
/// `quorum_required`; the result is APPROVED, REJECTED or TIED by comparing
/// the for and against weights.
pub fn create_voting_snapshot(proposal_id: u64, votes: &Vec<Vote>, quorum_required: u32, now: u64) -> (r: VotingSnapshot)
    requires
        tally(votes@).0 + tally(votes@).1 + tally(votes@).2 <= u32::MAX,
    ensures
        ({
            let (f, a, n) = tally(votes@);
            &&& r.proposal_id == proposal_id
            &&& r.for_votes == f
            &&& r.against_votes == a
            &&& r.abstain_votes == n
            &&& r.total_votes == f + a + n
            &&& r.quorum_required == quorum_required
            &&& r.quorum_met == (f + a + n >= quorum_required)
            &&& r.result@ == vote_result(f, a, f + a + n >= quorum_required)
            &&& r.vote_hash@ == sha256_digest(ledger_bytes(proposal_id, (f, a, n), quorum_required, now, votes@))
            &&& r.snapshot_timestamp == now
        }),
{
    let mut for_votes: u32 = 0;
    let mut against_votes: u32 = 0;
    let mut abstain_votes: u32 = 0;
    let mut i: usize = 0;
    while i < votes.len()
        invariant
            i <= votes.len(),
            tally(votes@).0 + tally(votes@).1 + tally(votes@).2 <= u32::MAX,
            (for_votes as int, against_votes as int, abstain_votes as int) == tally(votes@.subrange(0, i as int)),
        decreases votes.len() - i,
    {
        proof {
            lemma_tally_monotone(votes@, i + 1);
            assert(votes@.subrange(0, i + 1).drop_last() =~= votes@.subrange(0, i as int));
        }
        let v = &votes[i];
        if is_choice(&v.choice, "For") {
            for_votes = for_votes + v.weight;
        } else if is_choice(&v.choice, "Against") {
            against_votes = against_votes + v.weight;
        } else {
            abstain_votes = abstain_votes + v.weight;
        }
        i = i + 1;
    }
    assert(votes@.subrange(0, i as int) =~= votes@);
    let total_votes = for_votes + against_votes + abstain_votes;
    let quorum_met = total_votes >= quorum_required;
    let result = if !quorum_met {
        "QUORUM_NOT_MET".to_owned()
    } else if for_votes > against_votes {
        "APPROVED".to_owned()
    } else if against_votes > for_votes {
        "REJECTED".to_owned()
    } else {
        "TIED".to_owned()
    };
    let mut bytes: Vec<u8> = Vec::new();
    push_be(&mut bytes, proposal_id as u128, 8);
    push_be(&mut bytes, total_votes as u128, 4);
    push_be(&mut bytes, for_votes as u128, 4);
    push_be(&mut bytes, against_votes as u128, 4);
    push_be(&mut bytes, abstain_votes as u128, 4);
    push_be(&mut bytes, quorum_required as u128, 4);
    push_be(&mut bytes, now as u128, 8);
    let ghost header = bytes@;
    let mut j: usize = 0;
    while j < votes.len()
        invariant
            j <= votes.len(),
            bytes@ == header + votes_bytes(votes@.subrange(0, j as int)),
        decreases votes.len() - j,
    {
        let v = &votes[j];
        push_ascii_decimal(&mut bytes, v.voter);
        push_be(&mut bytes, v.weight as u128, 4);
        append_slice(&mut bytes, v.choice.as_str().as_bytes());
        proof {
            let s = votes@.subrange(0, j + 1);
            assert(s.drop_last() =~= votes@.subrange(0, j as int));
            assert(bytes@ =~= header + votes_bytes(s));
        }
        j = j + 1;
    }
    assert(votes@.subrange(0, j as int) =~= votes@);
    assert(bytes@ =~= ledger_bytes(proposal_id, tally(votes@), quorum_required, now, votes@));
    let vote_hash = sha256_of(&bytes);
    VotingSnapshot {
        proposal_id,
        total_votes,
        for_votes,
        against_votes,
        abstain_votes,
        quorum_required,
        quorum_met,
        result,
        vote_hash,
        snapshot_timestamp: now,
    }
}

// --- impact certificates ---

/// The milestone status after `new_phase` of `total_phases` phases.
pub open spec fn status_after(new_phase: u32, total_phases: u32) -> MilestoneProgress {
    if new_phase == 0 {
        MilestoneProgress::NotStarted
    } else if new_phase >= total_phases {
        MilestoneProgress::Completed
    } else {
        MilestoneProgress::InProgress
    }
}

/// The impact score after adding `delta`, kept within 0..=10000 on the side
/// the delta moves toward.
pub open spec fn score_after(score: u32, delta: i32) -> u32 {
    if delta > 0 {
        if score + delta < 10000 { (score + delta) as u32 } else { 10000 }
    } else {
        if score + delta > 0 { (score + delta) as u32 } else { 0 }
    }
}

/// The badge shown for a status.
pub open spec fn badge_for(status: MilestoneProgress) -> Seq<char> {
    match status {
        MilestoneProgress::Phase1Complete => "PHASE1_HERO"@,
        MilestoneProgress::Phase2Complete => "PHASE2_CHAMPION"@,
        MilestoneProgress::Phase3Complete => "PHASE3_LEGEND"@,
        MilestoneProgress::Completed => "IMPACT_MASTER"@,
        _ => "IN_PROGRESS"@,
    }
}

/// The metadata link of a certificate at a phase.
pub open spec fn certificate_uri(certificate_id: u128, phase: u32) -> Seq<char> {
    "https://metadata.sorosusu.com/impact/"@ + decimal(certificate_id as nat) + "/phase"@ + decimal(phase as nat)
}

/// The dashboard tier of an impact score.
pub open spec fn tier_for(score: u32) -> Seq<char> {
    if score >= 9000 {
        "PLATINUM"@
    } else if score >= 7000 {
        "GOLD"@
    } else if score >= 5000 {
        "SILVER"@
    } else {
        "BRONZE"@
    }
}

fn badge_text(status: MilestoneProgress) -> (r: String)
    ensures
        r@ == badge_for(status),
{
    match status {
        MilestoneProgress::Phase1Complete => "PHASE1_HERO".to_owned(),
        MilestoneProgress::Phase2Complete => "PHASE2_CHAMPION".to_owned(),
        MilestoneProgress::Phase3Complete => "PHASE3_LEGEND".to_owned(),
        MilestoneProgress::Completed => "IMPACT_MASTER".to_owned(),
        _ => "IN_PROGRESS".to_owned(),
    }
}

fn copy_certificate(c: &ImpactCertificateMetadata) -> (r: ImpactCertificateMetadata)
    ensures
        r == *c,
{
    ImpactCertificateMetadata {
        certificate_id: c.certificate_id,
        holder: c.holder,
        milestone_status: c.milestone_status,
        phases_completed: c.phases_completed,
        total_phases: c.total_phases,
        impact_score: c.impact_score,
        last_updated: c.last_updated,
        metadata_uri: c.metadata_uri.clone(),
        on_chain_badge: c.on_chain_badge.clone(),
    }
}

fn copy_snapshot(s: &VotingSnapshot) -> (r: VotingSnapshot)
    ensures
        r.proposal_id == s.proposal_id,
        r.total_votes == s.total_votes,
        r.for_votes == s.for_votes,
        r.against_votes == s.against_votes,
        r.abstain_votes == s.abstain_votes,
        r.quorum_required == s.quorum_required,
        r.quorum_met == s.quorum_met,
        r.result == s.result,
        r.vote_hash@ == s.vote_hash@,
        r.snapshot_timestamp == s.snapshot_timestamp,
{
    VotingSnapshot {
        proposal_id: s.proposal_id,
        total_votes: s.total_votes,
        for_votes: s.for_votes,
        against_votes: s.against_votes,
        abstain_votes: s.abstain_votes,
        quorum_required: s.quorum_required,
        quorum_met: s.quorum_met,
        result: s.result.clone(),
        vote_hash: crate::bytes::copy_bytes(&s.vote_hash),
        snapshot_timestamp: s.snapshot_timestamp,
    }
}

/// Grant-governance storage.
pub struct GrantStore {
    pub admin: Option<AccountId>,
    pub settlements: BTreeMap<u64, GrantSettlement>,
    pub voting_snapshots: BTreeMap<u64, VotingSnapshot>,
    pub certificates: BTreeMap<u128, ImpactCertificateMetadata>,
}

impl GrantStore {
    /// Storage with the given admin and nothing else.
    pub fn new(admin: Option<AccountId>) -> (r: Self)
        ensures
            r.admin == admin,
            r.settlements@ == Map::<u64, GrantSettlement>::empty(),
            r.voting_snapshots@ == Map::<u64, VotingSnapshot>::empty(),
            r.certificates@ == Map::<u128, ImpactCertificateMetadata>::empty(),
    {
        GrantStore { admin, settlements: BTreeMap::new(), voting_snapshots: BTreeMap::new(), certificates: BTreeMap::new() }
    }

    /// Cancels a grant amicably: settles it at `now`, stores the
    /// settlement, and returns it with the payments to make from the
    /// contract, the earned part to the grantee and the rest to the treasury
    /// (a payment only when positive). Refused when no admin is set; a caller
    /// other than the admin aborts the call.
    pub fn terminate_grant_amicably(
        &mut self,
        admin: AccountId,
        grant_id: u64,
        grantee: AccountId,
        total_grant: i128,
        grant_duration: u64,
        start_timestamp: u64,
        treasury_address: AccountId,
        now: u64,
    ) -> (r: Result<(GrantSettlement, Vec<Payment>), GrantError>)
        requires
            old(self).admin matches Some(a) ==> a == admin,
            i128::MIN <= total_grant * elapsed_since(start_timestamp, now) <= i128::MAX,
        ensures
            old(self).admin is None ==> r == Err::<(GrantSettlement, Vec<Payment>), GrantError>(GrantError::AdminNotSet),
            r is Err ==> *final(self) == *old(self),
            old(self).admin == Some(admin) ==> {
                let d = dripped(total_grant as int, grant_duration as int, elapsed_since(start_timestamp, now));
                let back = total_grant - d;
                r matches Ok((s, pays)) && {
                    &&& s.grant_id == grant_id && s.grantee == grantee && s.total_grant_amount == total_grant
                    &&& s.amount_dripped == d && s.work_in_progress_pay == d && s.treasury_return == back
                    &&& s.settlement_timestamp == now && !s.is_malicious
                    &&& s.cancellation_reason@ == "Project pivoted"@
                    &&& pays@ == (if d > 0 { seq![Payment { to: grantee, amount: d as i128 }] } else { Seq::empty() })
                        + (if back > 0 { seq![Payment { to: treasury_address, amount: back as i128 }] } else { Seq::empty() })
                    &&& final(self).settlements@ == old(self).settlements@.insert(grant_id, s)
                    &&& final(self).admin == old(self).admin
                    &&& final(self).voting_snapshots == old(self).voting_snapshots
                    &&& final(self).certificates == old(self).certificates
                }
            },
    {
        if self.admin.is_none() {
            return Err(GrantError::AdminNotSet);
        }
        let settlement = match calculate_drip_settlement(grant_id, grantee, total_grant, grant_duration, start_timestamp, now) {
            Ok(s) => s,
            Err(_) => { return Err(GrantError::Unauthorized); },
        };
        let mut payments: Vec<Payment> = Vec::new();
        if settlement.work_in_progress_pay > 0 {
            payments.push(Payment { to: grantee, amount: settlement.work_in_progress_pay });
        }
        if settlement.treasury_return > 0 {
            payments.push(Payment { to: treasury_address, amount: settlement.treasury_return });
        }
        let stored = GrantSettlement {
            grant_id: settlement.grant_id,
            grantee: settlement.grantee,
            total_grant_amount: settlement.total_grant_amount,
            amount_dripped: settlement.amount_dripped,
            work_in_progress_pay: settlement.work_in_progress_pay,
            treasury_return: settlement.treasury_return,
            settlement_timestamp: settlement.settlement_timestamp,
            cancellation_reason: settlement.cancellation_reason.clone(),
            is_malicious: settlement.is_malicious,
        };
        self.settlements.insert(grant_id, stored);
        assert(payments@ =~= (if settlement.work_in_progress_pay > 0 {
            seq![Payment { to: grantee, amount: settlement.work_in_progress_pay }] } else { Seq::empty() })
            + (if settlement.treasury_return > 0 { seq![Payment { to: treasury_address, amount: settlement.treasury_return }] }
            else { Seq::empty() }));
        Ok((settlement, payments))
    }

    /// The stored snapshot of a proposal, if any.
    pub fn get_voting_snapshot_for_audit(&self, proposal_id: u64) -> (r: Option<VotingSnapshot>)
        ensures
            r is None <==> !self.voting_snapshots@.contains_key(proposal_id),
            r matches Some(s) ==> {
                let t = self.voting_snapshots@[proposal_id];
                &&& s.proposal_id == t.proposal_id && s.total_votes == t.total_votes
                &&& s.for_votes == t.for_votes && s.against_votes == t.against_votes && s.abstain_votes == t.abstain_votes
                &&& s.quorum_required == t.quorum_required && s.quorum_met == t.quorum_met
                &&& s.result == t.result && s.vote_hash@ == t.vote_hash@ && s.snapshot_timestamp == t.snapshot_timestamp
            },
    {
        match self.voting_snapshots.get(&proposal_id) {
            Some(s) => Some(copy_snapshot(s)),
            None => None,
        }
    }

    /// Records a verified milestone on a certificate: the phases completed,
    /// the status, the score moved by `impact_score_delta` within 0..=10000,
    /// the badge, the link to the phase's metadata, and the time.
    pub fn update_impact_certificate_metadata(
        &mut self,
        certificate_id: u128,
        new_phase: u32,
        total_phases: u32,
        impact_score_delta: i32,
        now: u64,
    ) -> (r: Result<ImpactCertificateMetadata, GrantError>)
        requires
            old(self).certificates@.contains_key(certificate_id) ==> {
                let s = old(self).certificates@[certificate_id].impact_score;
                s <= i32::MAX && i32::MIN <= s + impact_score_delta <= i32::MAX
            },
        ensures
            !old(self).certificates@.contains_key(certificate_id) ==> r == Err::<ImpactCertificateMetadata, GrantError>(
                GrantError::CertificateNotFound) && *final(self) == *old(self),
            old(self).certificates@.contains_key(certificate_id) ==> {
                let c = old(self).certificates@[certificate_id];
                let status = status_after(new_phase, total_phases);
                r matches Ok(n) && {
                    &&& n.certificate_id == c.certificate_id && n.holder == c.holder && n.total_phases == c.total_phases
                    &&& n.phases_completed == new_phase
                    &&& n.milestone_status == status
                    &&& n.impact_score == score_after(c.impact_score, impact_score_delta)
                    &&& n.on_chain_badge@ == badge_for(status)
                    &&& n.metadata_uri@ == certificate_uri(certificate_id, new_phase)
                    &&& n.last_updated == now
                    &&& final(self).certificates@ == old(self).certificates@.insert(certificate_id, n)
                    &&& final(self).admin == old(self).admin
                    &&& final(self).settlements == old(self).settlements
                    &&& final(self).voting_snapshots == old(self).voting_snapshots
                }
            },
    {
        let mut cert = match self.certificates.get(&certificate_id) {
            Some(c) => copy_certificate(c),
            None => { return Err(GrantError::CertificateNotFound); },
        };
        cert.phases_completed = new_phase;
        cert.milestone_status = if new_phase == 0 {
            MilestoneProgress::NotStarted
        } else if new_phase >= total_phases {
            MilestoneProgress::Completed
        } else {
            MilestoneProgress::InProgress
        };
        let sum: i32 = cert.impact_score as i32 + impact_score_delta;
        let new_score: u32 = if impact_score_delta > 0 {
            if sum < 10000 { sum as u32 } else { 10000 }
        } else {
            if sum > 0 { sum as u32 } else { 0 }
        };
        cert.impact_score = new_score;
        cert.on_chain_badge = badge_text(cert.milestone_status);
        let mut uri = "https://metadata.sorosusu.com/impact/".to_owned();
        push_unsigned(&mut uri, certificate_id);
        uri.append("/phase");
        push_unsigned(&mut uri, new_phase as u128);
        cert.metadata_uri = uri;
        cert.last_updated = now;
        let result = copy_certificate(&cert);
        self.certificates.insert(certificate_id, cert);
        Ok(result)
    }

    /// Issues a certificate to a new grantee: not started, score 5000, badge
    /// NEWCOMER, with the given link.
    pub fn initialize_impact_certificate(
        &mut self,
        holder: AccountId,
        certificate_id: u128,
        total_phases: u32,
        initial_metadata_uri: &str,
        now: u64,
    ) -> (r: ImpactCertificateMetadata)
        ensures
            r.certificate_id == certificate_id && r.holder == holder && r.total_phases == total_phases,
            r.milestone_status == MilestoneProgress::NotStarted,
            r.phases_completed == 0,
            r.impact_score == 5000,
            r.last_updated == now,
            r.metadata_uri@ == initial_metadata_uri@,
            r.on_chain_badge@ == "NEWCOMER"@,
            final(self).certificates@ == old(self).certificates@.insert(certificate_id, r),
            final(self).admin == old(self).admin,
            final(self).settlements == old(self).settlements,
            final(self).voting_snapshots == old(self).voting_snapshots,
    {
        let cert = ImpactCertificateMetadata {
            certificate_id,
            holder,
            milestone_status: MilestoneProgress::NotStarted,
            phases_completed: 0,
            total_phases,
            impact_score: 5000,
            last_updated: now,
            metadata_uri: initial_metadata_uri.to_owned(),
            on_chain_badge: "NEWCOMER".to_owned(),
        };
        let result = copy_certificate(&cert);
        self.certificates.insert(certificate_id, cert);
        result
    }

    /// The dashboard view of a certificate: the percentage of phases done,
    /// the badge, and the tier of its impact score.
    pub fn get_progress_bar_data(&self, certificate_id: u128) -> (r: Option<ProgressBar>)
        requires
            self.certificates@.contains_key(certificate_id) ==> self.certificates@[certificate_id].phases_completed * 100
                <= u32::MAX,
        ensures
            !self.certificates@.contains_key(certificate_id) ==> r is None,
            self.certificates@.contains_key(certificate_id) ==> {
                let c = self.certificates@[certificate_id];
                let percent: int = if c.total_phases > 0 { (c.phases_completed * 100) / (c.total_phases as int) } else { 0 };
                r matches Some(p) && p.progress@ == decimal(percent as nat) && p.badge@ == c.on_chain_badge@
                    && p.tier@ == tier_for(c.impact_score)
            },
    {
        let cert = match self.certificates.get(&certificate_id) {
            Some(c) => c,
            None => { return None; },
        };
        let percent: u32 = if cert.total_phases > 0 { (cert.phases_completed * 100) / cert.total_phases } else { 0 };
        let mut progress = String::new();
        push_unsigned(&mut progress, percent as u128);
        assert(progress@ =~= decimal(percent as nat));
        let tier = if cert.impact_score >= 9000 {
            "PLATINUM".to_owned()
        } else if cert.impact_score >= 7000 {
            "GOLD".to_owned()
        } else if cert.impact_score >= 5000 {
            "SILVER".to_owned()
        } else {
            "BRONZE".to_owned()
        };
        Some(ProgressBar { progress, badge: cert.on_chain_badge.clone(), tier })
    }
}

/// A settlement splits the grant exactly: what the grantee keeps plus what
/// returns to the treasury is the whole grant, and for a non-negative grant
/// neither part is negative.
pub proof fn law_settlement_splits_grant(total_grant: int, duration: int, elapsed: int)
    requires
        duration >= 0,
        elapsed >= 0,
        total_grant >= 0,
    ensures
        dripped(total_grant, duration, elapsed) + (total_grant - dripped(total_grant, duration, elapsed)) == total_grant,
        0 <= dripped(total_grant, duration, elapsed) <= total_grant,
{
    if duration > 0 {
        let p = total_grant * elapsed;
        assert(p >= 0) by (nonlinear_arith) requires total_grant >= 0, elapsed >= 0, p == total_grant * elapsed;
        assert(p / duration >= 0) by (nonlinear_arith) requires p >= 0, duration > 0;
    }
}

/// The impact score always stays within 0..=10000 once it starts there.
pub proof fn law_impact_score_bounded(score: u32, delta: i32)
    requires
        score <= 10000,
    ensures
        score_after(score, delta) <= 10000,
{
}

} // verus!
