//! The protocol-wide error catalogue: stable numeric codes, messages and
//! categories for front ends.
use vstd::prelude::*;

verus! {

#[verifier::external_type_specification]
#[verifier::external_body]
pub struct ExSorobanError(soroban_sdk::Error);

/// Every error the SoroSusu contracts report. Each variant has a stable
/// numeric code (see [`SoroSusuError::code`]) grouped by thousands.
#[derive(Clone, Copy, Debug, PartialEq, Eq, Structural)]
pub enum SoroSusuError {
    // General errors (1000-1999)
    Unauthorized,
    AdminNotSet,
    CircleNotFound,
    MemberNotFound,
    MemberNotActive,
    AlreadyMember,
    CircleFull,
    NoMembersInCircle,
    InvalidInput,
    Overflow,
    Underflow,
    DivisionByZero,
    InvalidAddress,
    ContractPaused,
    EmergencyMode,
    // Circle lifecycle errors (2000-2999)
    CycleNotMatured,
    RoundAlreadyFinalized,
    InvalidRound,
    CircleCompleted,
    CircleNotStarted,
    InvalidCycleDuration,
    MaxCycleDurationExceeded,
    LeadershipCrisis,
    NoRecipientSet,
    InvalidRecipient,
    // Contribution errors (3000-3999)
    InvalidContributionAmount,
    InsufficientBalance,
    ContributionOverflow,
    ZeroRounds,
    ContributionTransactionFailed,
    InvalidContributionWindow,
    MaxContributionExceeded,
    ContributionAlreadyMade,
    InvalidToken,
    TrustlineMissing,
    // Member management errors (4000-4999)
    MemberIndexOutOfBounds,
    MaxGroupSizeExceeded,
    InvalidMemberStatus,
    MemberAlreadyExists,
    InvalidShares,
    MemberSuspended,
    MemberDefaulted,
    InvalidMemberIndex,
    MemberNotEligible,
    // Financial errors (5000-5999)
    InvalidAmount,
    InsufficientFunds,
    AmountBelowMinimum,
    AmountAboveMaximum,
    InvalidFee,
    FeeExceedsLimit,
    InvalidInsuranceFee,
    InsuranceFeeExceedsLimit,
    InvalidInterestRate,
    InterestRateExceedsLimit,
    // Lending market errors (6000-6999)
    LendingMarketNotInitialized,
    LendingMarketDisabled,
    PoolNotFound,
    PoolNotActive,
    InsufficientPoolLiquidity,
    PositionNotFound,
    LoanNotActive,
    PaymentExceedsBalance,
    ScheduleNotFound,
    InvalidLTVRatio,
    MaxLTVExceeded,
    EmergencyLoanNotFound,
    VotingPeriodEnded,
    InsufficientVotes,
    // Governance errors (7000-7999)
    VotingSessionNotFound,
    VotingNotActive,
    AlreadyVoted,
    InvalidVote,
    QuorumNotMet,
    ProposalNotFound,
    ProposalExpired,
    InvalidProposal,
    UnauthorizedGovernanceAction,
    // Recovery errors (8000-8999)
    NoActiveMembers,
    RecoveryProposalNotFound,
    OldMemberNotFound,
    NewMemberAlreadyExists,
    InvalidRecoveryAddress,
    RecoveryConsensusNotMet,
    RecoveryWindowExpired,
    // Yield and reward errors (9000-9999)
    YieldBalanceNotFound,
    HarvestNotAvailable,
    InvalidYieldAllocation,
    YieldCalculationError,
    BatchHarvestInProgress,
    InsufficientYield,
    YieldDistributionFailed,
    // Dispute resolution errors (10000-10999)
    DisputeNotFound,
    DisputeNotActive,
    InvalidDisputeStatus,
    JurorNotSelected,
    InvalidEvidence,
    DisputeExpired,
    InsufficientDisputeBond,
    // Security errors (11000-11999)
    ReentrancyDetected,
    InvalidSignature,
    AuthenticationFailed,
    PasskeyInvalid,
    MerkleProofInvalid,
    ContributionSecurityViolation,
    // Oracle and price errors (12000-12999)
    OracleUnavailable,
    PriceStale,
    InvalidPrice,
    PriceFeedError,
    CircuitBreakerTriggered,
    // Tax and compliance errors (13000-13999)
    TaxConfigurationNotFound,
    InvalidTaxRate,
    TaxExemptionInvalid,
    TaxWithholdingFailed,
    ComplianceCheckFailed,
    // Audit and logging errors (14000-14999)
    AuditEntryNotFound,
    LoggingFailed,
    InvalidAuditTrail,
    // Anchor integration errors (15000-15999)
    AnchorNotRegistered,
    AnchorDepositNotFound,
    InvalidAnchorConfiguration,
    AnchorTransferFailed,
    // Internal errors (17000-17999)
    InternalError,
    StorageError,
    SerializationError,
    DeserializationError,
    InvalidStorageKey,
    ContractInvariantViolation,
}

/// The numeric code of each error.
pub open spec fn spec_code(e: SoroSusuError) -> u32 {
    match e {
        SoroSusuError::Unauthorized => 1000,
        SoroSusuError::AdminNotSet => 1001,
        SoroSusuError::CircleNotFound => 1002,
        SoroSusuError::MemberNotFound => 1003,
        SoroSusuError::MemberNotActive => 1004,
        SoroSusuError::AlreadyMember => 1005,
        SoroSusuError::CircleFull => 1006,
        SoroSusuError::NoMembersInCircle => 1007,
        SoroSusuError::InvalidInput => 1008,
        SoroSusuError::Overflow => 1009,
        SoroSusuError::Underflow => 1010,
        SoroSusuError::DivisionByZero => 1011,
        SoroSusuError::InvalidAddress => 1012,
        SoroSusuError::ContractPaused => 1013,
        SoroSusuError::EmergencyMode => 1014,
        SoroSusuError::CycleNotMatured => 2000,
        SoroSusuError::RoundAlreadyFinalized => 2001,
        SoroSusuError::InvalidRound => 2002,
        SoroSusuError::CircleCompleted => 2003,
        SoroSusuError::CircleNotStarted => 2004,
        SoroSusuError::InvalidCycleDuration => 2005,
        SoroSusuError::MaxCycleDurationExceeded => 2006,
        SoroSusuError::LeadershipCrisis => 2007,
        SoroSusuError::NoRecipientSet => 2008,
        SoroSusuError::InvalidRecipient => 2009,
        SoroSusuError::InvalidContributionAmount => 3000,
        SoroSusuError::InsufficientBalance => 3001,
        SoroSusuError::ContributionOverflow => 3002,
        SoroSusuError::ZeroRounds => 3003,
        SoroSusuError::ContributionTransactionFailed => 3004,
        SoroSusuError::InvalidContributionWindow => 3005,
        SoroSusuError::MaxContributionExceeded => 3006,
        SoroSusuError::ContributionAlreadyMade => 3007,
        SoroSusuError::InvalidToken => 3008,
        SoroSusuError::TrustlineMissing => 3009,
        SoroSusuError::MemberIndexOutOfBounds => 4000,
        SoroSusuError::MaxGroupSizeExceeded => 4001,
        SoroSusuError::InvalidMemberStatus => 4002,
        SoroSusuError::MemberAlreadyExists => 4003,
        SoroSusuError::InvalidShares => 4004,
        SoroSusuError::MemberSuspended => 4005,
        SoroSusuError::MemberDefaulted => 4006,
        SoroSusuError::InvalidMemberIndex => 4007,
        SoroSusuError::MemberNotEligible => 4008,
        SoroSusuError::InvalidAmount => 5000,
        SoroSusuError::InsufficientFunds => 5001,
        SoroSusuError::AmountBelowMinimum => 5002,
        SoroSusuError::AmountAboveMaximum => 5003,
        SoroSusuError::InvalidFee => 5004,
        SoroSusuError::FeeExceedsLimit => 5005,
        SoroSusuError::InvalidInsuranceFee => 5006,
        SoroSusuError::InsuranceFeeExceedsLimit => 5007,
        SoroSusuError::InvalidInterestRate => 5008,
        SoroSusuError::InterestRateExceedsLimit => 5009,
        SoroSusuError::LendingMarketNotInitialized => 6000,
        SoroSusuError::LendingMarketDisabled => 6001,
        SoroSusuError::PoolNotFound => 6002,
        SoroSusuError::PoolNotActive => 6003,
        SoroSusuError::InsufficientPoolLiquidity => 6004,
        SoroSusuError::PositionNotFound => 6005,
        SoroSusuError::LoanNotActive => 6006,
        SoroSusuError::PaymentExceedsBalance => 6007,
        SoroSusuError::ScheduleNotFound => 6008,
        SoroSusuError::InvalidLTVRatio => 6009,
        SoroSusuError::MaxLTVExceeded => 6010,
        SoroSusuError::EmergencyLoanNotFound => 6011,
        SoroSusuError::VotingPeriodEnded => 6012,
        SoroSusuError::InsufficientVotes => 6013,
        SoroSusuError::VotingSessionNotFound => 7000,
        SoroSusuError::VotingNotActive => 7001,
        SoroSusuError::AlreadyVoted => 7002,
        SoroSusuError::InvalidVote => 7003,
        SoroSusuError::QuorumNotMet => 7004,
        SoroSusuError::ProposalNotFound => 7005,
        SoroSusuError::ProposalExpired => 7006,
        SoroSusuError::InvalidProposal => 7007,
        SoroSusuError::UnauthorizedGovernanceAction => 7008,
        SoroSusuError::NoActiveMembers => 8000,
        SoroSusuError::RecoveryProposalNotFound => 8001,
        SoroSusuError::OldMemberNotFound => 8002,
        SoroSusuError::NewMemberAlreadyExists => 8003,
        SoroSusuError::InvalidRecoveryAddress => 8004,
        SoroSusuError::RecoveryConsensusNotMet => 8005,
        SoroSusuError::RecoveryWindowExpired => 8006,
        SoroSusuError::YieldBalanceNotFound => 9000,
        SoroSusuError::HarvestNotAvailable => 9001,
        SoroSusuError::InvalidYieldAllocation => 9002,
        SoroSusuError::YieldCalculationError => 9003,
        SoroSusuError::BatchHarvestInProgress => 9004,
        SoroSusuError::InsufficientYield => 9005,
        SoroSusuError::YieldDistributionFailed => 9006,
        SoroSusuError::DisputeNotFound => 10000,
        SoroSusuError::DisputeNotActive => 10001,
        SoroSusuError::InvalidDisputeStatus => 10002,
        SoroSusuError::JurorNotSelected => 10003,
        SoroSusuError::InvalidEvidence => 10004,
        SoroSusuError::DisputeExpired => 10005,
        SoroSusuError::InsufficientDisputeBond => 10006,
        SoroSusuError::ReentrancyDetected => 11000,
        SoroSusuError::InvalidSignature => 11001,
        SoroSusuError::AuthenticationFailed => 11002,
        SoroSusuError::PasskeyInvalid => 11003,
        SoroSusuError::MerkleProofInvalid => 11004,
        SoroSusuError::ContributionSecurityViolation => 11005,
        SoroSusuError::OracleUnavailable => 12000,
        SoroSusuError::PriceStale => 12001,
        SoroSusuError::InvalidPrice => 12002,
        SoroSusuError::PriceFeedError => 12003,
        SoroSusuError::CircuitBreakerTriggered => 12004,
        SoroSusuError::TaxConfigurationNotFound => 13000,
        SoroSusuError::InvalidTaxRate => 13001,
        SoroSusuError::TaxExemptionInvalid => 13002,
        SoroSusuError::TaxWithholdingFailed => 13003,
        SoroSusuError::ComplianceCheckFailed => 13004,
        SoroSusuError::AuditEntryNotFound => 14000,
        SoroSusuError::LoggingFailed => 14001,
        SoroSusuError::InvalidAuditTrail => 14002,
        SoroSusuError::AnchorNotRegistered => 15000,
        SoroSusuError::AnchorDepositNotFound => 15001,
        SoroSusuError::InvalidAnchorConfiguration => 15002,
        SoroSusuError::AnchorTransferFailed => 15003,
        SoroSusuError::InternalError => 17000,
        SoroSusuError::StorageError => 17001,
        SoroSusuError::SerializationError => 17002,
        SoroSusuError::DeserializationError => 17003,
        SoroSusuError::InvalidStorageKey => 17004,
        SoroSusuError::ContractInvariantViolation => 17005,
    }
}

/// The human-readable message of each error.
pub open spec fn spec_message(e: SoroSusuError) -> Seq<char> {
    match e {
        SoroSusuError::Unauthorized => "Unauthorized access"@,
        SoroSusuError::AdminNotSet => "Admin address not set"@,
        SoroSusuError::CircleNotFound => "Circle not found"@,
        SoroSusuError::MemberNotFound => "Member not found"@,
        SoroSusuError::MemberNotActive => "Member is not active"@,
        SoroSusuError::AlreadyMember => "Already a member of this circle"@,
        SoroSusuError::CircleFull => "Circle is full"@,
        SoroSusuError::NoMembersInCircle => "No members in circle"@,
        SoroSusuError::InvalidInput => "Invalid input provided"@,
        SoroSusuError::Overflow => "Arithmetic overflow"@,
        SoroSusuError::Underflow => "Arithmetic underflow"@,
        SoroSusuError::DivisionByZero => "Division by zero"@,
        SoroSusuError::InvalidAddress => "Invalid address format"@,
        SoroSusuError::ContractPaused => "Contract is paused"@,
        SoroSusuError::EmergencyMode => "Contract in emergency mode"@,
        SoroSusuError::CycleNotMatured => "Cycle has not matured yet"@,
        SoroSusuError::RoundAlreadyFinalized => "Round already finalized"@,
        SoroSusuError::InvalidRound => "Invalid round number"@,
        SoroSusuError::CircleCompleted => "Circle has been completed"@,
        SoroSusuError::CircleNotStarted => "Circle has not started"@,
        SoroSusuError::InvalidCycleDuration => "Invalid cycle duration"@,
        SoroSusuError::MaxCycleDurationExceeded => "Cycle duration exceeds maximum limit"@,
        SoroSusuError::LeadershipCrisis => "Leadership crisis detected"@,
        SoroSusuError::NoRecipientSet => "No recipient set for current round"@,
        SoroSusuError::InvalidRecipient => "Invalid recipient address"@,
        SoroSusuError::InvalidContributionAmount => "Invalid contribution amount"@,
        SoroSusuError::InsufficientBalance => "Insufficient token balance"@,
        SoroSusuError::ContributionOverflow => "Contribution amount overflow"@,
        SoroSusuError::ZeroRounds => "Number of rounds must be greater than zero"@,
        SoroSusuError::ContributionTransactionFailed => "Contribution transaction failed"@,
        SoroSusuError::InvalidContributionWindow => "Invalid contribution window"@,
        SoroSusuError::MaxContributionExceeded => "Maximum contribution exceeded"@,
        SoroSusuError::ContributionAlreadyMade => "Contribution already made for this round"@,
        SoroSusuError::InvalidToken => "Invalid token address"@,
        SoroSusuError::TrustlineMissing => "Required trustline missing"@,
        SoroSusuError::MemberIndexOutOfBounds => "Member index out of bounds"@,
        SoroSusuError::MaxGroupSizeExceeded => "Maximum group size exceeded"@,
        SoroSusuError::InvalidMemberStatus => "Invalid member status"@,
        SoroSusuError::MemberAlreadyExists => "Member already exists"@,
        SoroSusuError::InvalidShares => "Shares must be 1 or 2"@,
        SoroSusuError::MemberSuspended => "Member is suspended"@,
        SoroSusuError::MemberDefaulted => "Member has defaulted"@,
        SoroSusuError::InvalidMemberIndex => "Invalid member index"@,
        SoroSusuError::MemberNotEligible => "Member not eligible for this operation"@,
        SoroSusuError::InvalidAmount => "Invalid amount specified"@,
        SoroSusuError::InsufficientFunds => "Insufficient funds available"@,
        SoroSusuError::AmountBelowMinimum => "Amount below minimum threshold"@,
        SoroSusuError::AmountAboveMaximum => "Amount above maximum threshold"@,
        SoroSusuError::InvalidFee => "Invalid fee specified"@,
        SoroSusuError::FeeExceedsLimit => "Fee exceeds allowed limit"@,
        SoroSusuError::InvalidInsuranceFee => "Invalid insurance fee"@,
        SoroSusuError::InsuranceFeeExceedsLimit => "Insurance fee exceeds 100%"@,
        SoroSusuError::InvalidInterestRate => "Invalid interest rate"@,
        SoroSusuError::InterestRateExceedsLimit => "Interest rate exceeds limit"@,
        SoroSusuError::LendingMarketNotInitialized => "Lending market not initialized"@,
        SoroSusuError::LendingMarketDisabled => "Lending market is disabled"@,
        SoroSusuError::PoolNotFound => "Lending pool not found"@,
        SoroSusuError::PoolNotActive => "Lending pool is not active"@,
        SoroSusuError::InsufficientPoolLiquidity => "Insufficient pool liquidity"@,
        SoroSusuError::PositionNotFound => "Lending position not found"@,
        SoroSusuError::LoanNotActive => "Loan is not active"@,
        SoroSusuError::PaymentExceedsBalance => "Payment exceeds remaining balance"@,
        SoroSusuError::ScheduleNotFound => "Repayment schedule not found"@,
        SoroSusuError::InvalidLTVRatio => "Invalid loan-to-value ratio"@,
        SoroSusuError::MaxLTVExceeded => "Amount exceeds maximum LTV ratio"@,
        SoroSusuError::EmergencyLoanNotFound => "Emergency loan not found"@,
        SoroSusuError::VotingPeriodEnded => "Voting period has ended"@,
        SoroSusuError::InsufficientVotes => "Insufficient votes for approval"@,
        SoroSusuError::VotingSessionNotFound => "Voting session not found"@,
        SoroSusuError::VotingNotActive => "Voting is not currently active"@,
        SoroSusuError::AlreadyVoted => "Already voted on this proposal"@,
        SoroSusuError::InvalidVote => "Invalid vote option"@,
        SoroSusuError::QuorumNotMet => "Quorum not met"@,
        SoroSusuError::ProposalNotFound => "Proposal not found"@,
        SoroSusuError::ProposalExpired => "Proposal has expired"@,
        SoroSusuError::InvalidProposal => "Invalid proposal data"@,
        SoroSusuError::UnauthorizedGovernanceAction => "Unauthorized governance action"@,
        SoroSusuError::NoActiveMembers => "No active members for recovery"@,
        SoroSusuError::RecoveryProposalNotFound => "No recovery proposal found"@,
        SoroSusuError::OldMemberNotFound => "Old member not found for recovery"@,
        SoroSusuError::NewMemberAlreadyExists => "New member address already exists"@,
        SoroSusuError::InvalidRecoveryAddress => "Invalid recovery address"@,
        SoroSusuError::RecoveryConsensusNotMet => "Recovery consensus not met"@,
        SoroSusuError::RecoveryWindowExpired => "Recovery window has expired"@,
        SoroSusuError::YieldBalanceNotFound => "Yield balance not found"@,
        SoroSusuError::HarvestNotAvailable => "Harvest not available at this time"@,
        SoroSusuError::InvalidYieldAllocation => "Invalid yield allocation"@,
        SoroSusuError::YieldCalculationError => "Yield calculation error"@,
        SoroSusuError::BatchHarvestInProgress => "Batch harvest already in progress"@,
        SoroSusuError::InsufficientYield => "Insufficient yield to distribute"@,
        SoroSusuError::YieldDistributionFailed => "Yield distribution failed"@,
        SoroSusuError::DisputeNotFound => "Dispute not found"@,
        SoroSusuError::DisputeNotActive => "Dispute is not active"@,
        SoroSusuError::InvalidDisputeStatus => "Invalid dispute status"@,
        SoroSusuError::JurorNotSelected => "Juror not selected"@,
        SoroSusuError::InvalidEvidence => "Invalid evidence provided"@,
        SoroSusuError::DisputeExpired => "Dispute has expired"@,
        SoroSusuError::InsufficientDisputeBond => "Insufficient dispute bond"@,
        SoroSusuError::ReentrancyDetected => "Reentrancy attack detected"@,
        SoroSusuError::InvalidSignature => "Invalid signature provided"@,
        SoroSusuError::AuthenticationFailed => "Authentication failed"@,
        SoroSusuError::PasskeyInvalid => "Invalid passkey authentication"@,
        SoroSusuError::MerkleProofInvalid => "Invalid Merkle proof"@,
        SoroSusuError::ContributionSecurityViolation => "Contribution security violation"@,
        SoroSusuError::OracleUnavailable => "Price oracle unavailable"@,
        SoroSusuError::PriceStale => "Price data is stale"@,
        SoroSusuError::InvalidPrice => "Invalid price data"@,
        SoroSusuError::PriceFeedError => "Price feed error"@,
        SoroSusuError::CircuitBreakerTriggered => "Circuit breaker triggered"@,
        SoroSusuError::TaxConfigurationNotFound => "Tax configuration not found"@,
        SoroSusuError::InvalidTaxRate => "Invalid tax rate"@,
        SoroSusuError::TaxExemptionInvalid => "Invalid tax exemption"@,
        SoroSusuError::TaxWithholdingFailed => "Tax withholding failed"@,
        SoroSusuError::ComplianceCheckFailed => "Compliance check failed"@,
        SoroSusuError::AuditEntryNotFound => "Audit entry not found"@,
        SoroSusuError::LoggingFailed => "Logging operation failed"@,
        SoroSusuError::InvalidAuditTrail => "Invalid audit trail"@,
        SoroSusuError::AnchorNotRegistered => "Anchor not registered"@,
        SoroSusuError::AnchorDepositNotFound => "Anchor deposit not found"@,
        SoroSusuError::InvalidAnchorConfiguration => "Invalid anchor configuration"@,
        SoroSusuError::AnchorTransferFailed => "Anchor transfer failed"@,
        SoroSusuError::InternalError => "Internal contract error"@,
        SoroSusuError::StorageError => "Storage operation error"@,
        SoroSusuError::SerializationError => "Data serialization error"@,
        SoroSusuError::DeserializationError => "Data deserialization error"@,
        SoroSusuError::InvalidStorageKey => "Invalid storage key"@,
        SoroSusuError::ContractInvariantViolation => "Contract invariant violation"@,
    }
}

/// The front-end grouping of each error.
pub open spec fn spec_category(e: SoroSusuError) -> Seq<char> {
    match e {
        SoroSusuError::Unauthorized | SoroSusuError::AdminNotSet | SoroSusuError::InvalidAddress
        | SoroSusuError::AuthenticationFailed | SoroSusuError::PasskeyInvalid => "authentication"@,
        SoroSusuError::CircleNotFound | SoroSusuError::MemberNotFound | SoroSusuError::PoolNotFound
        | SoroSusuError::PositionNotFound | SoroSusuError::DisputeNotFound
        | SoroSusuError::ProposalNotFound | SoroSusuError::VotingSessionNotFound => "not_found"@,
        SoroSusuError::InsufficientBalance | SoroSusuError::InsufficientFunds
        | SoroSusuError::InsufficientPoolLiquidity => "insufficient_funds"@,
        SoroSusuError::ContractPaused | SoroSusuError::EmergencyMode
        | SoroSusuError::LendingMarketDisabled => "paused"@,
        SoroSusuError::Overflow | SoroSusuError::Underflow | SoroSusuError::DivisionByZero
        | SoroSusuError::ContributionOverflow => "arithmetic"@,
        _ => "general"@,
    }
}

impl SoroSusuError {
    /// The error's numeric code.
    pub fn code(&self) -> (r: u32)
        ensures
            r == spec_code(*self),
    {
        match self {
            Self::Unauthorized => 1000,
            Self::AdminNotSet => 1001,
            Self::CircleNotFound => 1002,
            Self::MemberNotFound => 1003,
            Self::MemberNotActive => 1004,
            Self::AlreadyMember => 1005,
            Self::CircleFull => 1006,
            Self::NoMembersInCircle => 1007,
            Self::InvalidInput => 1008,
            Self::Overflow => 1009,
            Self::Underflow => 1010,
            Self::DivisionByZero => 1011,
            Self::InvalidAddress => 1012,
            Self::ContractPaused => 1013,
            Self::EmergencyMode => 1014,
            Self::CycleNotMatured => 2000,
            Self::RoundAlreadyFinalized => 2001,
            Self::InvalidRound => 2002,
            Self::CircleCompleted => 2003,
            Self::CircleNotStarted => 2004,
            Self::InvalidCycleDuration => 2005,
            Self::MaxCycleDurationExceeded => 2006,
            Self::LeadershipCrisis => 2007,
            Self::NoRecipientSet => 2008,
            Self::InvalidRecipient => 2009,
            Self::InvalidContributionAmount => 3000,
            Self::InsufficientBalance => 3001,
            Self::ContributionOverflow => 3002,
            Self::ZeroRounds => 3003,
            Self::ContributionTransactionFailed => 3004,
            Self::InvalidContributionWindow => 3005,
            Self::MaxContributionExceeded => 3006,
            Self::ContributionAlreadyMade => 3007,
            Self::InvalidToken => 3008,
            Self::TrustlineMissing => 3009,
            Self::MemberIndexOutOfBounds => 4000,
            Self::MaxGroupSizeExceeded => 4001,
            Self::InvalidMemberStatus => 4002,
            Self::MemberAlreadyExists => 4003,
            Self::InvalidShares => 4004,
            Self::MemberSuspended => 4005,
            Self::MemberDefaulted => 4006,
            Self::InvalidMemberIndex => 4007,
            Self::MemberNotEligible => 4008,
            Self::InvalidAmount => 5000,
            Self::InsufficientFunds => 5001,
            Self::AmountBelowMinimum => 5002,
            Self::AmountAboveMaximum => 5003,
            Self::InvalidFee => 5004,
            Self::FeeExceedsLimit => 5005,
            Self::InvalidInsuranceFee => 5006,
            Self::InsuranceFeeExceedsLimit => 5007,
            Self::InvalidInterestRate => 5008,
            Self::InterestRateExceedsLimit => 5009,
            Self::LendingMarketNotInitialized => 6000,
            Self::LendingMarketDisabled => 6001,
            Self::PoolNotFound => 6002,
            Self::PoolNotActive => 6003,
            Self::InsufficientPoolLiquidity => 6004,
            Self::PositionNotFound => 6005,
            Self::LoanNotActive => 6006,
            Self::PaymentExceedsBalance => 6007,
            Self::ScheduleNotFound => 6008,
            Self::InvalidLTVRatio => 6009,
            Self::MaxLTVExceeded => 6010,
            Self::EmergencyLoanNotFound => 6011,
            Self::VotingPeriodEnded => 6012,
            Self::InsufficientVotes => 6013,
            Self::VotingSessionNotFound => 7000,
            Self::VotingNotActive => 7001,
            Self::AlreadyVoted => 7002,
            Self::InvalidVote => 7003,
            Self::QuorumNotMet => 7004,
            Self::ProposalNotFound => 7005,
            Self::ProposalExpired => 7006,
            Self::InvalidProposal => 7007,
            Self::UnauthorizedGovernanceAction => 7008,
            Self::NoActiveMembers => 8000,
            Self::RecoveryProposalNotFound => 8001,
            Self::OldMemberNotFound => 8002,
            Self::NewMemberAlreadyExists => 8003,
            Self::InvalidRecoveryAddress => 8004,
            Self::RecoveryConsensusNotMet => 8005,
            Self::RecoveryWindowExpired => 8006,
            Self::YieldBalanceNotFound => 9000,
            Self::HarvestNotAvailable => 9001,
            Self::InvalidYieldAllocation => 9002,
            Self::YieldCalculationError => 9003,
            Self::BatchHarvestInProgress => 9004,
            Self::InsufficientYield => 9005,
            Self::YieldDistributionFailed => 9006,
            Self::DisputeNotFound => 10000,
            Self::DisputeNotActive => 10001,
            Self::InvalidDisputeStatus => 10002,
            Self::JurorNotSelected => 10003,
            Self::InvalidEvidence => 10004,
            Self::DisputeExpired => 10005,
            Self::InsufficientDisputeBond => 10006,
            Self::ReentrancyDetected => 11000,
            Self::InvalidSignature => 11001,
            Self::AuthenticationFailed => 11002,
            Self::PasskeyInvalid => 11003,
            Self::MerkleProofInvalid => 11004,
            Self::ContributionSecurityViolation => 11005,
            Self::OracleUnavailable => 12000,
            Self::PriceStale => 12001,
            Self::InvalidPrice => 12002,
            Self::PriceFeedError => 12003,
            Self::CircuitBreakerTriggered => 12004,
            Self::TaxConfigurationNotFound => 13000,
            Self::InvalidTaxRate => 13001,
            Self::TaxExemptionInvalid => 13002,
            Self::TaxWithholdingFailed => 13003,
            Self::ComplianceCheckFailed => 13004,
            Self::AuditEntryNotFound => 14000,
            Self::LoggingFailed => 14001,
            Self::InvalidAuditTrail => 14002,
            Self::AnchorNotRegistered => 15000,
            Self::AnchorDepositNotFound => 15001,
            Self::InvalidAnchorConfiguration => 15002,
            Self::AnchorTransferFailed => 15003,
            Self::InternalError => 17000,
            Self::StorageError => 17001,
            Self::SerializationError => 17002,
            Self::DeserializationError => 17003,
            Self::InvalidStorageKey => 17004,
            Self::ContractInvariantViolation => 17005,
        }
    }

    /// The error's human-readable message.
    pub fn message(&self) -> (r: &'static str)
        ensures
            r@ == spec_message(*self),
    {
        match self {
            Self::Unauthorized => {
                proof { reveal_strlit("Unauthorized access"); }
                "Unauthorized access"
            },
            Self::AdminNotSet => {
                proof { reveal_strlit("Admin address not set"); }
                "Admin address not set"
            },
            Self::CircleNotFound => {
                proof { reveal_strlit("Circle not found"); }
                "Circle not found"
            },
            Self::MemberNotFound => {
                proof { reveal_strlit("Member not found"); }
                "Member not found"
            },
            Self::MemberNotActive => {
                proof { reveal_strlit("Member is not active"); }
                "Member is not active"
            },
            Self::AlreadyMember => {
                proof { reveal_strlit("Already a member of this circle"); }
                "Already a member of this circle"
            },
            Self::CircleFull => {
                proof { reveal_strlit("Circle is full"); }
                "Circle is full"
            },
            Self::NoMembersInCircle => {
                proof { reveal_strlit("No members in circle"); }
                "No members in circle"
            },
            Self::InvalidInput => {
                proof { reveal_strlit("Invalid input provided"); }
                "Invalid input provided"
            },
            Self::Overflow => {
                proof { reveal_strlit("Arithmetic overflow"); }
                "Arithmetic overflow"
            },
            Self::Underflow => {
                proof { reveal_strlit("Arithmetic underflow"); }
                "Arithmetic underflow"
            },
            Self::DivisionByZero => {
                proof { reveal_strlit("Division by zero"); }
                "Division by zero"
            },
            Self::InvalidAddress => {
                proof { reveal_strlit("Invalid address format"); }
                "Invalid address format"
            },
            Self::ContractPaused => {
                proof { reveal_strlit("Contract is paused"); }
                "Contract is paused"
            },
            Self::EmergencyMode => {
                proof { reveal_strlit("Contract in emergency mode"); }
                "Contract in emergency mode"
            },
            Self::CycleNotMatured => {
                proof { reveal_strlit("Cycle has not matured yet"); }
                "Cycle has not matured yet"
            },
            Self::RoundAlreadyFinalized => {
                proof { reveal_strlit("Round already finalized"); }
                "Round already finalized"
            },
            Self::InvalidRound => {
                proof { reveal_strlit("Invalid round number"); }
                "Invalid round number"
            },
            Self::CircleCompleted => {
                proof { reveal_strlit("Circle has been completed"); }
                "Circle has been completed"
            },
            Self::CircleNotStarted => {
                proof { reveal_strlit("Circle has not started"); }
                "Circle has not started"
            },
            Self::InvalidCycleDuration => {
                proof { reveal_strlit("Invalid cycle duration"); }
                "Invalid cycle duration"
            },
            Self::MaxCycleDurationExceeded => {
                proof { reveal_strlit("Cycle duration exceeds maximum limit"); }
                "Cycle duration exceeds maximum limit"
            },
            Self::LeadershipCrisis => {
                proof { reveal_strlit("Leadership crisis detected"); }
                "Leadership crisis detected"
            },
            Self::NoRecipientSet => {
                proof { reveal_strlit("No recipient set for current round"); }
                "No recipient set for current round"
            },
            Self::InvalidRecipient => {
                proof { reveal_strlit("Invalid recipient address"); }
                "Invalid recipient address"
            },
            Self::InvalidContributionAmount => {
                proof { reveal_strlit("Invalid contribution amount"); }
                "Invalid contribution amount"
            },
            Self::InsufficientBalance => {
                proof { reveal_strlit("Insufficient token balance"); }
                "Insufficient token balance"
            },
            Self::ContributionOverflow => {
                proof { reveal_strlit("Contribution amount overflow"); }
                "Contribution amount overflow"
            },
            Self::ZeroRounds => {
                proof { reveal_strlit("Number of rounds must be greater than zero"); }
                "Number of rounds must be greater than zero"
            },
            Self::ContributionTransactionFailed => {
                proof { reveal_strlit("Contribution transaction failed"); }
                "Contribution transaction failed"
            },
            Self::InvalidContributionWindow => {
                proof { reveal_strlit("Invalid contribution window"); }
                "Invalid contribution window"
            },
            Self::MaxContributionExceeded => {
                proof { reveal_strlit("Maximum contribution exceeded"); }
                "Maximum contribution exceeded"
            },
            Self::ContributionAlreadyMade => {
                proof { reveal_strlit("Contribution already made for this round"); }
                "Contribution already made for this round"
            },
            Self::InvalidToken => {
                proof { reveal_strlit("Invalid token address"); }
                "Invalid token address"
            },
            Self::TrustlineMissing => {
                proof { reveal_strlit("Required trustline missing"); }
                "Required trustline missing"
            },
            Self::MemberIndexOutOfBounds => {
                proof { reveal_strlit("Member index out of bounds"); }
                "Member index out of bounds"
            },
            Self::MaxGroupSizeExceeded => {
                proof { reveal_strlit("Maximum group size exceeded"); }
                "Maximum group size exceeded"
            },
            Self::InvalidMemberStatus => {
                proof { reveal_strlit("Invalid member status"); }
                "Invalid member status"
            },
            Self::MemberAlreadyExists => {
                proof { reveal_strlit("Member already exists"); }
                "Member already exists"
            },
            Self::InvalidShares => {
                proof { reveal_strlit("Shares must be 1 or 2"); }
                "Shares must be 1 or 2"
            },
            Self::MemberSuspended => {
                proof { reveal_strlit("Member is suspended"); }
                "Member is suspended"
            },
            Self::MemberDefaulted => {
                proof { reveal_strlit("Member has defaulted"); }
                "Member has defaulted"
            },
            Self::InvalidMemberIndex => {
                proof { reveal_strlit("Invalid member index"); }
                "Invalid member index"
            },
            Self::MemberNotEligible => {
                proof { reveal_strlit("Member not eligible for this operation"); }
                "Member not eligible for this operation"
            },
            Self::InvalidAmount => {
                proof { reveal_strlit("Invalid amount specified"); }
                "Invalid amount specified"
            },
            Self::InsufficientFunds => {
                proof { reveal_strlit("Insufficient funds available"); }
                "Insufficient funds available"
            },
            Self::AmountBelowMinimum => {
                proof { reveal_strlit("Amount below minimum threshold"); }
                "Amount below minimum threshold"
            },
            Self::AmountAboveMaximum => {
                proof { reveal_strlit("Amount above maximum threshold"); }
                "Amount above maximum threshold"
            },
            Self::InvalidFee => {
                proof { reveal_strlit("Invalid fee specified"); }
                "Invalid fee specified"
            },
            Self::FeeExceedsLimit => {
                proof { reveal_strlit("Fee exceeds allowed limit"); }
                "Fee exceeds allowed limit"
            },
            Self::InvalidInsuranceFee => {
                proof { reveal_strlit("Invalid insurance fee"); }
                "Invalid insurance fee"
            },
            Self::InsuranceFeeExceedsLimit => {
                proof { reveal_strlit("Insurance fee exceeds 100%"); }
                "Insurance fee exceeds 100%"
            },
            Self::InvalidInterestRate => {
                proof { reveal_strlit("Invalid interest rate"); }
                "Invalid interest rate"
            },
            Self::InterestRateExceedsLimit => {
                proof { reveal_strlit("Interest rate exceeds limit"); }
                "Interest rate exceeds limit"
            },
            Self::LendingMarketNotInitialized => {
                proof { reveal_strlit("Lending market not initialized"); }
                "Lending market not initialized"
            },
            Self::LendingMarketDisabled => {
                proof { reveal_strlit("Lending market is disabled"); }
                "Lending market is disabled"
            },
            Self::PoolNotFound => {
                proof { reveal_strlit("Lending pool not found"); }
                "Lending pool not found"
            },
            Self::PoolNotActive => {
                proof { reveal_strlit("Lending pool is not active"); }
                "Lending pool is not active"
            },
            Self::InsufficientPoolLiquidity => {
                proof { reveal_strlit("Insufficient pool liquidity"); }
                "Insufficient pool liquidity"
            },
            Self::PositionNotFound => {
                proof { reveal_strlit("Lending position not found"); }
                "Lending position not found"
            },
            Self::LoanNotActive => {
                proof { reveal_strlit("Loan is not active"); }
                "Loan is not active"
            },
            Self::PaymentExceedsBalance => {
                proof { reveal_strlit("Payment exceeds remaining balance"); }
                "Payment exceeds remaining balance"
            },
            Self::ScheduleNotFound => {
                proof { reveal_strlit("Repayment schedule not found"); }
                "Repayment schedule not found"
            },
            Self::InvalidLTVRatio => {
                proof { reveal_strlit("Invalid loan-to-value ratio"); }
                "Invalid loan-to-value ratio"
            },
            Self::MaxLTVExceeded => {
                proof { reveal_strlit("Amount exceeds maximum LTV ratio"); }
                "Amount exceeds maximum LTV ratio"
            },
            Self::EmergencyLoanNotFound => {
                proof { reveal_strlit("Emergency loan not found"); }
                "Emergency loan not found"
            },
            Self::VotingPeriodEnded => {
                proof { reveal_strlit("Voting period has ended"); }
                "Voting period has ended"
            },
            Self::InsufficientVotes => {
                proof { reveal_strlit("Insufficient votes for approval"); }
                "Insufficient votes for approval"
            },
            Self::VotingSessionNotFound => {
                proof { reveal_strlit("Voting session not found"); }
                "Voting session not found"
            },
            Self::VotingNotActive => {
                proof { reveal_strlit("Voting is not currently active"); }
                "Voting is not currently active"
            },
            Self::AlreadyVoted => {
                proof { reveal_strlit("Already voted on this proposal"); }
                "Already voted on this proposal"
            },
            Self::InvalidVote => {
                proof { reveal_strlit("Invalid vote option"); }
                "Invalid vote option"
            },
            Self::QuorumNotMet => {
                proof { reveal_strlit("Quorum not met"); }
                "Quorum not met"
            },
            Self::ProposalNotFound => {
                proof { reveal_strlit("Proposal not found"); }
                "Proposal not found"
            },
            Self::ProposalExpired => {
                proof { reveal_strlit("Proposal has expired"); }
                "Proposal has expired"
            },
            Self::InvalidProposal => {
                proof { reveal_strlit("Invalid proposal data"); }
                "Invalid proposal data"
            },
            Self::UnauthorizedGovernanceAction => {
                proof { reveal_strlit("Unauthorized governance action"); }
                "Unauthorized governance action"
            },
            Self::NoActiveMembers => {
                proof { reveal_strlit("No active members for recovery"); }
                "No active members for recovery"
            },
            Self::RecoveryProposalNotFound => {
                proof { reveal_strlit("No recovery proposal found"); }
                "No recovery proposal found"
            },
            Self::OldMemberNotFound => {
                proof { reveal_strlit("Old member not found for recovery"); }
                "Old member not found for recovery"
            },
            Self::NewMemberAlreadyExists => {
                proof { reveal_strlit("New member address already exists"); }
                "New member address already exists"
            },
            Self::InvalidRecoveryAddress => {
                proof { reveal_strlit("Invalid recovery address"); }
                "Invalid recovery address"
            },
            Self::RecoveryConsensusNotMet => {
                proof { reveal_strlit("Recovery consensus not met"); }
                "Recovery consensus not met"
            },
            Self::RecoveryWindowExpired => {
                proof { reveal_strlit("Recovery window has expired"); }
                "Recovery window has expired"
            },
            Self::YieldBalanceNotFound => {
                proof { reveal_strlit("Yield balance not found"); }
                "Yield balance not found"
            },
            Self::HarvestNotAvailable => {
                proof { reveal_strlit("Harvest not available at this time"); }
                "Harvest not available at this time"
            },
            Self::InvalidYieldAllocation => {
                proof { reveal_strlit("Invalid yield allocation"); }
                "Invalid yield allocation"
            },
            Self::YieldCalculationError => {
                proof { reveal_strlit("Yield calculation error"); }
                "Yield calculation error"
            },
            Self::BatchHarvestInProgress => {
                proof { reveal_strlit("Batch harvest already in progress"); }
                "Batch harvest already in progress"
            },
            Self::InsufficientYield => {
                proof { reveal_strlit("Insufficient yield to distribute"); }
                "Insufficient yield to distribute"
            },
            Self::YieldDistributionFailed => {
                proof { reveal_strlit("Yield distribution failed"); }
                "Yield distribution failed"
            },
            Self::DisputeNotFound => {
                proof { reveal_strlit("Dispute not found"); }
                "Dispute not found"
            },
            Self::DisputeNotActive => {
                proof { reveal_strlit("Dispute is not active"); }
                "Dispute is not active"
            },
            Self::InvalidDisputeStatus => {
                proof { reveal_strlit("Invalid dispute status"); }
                "Invalid dispute status"
            },
            Self::JurorNotSelected => {
                proof { reveal_strlit("Juror not selected"); }
                "Juror not selected"
            },
            Self::InvalidEvidence => {
                proof { reveal_strlit("Invalid evidence provided"); }
                "Invalid evidence provided"
            },
            Self::DisputeExpired => {
                proof { reveal_strlit("Dispute has expired"); }
                "Dispute has expired"
            },
            Self::InsufficientDisputeBond => {
                proof { reveal_strlit("Insufficient dispute bond"); }
                "Insufficient dispute bond"
            },
            Self::ReentrancyDetected => {
                proof { reveal_strlit("Reentrancy attack detected"); }
                "Reentrancy attack detected"
            },
            Self::InvalidSignature => {
                proof { reveal_strlit("Invalid signature provided"); }
                "Invalid signature provided"
            },
            Self::AuthenticationFailed => {
                proof { reveal_strlit("Authentication failed"); }
                "Authentication failed"
            },
            Self::PasskeyInvalid => {
                proof { reveal_strlit("Invalid passkey authentication"); }
                "Invalid passkey authentication"
            },
            Self::MerkleProofInvalid => {
                proof { reveal_strlit("Invalid Merkle proof"); }
                "Invalid Merkle proof"
            },
            Self::ContributionSecurityViolation => {
                proof { reveal_strlit("Contribution security violation"); }
                "Contribution security violation"
            },
            Self::OracleUnavailable => {
                proof { reveal_strlit("Price oracle unavailable"); }
                "Price oracle unavailable"
            },
            Self::PriceStale => {
                proof { reveal_strlit("Price data is stale"); }
                "Price data is stale"
            },
            Self::InvalidPrice => {
                proof { reveal_strlit("Invalid price data"); }
                "Invalid price data"
            },
            Self::PriceFeedError => {
                proof { reveal_strlit("Price feed error"); }
                "Price feed error"
            },
            Self::CircuitBreakerTriggered => {
                proof { reveal_strlit("Circuit breaker triggered"); }
                "Circuit breaker triggered"
            },
            Self::TaxConfigurationNotFound => {
                proof { reveal_strlit("Tax configuration not found"); }
                "Tax configuration not found"
            },
            Self::InvalidTaxRate => {
                proof { reveal_strlit("Invalid tax rate"); }
                "Invalid tax rate"
            },
            Self::TaxExemptionInvalid => {
                proof { reveal_strlit("Invalid tax exemption"); }
                "Invalid tax exemption"
            },
            Self::TaxWithholdingFailed => {
                proof { reveal_strlit("Tax withholding failed"); }
                "Tax withholding failed"
            },
            Self::ComplianceCheckFailed => {
                proof { reveal_strlit("Compliance check failed"); }
                "Compliance check failed"
            },
            Self::AuditEntryNotFound => {
                proof { reveal_strlit("Audit entry not found"); }
                "Audit entry not found"
            },
            Self::LoggingFailed => {
                proof { reveal_strlit("Logging operation failed"); }
                "Logging operation failed"
            },
            Self::InvalidAuditTrail => {
                proof { reveal_strlit("Invalid audit trail"); }
                "Invalid audit trail"
            },
            Self::AnchorNotRegistered => {
                proof { reveal_strlit("Anchor not registered"); }
                "Anchor not registered"
            },
            Self::AnchorDepositNotFound => {
                proof { reveal_strlit("Anchor deposit not found"); }
                "Anchor deposit not found"
            },
            Self::InvalidAnchorConfiguration => {
                proof { reveal_strlit("Invalid anchor configuration"); }
                "Invalid anchor configuration"
            },
            Self::AnchorTransferFailed => {
                proof { reveal_strlit("Anchor transfer failed"); }
                "Anchor transfer failed"
            },
            Self::InternalError => {
                proof { reveal_strlit("Internal contract error"); }
                "Internal contract error"
            },
            Self::StorageError => {
                proof { reveal_strlit("Storage operation error"); }
                "Storage operation error"
            },
            Self::SerializationError => {
                proof { reveal_strlit("Data serialization error"); }
                "Data serialization error"
            },
            Self::DeserializationError => {
                proof { reveal_strlit("Data deserialization error"); }
                "Data deserialization error"
            },
            Self::InvalidStorageKey => {
                proof { reveal_strlit("Invalid storage key"); }
                "Invalid storage key"
            },
            Self::ContractInvariantViolation => {
                proof { reveal_strlit("Contract invariant violation"); }
                "Contract invariant violation"
            },
        }
    }

    /// The error's front-end category.
    pub fn category(&self) -> (r: &'static str)
        ensures
            r@ == spec_category(*self),
    {
        match self {
            Self::Unauthorized | Self::AdminNotSet | Self::InvalidAddress
            | Self::AuthenticationFailed | Self::PasskeyInvalid => "authentication",
            Self::CircleNotFound | Self::MemberNotFound | Self::PoolNotFound
            | Self::PositionNotFound | Self::DisputeNotFound | Self::ProposalNotFound
            | Self::VotingSessionNotFound => "not_found",
            Self::InsufficientBalance | Self::InsufficientFunds
            | Self::InsufficientPoolLiquidity => "insufficient_funds",
            Self::ContractPaused | Self::EmergencyMode | Self::LendingMarketDisabled => "paused",
            Self::Overflow | Self::Underflow | Self::DivisionByZero
            | Self::ContributionOverflow => "arithmetic",
            _ => "general",
        }
    }
}

/// Result type of SoroSusu operations.
pub type SoroSusuResult<T> = Result<T, SoroSusuError>;

/// Converts host-level errors into the SoroSusu catalogue.
pub trait IntoSoroSusuError<T>: Sized {
    fn into_sorosusu_error(self) -> SoroSusuResult<T>;
}

impl<T> IntoSoroSusuError<T> for Result<T, soroban_sdk::Error> {
    /// Keeps a success value; any host error becomes `InternalError`.
    fn into_sorosusu_error(self) -> (r: SoroSusuResult<T>)
        ensures
            match self {
                Ok(v) => r == Ok::<T, SoroSusuError>(v),
                Err(_) => r == Err::<T, SoroSusuError>(SoroSusuError::InternalError),
            },
    {
        match self {
            Ok(v) => Ok(v),
            Err(_) => Err(SoroSusuError::InternalError),
        }
    }
}

/// The group each error is documented under, by thousands of its code:
/// 1 general, 2 circle lifecycle, 3 contribution, 4 member management,
/// 5 financial, 6 lending market, 7 governance, 8 recovery, 9 yield and
/// reward, 10 dispute resolution, 11 security, 12 oracle and price, 13 tax
/// and compliance, 14 audit and logging, 15 anchor integration, 17 internal.
pub open spec fn documented_group(e: SoroSusuError) -> u32 {
    match e {
        SoroSusuError::Unauthorized | SoroSusuError::AdminNotSet | SoroSusuError::CircleNotFound | SoroSusuError::MemberNotFound | SoroSusuError::MemberNotActive | SoroSusuError::AlreadyMember | SoroSusuError::CircleFull | SoroSusuError::NoMembersInCircle | SoroSusuError::InvalidInput | SoroSusuError::Overflow | SoroSusuError::Underflow | SoroSusuError::DivisionByZero | SoroSusuError::InvalidAddress | SoroSusuError::ContractPaused | SoroSusuError::EmergencyMode => 1,
        SoroSusuError::CycleNotMatured | SoroSusuError::RoundAlreadyFinalized | SoroSusuError::InvalidRound | SoroSusuError::CircleCompleted | SoroSusuError::CircleNotStarted | SoroSusuError::InvalidCycleDuration | SoroSusuError::MaxCycleDurationExceeded | SoroSusuError::LeadershipCrisis | SoroSusuError::NoRecipientSet | SoroSusuError::InvalidRecipient => 2,
        SoroSusuError::InvalidContributionAmount | SoroSusuError::InsufficientBalance | SoroSusuError::ContributionOverflow | SoroSusuError::ZeroRounds | SoroSusuError::ContributionTransactionFailed | SoroSusuError::InvalidContributionWindow | SoroSusuError::MaxContributionExceeded | SoroSusuError::ContributionAlreadyMade | SoroSusuError::InvalidToken | SoroSusuError::TrustlineMissing => 3,
        SoroSusuError::MemberIndexOutOfBounds | SoroSusuError::MaxGroupSizeExceeded | SoroSusuError::InvalidMemberStatus | SoroSusuError::MemberAlreadyExists | SoroSusuError::InvalidShares | SoroSusuError::MemberSuspended | SoroSusuError::MemberDefaulted | SoroSusuError::InvalidMemberIndex | SoroSusuError::MemberNotEligible => 4,
        SoroSusuError::InvalidAmount | SoroSusuError::InsufficientFunds | SoroSusuError::AmountBelowMinimum | SoroSusuError::AmountAboveMaximum | SoroSusuError::InvalidFee | SoroSusuError::FeeExceedsLimit | SoroSusuError::InvalidInsuranceFee | SoroSusuError::InsuranceFeeExceedsLimit | SoroSusuError::InvalidInterestRate | SoroSusuError::InterestRateExceedsLimit => 5,
        SoroSusuError::LendingMarketNotInitialized | SoroSusuError::LendingMarketDisabled | SoroSusuError::PoolNotFound | SoroSusuError::PoolNotActive | SoroSusuError::InsufficientPoolLiquidity | SoroSusuError::PositionNotFound | SoroSusuError::LoanNotActive | SoroSusuError::PaymentExceedsBalance | SoroSusuError::ScheduleNotFound | SoroSusuError::InvalidLTVRatio | SoroSusuError::MaxLTVExceeded | SoroSusuError::EmergencyLoanNotFound | SoroSusuError::VotingPeriodEnded | SoroSusuError::InsufficientVotes => 6,
        SoroSusuError::VotingSessionNotFound | SoroSusuError::VotingNotActive | SoroSusuError::AlreadyVoted | SoroSusuError::InvalidVote | SoroSusuError::QuorumNotMet | SoroSusuError::ProposalNotFound | SoroSusuError::ProposalExpired | SoroSusuError::InvalidProposal | SoroSusuError::UnauthorizedGovernanceAction => 7,
        SoroSusuError::NoActiveMembers | SoroSusuError::RecoveryProposalNotFound | SoroSusuError::OldMemberNotFound | SoroSusuError::NewMemberAlreadyExists | SoroSusuError::InvalidRecoveryAddress | SoroSusuError::RecoveryConsensusNotMet | SoroSusuError::RecoveryWindowExpired => 8,
        SoroSusuError::YieldBalanceNotFound | SoroSusuError::HarvestNotAvailable | SoroSusuError::InvalidYieldAllocation | SoroSusuError::YieldCalculationError | SoroSusuError::BatchHarvestInProgress | SoroSusuError::InsufficientYield | SoroSusuError::YieldDistributionFailed => 9,
        SoroSusuError::DisputeNotFound | SoroSusuError::DisputeNotActive | SoroSusuError::InvalidDisputeStatus | SoroSusuError::JurorNotSelected | SoroSusuError::InvalidEvidence | SoroSusuError::DisputeExpired | SoroSusuError::InsufficientDisputeBond => 10,
        SoroSusuError::ReentrancyDetected | SoroSusuError::InvalidSignature | SoroSusuError::AuthenticationFailed | SoroSusuError::PasskeyInvalid | SoroSusuError::MerkleProofInvalid | SoroSusuError::ContributionSecurityViolation => 11,
        SoroSusuError::OracleUnavailable | SoroSusuError::PriceStale | SoroSusuError::InvalidPrice | SoroSusuError::PriceFeedError | SoroSusuError::CircuitBreakerTriggered => 12,
        SoroSusuError::TaxConfigurationNotFound | SoroSusuError::InvalidTaxRate | SoroSusuError::TaxExemptionInvalid | SoroSusuError::TaxWithholdingFailed | SoroSusuError::ComplianceCheckFailed => 13,
        SoroSusuError::AuditEntryNotFound | SoroSusuError::LoggingFailed | SoroSusuError::InvalidAuditTrail => 14,
        SoroSusuError::AnchorNotRegistered | SoroSusuError::AnchorDepositNotFound | SoroSusuError::InvalidAnchorConfiguration | SoroSusuError::AnchorTransferFailed => 15,
        SoroSusuError::InternalError | SoroSusuError::StorageError | SoroSusuError::SerializationError | SoroSusuError::DeserializationError | SoroSusuError::InvalidStorageKey | SoroSusuError::ContractInvariantViolation => 17,
    }
}

/// Every error's code lies in the thousand of the group it is documented
/// under; no error is in the sixteenth thousand.
pub proof fn law_codes_follow_documented_groups(e: SoroSusuError)
    ensures
        spec_code(e) / 1000 == documented_group(e),
        1000 <= spec_code(e) <= 17005,
        documented_group(e) != 16,
{
}

/// Distinct errors have distinct codes, so a code identifies its error.
pub proof fn law_codes_are_unique(a: SoroSusuError, b: SoroSusuError)
    requires
        spec_code(a) == spec_code(b),
    ensures
        a == b,
{
}

/// The error whose message `m` is, told apart by the message's length and
/// a few of its characters.
spec fn error_for_message(m: Seq<char>) -> Option<SoroSusuError> {
    if m.len() == 14 {
        if m[0] == 'C' {
            Some(SoroSusuError::CircleFull)
        } else {
            Some(SoroSusuError::QuorumNotMet)
        }
    } else if m.len() == 16 {
        if m[0] == 'C' {
            Some(SoroSusuError::CircleNotFound)
        } else if m[0] == 'M' {
            Some(SoroSusuError::MemberNotFound)
        } else if m[0] == 'D' {
            Some(SoroSusuError::DivisionByZero)
        } else if m[0] == 'P' {
            Some(SoroSusuError::PriceFeedError)
        } else {
            Some(SoroSusuError::InvalidTaxRate)
        }
    } else if m.len() == 17 {
        Some(SoroSusuError::DisputeNotFound)
    } else if m.len() == 18 {
        if m[0] == 'C' {
            Some(SoroSusuError::ContractPaused)
        } else if m[0] == 'L' {
            Some(SoroSusuError::LoanNotActive)
        } else if m[0] == 'P' {
            Some(SoroSusuError::ProposalNotFound)
        } else if m[0] == 'J' {
            Some(SoroSusuError::JurorNotSelected)
        } else {
            Some(SoroSusuError::InvalidPrice)
        }
    } else if m.len() == 19 {
        if m[9] == 'z' {
            Some(SoroSusuError::Unauthorized)
        } else if m[9] == 'c' {
            Some(SoroSusuError::Overflow)
        } else if m[9] == ' ' {
            Some(SoroSusuError::MemberSuspended)
        } else if m[9] == 'o' {
            Some(SoroSusuError::InvalidVote)
        } else if m[9] == 'a' {
            if m[0] == 'D' {
                Some(SoroSusuError::DisputeExpired)
            } else {
                Some(SoroSusuError::PriceStale)
            }
        } else if m[9] == 'u' {
            Some(SoroSusuError::InvalidAuditTrail)
        } else {
            Some(SoroSusuError::InvalidStorageKey)
        }
    } else if m.len() == 20 {
        if m[11] == 'o' {
            Some(SoroSusuError::MemberNotActive)
        } else if m[11] == 'i' {
            Some(SoroSusuError::NoMembersInCircle)
        } else if m[11] == 'u' {
            Some(SoroSusuError::Underflow)
        } else if m[11] == 'n' {
            Some(SoroSusuError::InvalidRound)
        } else if m[11] == 'd' {
            Some(SoroSusuError::MemberDefaulted)
        } else if m[11] == 'b' {
            Some(SoroSusuError::InvalidMemberIndex)
        } else if m[11] == 's' {
            Some(SoroSusuError::ProposalExpired)
        } else {
            Some(SoroSusuError::MerkleProofInvalid)
        }
    } else if m.len() == 21 {
        if m[13] == ' ' {
            if m[0] == 'A' {
                Some(SoroSusuError::AdminNotSet)
            } else {
                Some(SoroSusuError::InvalidToken)
            }
        } else if m[13] == 'r' {
            Some(SoroSusuError::InvalidMemberStatus)
        } else if m[13] == 'y' {
            Some(SoroSusuError::MemberAlreadyExists)
        } else if m[13] == 'e' {
            if m[0] == 'S' {
                Some(SoroSusuError::InvalidShares)
            } else {
                Some(SoroSusuError::InvalidInterestRate)
            }
        } else if m[13] == 'p' {
            Some(SoroSusuError::InvalidFee)
        } else if m[13] == 'a' {
            Some(SoroSusuError::InvalidInsuranceFee)
        } else if m[13] == 's' {
            Some(SoroSusuError::InvalidProposal)
        } else if m[13] == 't' {
            Some(SoroSusuError::DisputeNotActive)
        } else if m[13] == 'n' {
            Some(SoroSusuError::AuthenticationFailed)
        } else if m[13] == 'x' {
            Some(SoroSusuError::TaxExemptionInvalid)
        } else if m[13] == 'o' {
            Some(SoroSusuError::AuditEntryNotFound)
        } else {
            Some(SoroSusuError::AnchorNotRegistered)
        }
    } else if m.len() == 22 {
        if m[10] == 'p' {
            Some(SoroSusuError::InvalidInput)
        } else if m[10] == 'd' {
            Some(SoroSusuError::InvalidAddress)
        } else if m[10] == ' ' {
            Some(SoroSusuError::CircleNotStarted)
        } else if m[10] == 'c' {
            Some(SoroSusuError::InvalidCycleDuration)
        } else if m[10] == 'o' {
            Some(SoroSusuError::PoolNotFound)
        } else if m[10] == 's' {
            Some(SoroSusuError::InvalidDisputeStatus)
        } else if m[10] == 'l' {
            Some(SoroSusuError::TaxWithholdingFailed)
        } else {
            Some(SoroSusuError::AnchorTransferFailed)
        }
    } else if m.len() == 23 {
        if m[10] == 'a' {
            Some(SoroSusuError::RoundAlreadyFinalized)
        } else if m[10] == 'i' {
            Some(SoroSusuError::VotingPeriodEnded)
        } else if m[10] == 'n' {
            Some(SoroSusuError::YieldBalanceNotFound)
        } else if m[10] == 'u' {
            Some(SoroSusuError::YieldCalculationError)
        } else if m[10] == ' ' {
            Some(SoroSusuError::ComplianceCheckFailed)
        } else if m[10] == 'o' {
            Some(SoroSusuError::InternalError)
        } else {
            Some(SoroSusuError::StorageError)
        }
    } else if m.len() == 24 {
        if m[9] == 'm' {
            Some(SoroSusuError::InvalidAmount)
        } else if m[9] == ' ' {
            Some(SoroSusuError::EmergencyLoanNotFound)
        } else if m[9] == 's' {
            Some(SoroSusuError::VotingSessionNotFound)
        } else if m[9] == 'e' {
            Some(SoroSusuError::InvalidRecoveryAddress)
        } else if m[9] == 'i' {
            Some(SoroSusuError::InvalidYieldAllocation)
        } else if m[9] == 'c' {
            Some(SoroSusuError::OracleUnavailable)
        } else if m[9] == 'p' {
            if m[0] == 'L' {
                Some(SoroSusuError::LoggingFailed)
            } else {
                Some(SoroSusuError::AnchorDepositNotFound)
            }
        } else {
            Some(SoroSusuError::SerializationError)
        }
    } else if m.len() == 25 {
        if m[14] == 'm' {
            Some(SoroSusuError::CycleNotMatured)
        } else if m[14] == 'n' {
            Some(SoroSusuError::CircleCompleted)
        } else if m[14] == 'e' {
            Some(SoroSusuError::InvalidRecipient)
        } else if m[14] == 'l' {
            Some(SoroSusuError::FeeExceedsLimit)
        } else if m[14] == 't' {
            Some(SoroSusuError::YieldDistributionFailed)
        } else if m[14] == 'c' {
            Some(SoroSusuError::InvalidEvidence)
        } else if m[14] == 'i' {
            Some(SoroSusuError::InsufficientDisputeBond)
        } else {
            Some(SoroSusuError::CircuitBreakerTriggered)
        }
    } else if m.len() == 26 {
        if m[22] == 'm' {
            Some(SoroSusuError::EmergencyMode)
        } else if m[22] == 'c' {
            if m[0] == 'L' {
                Some(SoroSusuError::LeadershipCrisis)
            } else {
                Some(SoroSusuError::ReentrancyDetected)
            }
        } else if m[22] == 'a' {
            Some(SoroSusuError::InsufficientBalance)
        } else if m[22] == 's' {
            Some(SoroSusuError::TrustlineMissing)
        } else if m[22] == 'u' {
            Some(SoroSusuError::MemberIndexOutOfBounds)
        } else if m[22] == '1' {
            Some(SoroSusuError::InsuranceFeeExceedsLimit)
        } else if m[22] == 'b' {
            Some(SoroSusuError::LendingMarketDisabled)
        } else if m[22] == 't' {
            Some(SoroSusuError::PoolNotActive)
        } else if m[22] == 'o' {
            if m[0] == 'L' {
                Some(SoroSusuError::PositionNotFound)
            } else {
                Some(SoroSusuError::RecoveryProposalNotFound)
            }
        } else if m[22] == ' ' {
            Some(SoroSusuError::RecoveryConsensusNotMet)
        } else if m[22] == 'i' {
            Some(SoroSusuError::InvalidSignature)
        } else {
            Some(SoroSusuError::DeserializationError)
        }
    } else if m.len() == 27 {
        if m[12] == 'r' {
            if m[21] == 'a' {
                Some(SoroSusuError::InvalidContributionAmount)
            } else {
                Some(SoroSusuError::InvalidContributionWindow)
            }
        } else if m[12] == 'p' {
            Some(SoroSusuError::MaxGroupSizeExceeded)
        } else if m[12] == 'e' {
            Some(SoroSusuError::InterestRateExceedsLimit)
        } else if m[12] == ' ' {
            Some(SoroSusuError::InsufficientPoolLiquidity)
        } else if m[12] == '-' {
            Some(SoroSusuError::InvalidLTVRatio)
        } else if m[12] == 'd' {
            Some(SoroSusuError::RecoveryWindowExpired)
        } else {
            Some(SoroSusuError::TaxConfigurationNotFound)
        }
    } else if m.len() == 28 {
        if m[6] == 'b' {
            Some(SoroSusuError::ContributionOverflow)
        } else if m[6] == 'i' {
            Some(SoroSusuError::InsufficientFunds)
        } else if m[6] == 'e' {
            Some(SoroSusuError::ScheduleNotFound)
        } else if m[6] == 'd' {
            Some(SoroSusuError::InvalidAnchorConfiguration)
        } else {
            Some(SoroSusuError::ContractInvariantViolation)
        }
    } else if m.len() == 29 {
        Some(SoroSusuError::MaxContributionExceeded)
    } else if m.len() == 30 {
        if m[10] == 'o' {
            Some(SoroSusuError::AmountBelowMinimum)
        } else if m[10] == 'v' {
            Some(SoroSusuError::AmountAboveMaximum)
        } else if m[10] == 'r' {
            Some(SoroSusuError::LendingMarketNotInitialized)
        } else if m[10] == 'n' {
            Some(SoroSusuError::VotingNotActive)
        } else if m[10] == 't' {
            Some(SoroSusuError::AlreadyVoted)
        } else if m[10] == 'e' {
            Some(SoroSusuError::UnauthorizedGovernanceAction)
        } else if m[10] == 'm' {
            Some(SoroSusuError::NoActiveMembers)
        } else {
            Some(SoroSusuError::PasskeyInvalid)
        }
    } else if m.len() == 31 {
        if m[13] == 'b' {
            Some(SoroSusuError::AlreadyMember)
        } else if m[13] == 't' {
            Some(SoroSusuError::ContributionTransactionFailed)
        } else if m[13] == 'v' {
            Some(SoroSusuError::InsufficientVotes)
        } else {
            Some(SoroSusuError::ContributionSecurityViolation)
        }
    } else if m.len() == 32 {
        if m[0] == 'A' {
            Some(SoroSusuError::MaxLTVExceeded)
        } else {
            Some(SoroSusuError::InsufficientYield)
        }
    } else if m.len() == 33 {
        if m[0] == 'P' {
            Some(SoroSusuError::PaymentExceedsBalance)
        } else if m[0] == 'O' {
            Some(SoroSusuError::OldMemberNotFound)
        } else if m[0] == 'N' {
            Some(SoroSusuError::NewMemberAlreadyExists)
        } else {
            Some(SoroSusuError::BatchHarvestInProgress)
        }
    } else if m.len() == 34 {
        if m[0] == 'N' {
            Some(SoroSusuError::NoRecipientSet)
        } else {
            Some(SoroSusuError::HarvestNotAvailable)
        }
    } else if m.len() == 36 {
        Some(SoroSusuError::MaxCycleDurationExceeded)
    } else if m.len() == 38 {
        Some(SoroSusuError::MemberNotEligible)
    } else if m.len() == 40 {
        Some(SoroSusuError::ContributionAlreadyMade)
    } else if m.len() == 42 {
        Some(SoroSusuError::ZeroRounds)
    } else {
        None
    }
}

proof fn lemma_message_identifies_error(e: SoroSusuError)
    ensures
        spec_message(e).len() > 0,
        error_for_message(spec_message(e)) == Some(e),
{
    match e {
        SoroSusuError::Unauthorized => {
            reveal_strlit("Unauthorized access");
        },
        SoroSusuError::AdminNotSet => {
            reveal_strlit("Admin address not set");
        },
        SoroSusuError::CircleNotFound => {
            reveal_strlit("Circle not found");
        },
        SoroSusuError::MemberNotFound => {
            reveal_strlit("Member not found");
        },
        SoroSusuError::MemberNotActive => {
            reveal_strlit("Member is not active");
        },
        SoroSusuError::AlreadyMember => {
            reveal_strlit("Already a member of this circle");
        },
        SoroSusuError::CircleFull => {
            reveal_strlit("Circle is full");
        },
        SoroSusuError::NoMembersInCircle => {
            reveal_strlit("No members in circle");
        },
        SoroSusuError::InvalidInput => {
            reveal_strlit("Invalid input provided");
        },
        SoroSusuError::Overflow => {
            reveal_strlit("Arithmetic overflow");
        },
        SoroSusuError::Underflow => {
            reveal_strlit("Arithmetic underflow");
        },
        SoroSusuError::DivisionByZero => {
            reveal_strlit("Division by zero");
        },
        SoroSusuError::InvalidAddress => {
            reveal_strlit("Invalid address format");
        },
        SoroSusuError::ContractPaused => {
            reveal_strlit("Contract is paused");
        },
        SoroSusuError::EmergencyMode => {
            reveal_strlit("Contract in emergency mode");
        },
        SoroSusuError::CycleNotMatured => {
            reveal_strlit("Cycle has not matured yet");
        },
        SoroSusuError::RoundAlreadyFinalized => {
            reveal_strlit("Round already finalized");
        },
        SoroSusuError::InvalidRound => {
            reveal_strlit("Invalid round number");
        },
        SoroSusuError::CircleCompleted => {
            reveal_strlit("Circle has been completed");
        },
        SoroSusuError::CircleNotStarted => {
            reveal_strlit("Circle has not started");
        },
        SoroSusuError::InvalidCycleDuration => {
            reveal_strlit("Invalid cycle duration");
        },
        SoroSusuError::MaxCycleDurationExceeded => {
            reveal_strlit("Cycle duration exceeds maximum limit");
        },
        SoroSusuError::LeadershipCrisis => {
            reveal_strlit("Leadership crisis detected");
        },
        SoroSusuError::NoRecipientSet => {
            reveal_strlit("No recipient set for current round");
        },
        SoroSusuError::InvalidRecipient => {
            reveal_strlit("Invalid recipient address");
        },
        SoroSusuError::InvalidContributionAmount => {
            reveal_strlit("Invalid contribution amount");
        },
        SoroSusuError::InsufficientBalance => {
            reveal_strlit("Insufficient token balance");
        },
        SoroSusuError::ContributionOverflow => {
            reveal_strlit("Contribution amount overflow");
        },
        SoroSusuError::ZeroRounds => {
            reveal_strlit("Number of rounds must be greater than zero");
        },
        SoroSusuError::ContributionTransactionFailed => {
            reveal_strlit("Contribution transaction failed");
        },
        SoroSusuError::InvalidContributionWindow => {
            reveal_strlit("Invalid contribution window");
        },
        SoroSusuError::MaxContributionExceeded => {
            reveal_strlit("Maximum contribution exceeded");
        },
        SoroSusuError::ContributionAlreadyMade => {
            reveal_strlit("Contribution already made for this round");
        },
        SoroSusuError::InvalidToken => {
            reveal_strlit("Invalid token address");
        },
        SoroSusuError::TrustlineMissing => {
            reveal_strlit("Required trustline missing");
        },
        SoroSusuError::MemberIndexOutOfBounds => {
            reveal_strlit("Member index out of bounds");
        },
        SoroSusuError::MaxGroupSizeExceeded => {
            reveal_strlit("Maximum group size exceeded");
        },
        SoroSusuError::InvalidMemberStatus => {
            reveal_strlit("Invalid member status");
        },
        SoroSusuError::MemberAlreadyExists => {
            reveal_strlit("Member already exists");
        },
        SoroSusuError::InvalidShares => {
            reveal_strlit("Shares must be 1 or 2");
        },
        SoroSusuError::MemberSuspended => {
            reveal_strlit("Member is suspended");
        },
        SoroSusuError::MemberDefaulted => {
            reveal_strlit("Member has defaulted");
        },
        SoroSusuError::InvalidMemberIndex => {
            reveal_strlit("Invalid member index");
        },
        SoroSusuError::MemberNotEligible => {
            reveal_strlit("Member not eligible for this operation");
        },
        SoroSusuError::InvalidAmount => {
            reveal_strlit("Invalid amount specified");
        },
        SoroSusuError::InsufficientFunds => {
            reveal_strlit("Insufficient funds available");
        },
        SoroSusuError::AmountBelowMinimum => {
            reveal_strlit("Amount below minimum threshold");
        },
        SoroSusuError::AmountAboveMaximum => {
            reveal_strlit("Amount above maximum threshold");
        },
        SoroSusuError::InvalidFee => {
            reveal_strlit("Invalid fee specified");
        },
        SoroSusuError::FeeExceedsLimit => {
            reveal_strlit("Fee exceeds allowed limit");
        },
        SoroSusuError::InvalidInsuranceFee => {
            reveal_strlit("Invalid insurance fee");
        },
        SoroSusuError::InsuranceFeeExceedsLimit => {
            reveal_strlit("Insurance fee exceeds 100%");
        },
        SoroSusuError::InvalidInterestRate => {
            reveal_strlit("Invalid interest rate");
        },
        SoroSusuError::InterestRateExceedsLimit => {
            reveal_strlit("Interest rate exceeds limit");
        },
        SoroSusuError::LendingMarketNotInitialized => {
            reveal_strlit("Lending market not initialized");
        },
        SoroSusuError::LendingMarketDisabled => {
            reveal_strlit("Lending market is disabled");
        },
        SoroSusuError::PoolNotFound => {
            reveal_strlit("Lending pool not found");
        },
        SoroSusuError::PoolNotActive => {
            reveal_strlit("Lending pool is not active");
        },
        SoroSusuError::InsufficientPoolLiquidity => {
            reveal_strlit("Insufficient pool liquidity");
        },
        SoroSusuError::PositionNotFound => {
            reveal_strlit("Lending position not found");
        },
        SoroSusuError::LoanNotActive => {
            reveal_strlit("Loan is not active");
        },
        SoroSusuError::PaymentExceedsBalance => {
            reveal_strlit("Payment exceeds remaining balance");
        },
        SoroSusuError::ScheduleNotFound => {
            reveal_strlit("Repayment schedule not found");
        },
        SoroSusuError::InvalidLTVRatio => {
            reveal_strlit("Invalid loan-to-value ratio");
        },
        SoroSusuError::MaxLTVExceeded => {
            reveal_strlit("Amount exceeds maximum LTV ratio");
        },
        SoroSusuError::EmergencyLoanNotFound => {
            reveal_strlit("Emergency loan not found");
        },
        SoroSusuError::VotingPeriodEnded => {
            reveal_strlit("Voting period has ended");
        },
        SoroSusuError::InsufficientVotes => {
            reveal_strlit("Insufficient votes for approval");
        },
        SoroSusuError::VotingSessionNotFound => {
            reveal_strlit("Voting session not found");
        },
        SoroSusuError::VotingNotActive => {
            reveal_strlit("Voting is not currently active");
        },
        SoroSusuError::AlreadyVoted => {
            reveal_strlit("Already voted on this proposal");
        },
        SoroSusuError::InvalidVote => {
            reveal_strlit("Invalid vote option");
        },
        SoroSusuError::QuorumNotMet => {
            reveal_strlit("Quorum not met");
        },
        SoroSusuError::ProposalNotFound => {
            reveal_strlit("Proposal not found");
        },
        SoroSusuError::ProposalExpired => {
            reveal_strlit("Proposal has expired");
        },
        SoroSusuError::InvalidProposal => {
            reveal_strlit("Invalid proposal data");
        },
        SoroSusuError::UnauthorizedGovernanceAction => {
            reveal_strlit("Unauthorized governance action");
        },
        SoroSusuError::NoActiveMembers => {
            reveal_strlit("No active members for recovery");
        },
        SoroSusuError::RecoveryProposalNotFound => {
            reveal_strlit("No recovery proposal found");
        },
        SoroSusuError::OldMemberNotFound => {
            reveal_strlit("Old member not found for recovery");
        },
        SoroSusuError::NewMemberAlreadyExists => {
            reveal_strlit("New member address already exists");
        },
        SoroSusuError::InvalidRecoveryAddress => {
            reveal_strlit("Invalid recovery address");
        },
        SoroSusuError::RecoveryConsensusNotMet => {
            reveal_strlit("Recovery consensus not met");
        },
        SoroSusuError::RecoveryWindowExpired => {
            reveal_strlit("Recovery window has expired");
        },
        SoroSusuError::YieldBalanceNotFound => {
            reveal_strlit("Yield balance not found");
        },
        SoroSusuError::HarvestNotAvailable => {
            reveal_strlit("Harvest not available at this time");
        },
        SoroSusuError::InvalidYieldAllocation => {
            reveal_strlit("Invalid yield allocation");
        },
        SoroSusuError::YieldCalculationError => {
            reveal_strlit("Yield calculation error");
        },
        SoroSusuError::BatchHarvestInProgress => {
            reveal_strlit("Batch harvest already in progress");
        },
        SoroSusuError::InsufficientYield => {
            reveal_strlit("Insufficient yield to distribute");
        },
        SoroSusuError::YieldDistributionFailed => {
            reveal_strlit("Yield distribution failed");
        },
        SoroSusuError::DisputeNotFound => {
            reveal_strlit("Dispute not found");
        },
        SoroSusuError::DisputeNotActive => {
            reveal_strlit("Dispute is not active");
        },
        SoroSusuError::InvalidDisputeStatus => {
            reveal_strlit("Invalid dispute status");
        },
        SoroSusuError::JurorNotSelected => {
            reveal_strlit("Juror not selected");
        },
        SoroSusuError::InvalidEvidence => {
            reveal_strlit("Invalid evidence provided");
        },
        SoroSusuError::DisputeExpired => {
            reveal_strlit("Dispute has expired");
        },
        SoroSusuError::InsufficientDisputeBond => {
            reveal_strlit("Insufficient dispute bond");
        },
        SoroSusuError::ReentrancyDetected => {
            reveal_strlit("Reentrancy attack detected");
        },
        SoroSusuError::InvalidSignature => {
            reveal_strlit("Invalid signature provided");
        },
        SoroSusuError::AuthenticationFailed => {
            reveal_strlit("Authentication failed");
        },
        SoroSusuError::PasskeyInvalid => {
            reveal_strlit("Invalid passkey authentication");
        },
        SoroSusuError::MerkleProofInvalid => {
            reveal_strlit("Invalid Merkle proof");
        },
        SoroSusuError::ContributionSecurityViolation => {
            reveal_strlit("Contribution security violation");
        },
        SoroSusuError::OracleUnavailable => {
            reveal_strlit("Price oracle unavailable");
        },
        SoroSusuError::PriceStale => {
            reveal_strlit("Price data is stale");
        },
        SoroSusuError::InvalidPrice => {
            reveal_strlit("Invalid price data");
        },
        SoroSusuError::PriceFeedError => {
            reveal_strlit("Price feed error");
        },
        SoroSusuError::CircuitBreakerTriggered => {
            reveal_strlit("Circuit breaker triggered");
        },
        SoroSusuError::TaxConfigurationNotFound => {
            reveal_strlit("Tax configuration not found");
        },
        SoroSusuError::InvalidTaxRate => {
            reveal_strlit("Invalid tax rate");
        },
        SoroSusuError::TaxExemptionInvalid => {
            reveal_strlit("Invalid tax exemption");
        },
        SoroSusuError::TaxWithholdingFailed => {
            reveal_strlit("Tax withholding failed");
        },
        SoroSusuError::ComplianceCheckFailed => {
            reveal_strlit("Compliance check failed");
        },
        SoroSusuError::AuditEntryNotFound => {
            reveal_strlit("Audit entry not found");
        },
        SoroSusuError::LoggingFailed => {
            reveal_strlit("Logging operation failed");
        },
        SoroSusuError::InvalidAuditTrail => {
            reveal_strlit("Invalid audit trail");
        },
        SoroSusuError::AnchorNotRegistered => {
            reveal_strlit("Anchor not registered");
        },
        SoroSusuError::AnchorDepositNotFound => {
            reveal_strlit("Anchor deposit not found");
        },
        SoroSusuError::InvalidAnchorConfiguration => {
            reveal_strlit("Invalid anchor configuration");
        },
        SoroSusuError::AnchorTransferFailed => {
            reveal_strlit("Anchor transfer failed");
        },
        SoroSusuError::InternalError => {
            reveal_strlit("Internal contract error");
        },
        SoroSusuError::StorageError => {
            reveal_strlit("Storage operation error");
        },
        SoroSusuError::SerializationError => {
            reveal_strlit("Data serialization error");
        },
        SoroSusuError::DeserializationError => {
            reveal_strlit("Data deserialization error");
        },
        SoroSusuError::InvalidStorageKey => {
            reveal_strlit("Invalid storage key");
        },
        SoroSusuError::ContractInvariantViolation => {
            reveal_strlit("Contract invariant violation");
        },
    }
}

/// Every error has a non-empty message, and no two errors share a message,
/// so a message identifies its error.
pub proof fn law_messages_are_distinct(a: SoroSusuError, b: SoroSusuError)
    ensures
        spec_message(a).len() > 0,
        a != b ==> spec_message(a) != spec_message(b),
{
    lemma_message_identifies_error(a);
    lemma_message_identifies_error(b);
}

} // verus!
