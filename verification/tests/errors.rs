use sorosusu::errors::SoroSusuError;

const ALL: [SoroSusuError; 127] = [
    SoroSusuError::Unauthorized,
    SoroSusuError::AdminNotSet,
    SoroSusuError::CircleNotFound,
    SoroSusuError::MemberNotFound,
    SoroSusuError::MemberNotActive,
    SoroSusuError::AlreadyMember,
    SoroSusuError::CircleFull,
    SoroSusuError::NoMembersInCircle,
    SoroSusuError::InvalidInput,
    SoroSusuError::Overflow,
    SoroSusuError::Underflow,
    SoroSusuError::DivisionByZero,
    SoroSusuError::InvalidAddress,
    SoroSusuError::ContractPaused,
    SoroSusuError::EmergencyMode,
    SoroSusuError::CycleNotMatured,
    SoroSusuError::RoundAlreadyFinalized,
    SoroSusuError::InvalidRound,
    SoroSusuError::CircleCompleted,
    SoroSusuError::CircleNotStarted,
    SoroSusuError::InvalidCycleDuration,
    SoroSusuError::MaxCycleDurationExceeded,
    SoroSusuError::LeadershipCrisis,
    SoroSusuError::NoRecipientSet,
    SoroSusuError::InvalidRecipient,
    SoroSusuError::InvalidContributionAmount,
    SoroSusuError::InsufficientBalance,
    SoroSusuError::ContributionOverflow,
    SoroSusuError::ZeroRounds,
    SoroSusuError::ContributionTransactionFailed,
    SoroSusuError::InvalidContributionWindow,
    SoroSusuError::MaxContributionExceeded,
    SoroSusuError::ContributionAlreadyMade,
    SoroSusuError::InvalidToken,
    SoroSusuError::TrustlineMissing,
    SoroSusuError::MemberIndexOutOfBounds,
    SoroSusuError::MaxGroupSizeExceeded,
    SoroSusuError::InvalidMemberStatus,
    SoroSusuError::MemberAlreadyExists,
    SoroSusuError::InvalidShares,
    SoroSusuError::MemberSuspended,
    SoroSusuError::MemberDefaulted,
    SoroSusuError::InvalidMemberIndex,
    SoroSusuError::MemberNotEligible,
    SoroSusuError::InvalidAmount,
    SoroSusuError::InsufficientFunds,
    SoroSusuError::AmountBelowMinimum,
    SoroSusuError::AmountAboveMaximum,
    SoroSusuError::InvalidFee,
    SoroSusuError::FeeExceedsLimit,
    SoroSusuError::InvalidInsuranceFee,
    SoroSusuError::InsuranceFeeExceedsLimit,
    SoroSusuError::InvalidInterestRate,
    SoroSusuError::InterestRateExceedsLimit,
    SoroSusuError::LendingMarketNotInitialized,
    SoroSusuError::LendingMarketDisabled,
    SoroSusuError::PoolNotFound,
    SoroSusuError::PoolNotActive,
    SoroSusuError::InsufficientPoolLiquidity,
    SoroSusuError::PositionNotFound,
    SoroSusuError::LoanNotActive,
    SoroSusuError::PaymentExceedsBalance,
    SoroSusuError::ScheduleNotFound,
    SoroSusuError::InvalidLTVRatio,
    SoroSusuError::MaxLTVExceeded,
    SoroSusuError::EmergencyLoanNotFound,
    SoroSusuError::VotingPeriodEnded,
    SoroSusuError::InsufficientVotes,
    SoroSusuError::VotingSessionNotFound,
    SoroSusuError::VotingNotActive,
    SoroSusuError::AlreadyVoted,
    SoroSusuError::InvalidVote,
    SoroSusuError::QuorumNotMet,
    SoroSusuError::ProposalNotFound,
    SoroSusuError::ProposalExpired,
    SoroSusuError::InvalidProposal,
    SoroSusuError::UnauthorizedGovernanceAction,
    SoroSusuError::NoActiveMembers,
    SoroSusuError::RecoveryProposalNotFound,
    SoroSusuError::OldMemberNotFound,
    SoroSusuError::NewMemberAlreadyExists,
    SoroSusuError::InvalidRecoveryAddress,
    SoroSusuError::RecoveryConsensusNotMet,
    SoroSusuError::RecoveryWindowExpired,
    SoroSusuError::YieldBalanceNotFound,
    SoroSusuError::HarvestNotAvailable,
    SoroSusuError::InvalidYieldAllocation,
    SoroSusuError::YieldCalculationError,
    SoroSusuError::BatchHarvestInProgress,
    SoroSusuError::InsufficientYield,
    SoroSusuError::YieldDistributionFailed,
    SoroSusuError::DisputeNotFound,
    SoroSusuError::DisputeNotActive,
    SoroSusuError::InvalidDisputeStatus,
    SoroSusuError::JurorNotSelected,
    SoroSusuError::InvalidEvidence,
    SoroSusuError::DisputeExpired,
    SoroSusuError::InsufficientDisputeBond,
    SoroSusuError::ReentrancyDetected,
    SoroSusuError::InvalidSignature,
    SoroSusuError::AuthenticationFailed,
    SoroSusuError::PasskeyInvalid,
    SoroSusuError::MerkleProofInvalid,
    SoroSusuError::ContributionSecurityViolation,
    SoroSusuError::OracleUnavailable,
    SoroSusuError::PriceStale,
    SoroSusuError::InvalidPrice,
    SoroSusuError::PriceFeedError,
    SoroSusuError::CircuitBreakerTriggered,
    SoroSusuError::TaxConfigurationNotFound,
    SoroSusuError::InvalidTaxRate,
    SoroSusuError::TaxExemptionInvalid,
    SoroSusuError::TaxWithholdingFailed,
    SoroSusuError::ComplianceCheckFailed,
    SoroSusuError::AuditEntryNotFound,
    SoroSusuError::LoggingFailed,
    SoroSusuError::InvalidAuditTrail,
    SoroSusuError::AnchorNotRegistered,
    SoroSusuError::AnchorDepositNotFound,
    SoroSusuError::InvalidAnchorConfiguration,
    SoroSusuError::AnchorTransferFailed,
    SoroSusuError::InternalError,
    SoroSusuError::StorageError,
    SoroSusuError::SerializationError,
    SoroSusuError::DeserializationError,
    SoroSusuError::InvalidStorageKey,
    SoroSusuError::ContractInvariantViolation,
];

#[test]
fn error_messages_are_nonempty_and_distinct() {
    for (i, a) in ALL.iter().enumerate() {
        assert!(!a.message().is_empty());
        for b in &ALL[i + 1..] {
            assert_ne!(a.message(), b.message());
        }
    }
}

#[test]
fn error_codes_are_distinct() {
    for (i, a) in ALL.iter().enumerate() {
        for b in &ALL[i + 1..] {
            assert_ne!(a.code(), b.code());
        }
    }
}

#[test]
fn error_catalogue_examples() {
    assert_eq!(SoroSusuError::Unauthorized.code(), 1000);
    assert_eq!(SoroSusuError::Unauthorized.message(), "Unauthorized access");
    assert_eq!(SoroSusuError::Unauthorized.category(), "authentication");
    assert_eq!(SoroSusuError::CircleFull.code(), 1006);
    assert_eq!(SoroSusuError::CircleFull.message(), "Circle is full");
    assert_eq!(SoroSusuError::CircleFull.category(), "general");
    assert_eq!(SoroSusuError::ContractInvariantViolation.code(), 17005);
    assert_eq!(SoroSusuError::ContractInvariantViolation.message(), "Contract invariant violation");
}

#[test]
fn error_codes_fall_in_their_groups() {
    for e in ALL.iter() {
        let group = e.code() / 1000;
        assert!((1..=17).contains(&group) && group != 16);
    }
    assert_eq!(SoroSusuError::ContractInvariantViolation.code() / 1000, 17);
}
