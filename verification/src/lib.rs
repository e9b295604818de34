//! A tip jar: senders tip creators in whitelisted tokens, the jar holds the
//! tips in escrow until the creator withdraws them, and it accepts tips
//! relayed from other chains and private (commitment based) tips.
//!
//! The jar's storage is modelled by [`TipJarContract`]; every operation is a
//! verified transition of that model which also returns, in order, the
//! token transfers and events that the host must carry out. Authorisation
//! of the calling account is the host's job and happens before a transition.

pub mod types;
pub mod keymap;
pub mod effects;
pub mod fees;
pub mod contract;
pub mod bridge;
pub mod privacy;
pub mod integrations;
pub mod laws;
pub mod operation_laws;

pub use crate::types::Address;
pub use crate::types::Bytes32;
pub use crate::contract::TipJarContract;
pub use crate::contract::TipJarState;

use vstd::prelude::*;

verus! {

/// A tip that carries a message and free-form metadata.
#[derive(Clone, Debug)]
pub struct TipWithMessage {
    /// Who tipped.
    pub sender: Address,
    /// Who was tipped.
    pub creator: Address,
    /// The amount tipped.
    pub amount: i128,
    /// The message.
    pub message: String,
    /// Key/value metadata, held as the ledger holds a map: sorted by key,
    /// each key once (see `wf`).
    pub metadata: Vec<(String, String)>,
    /// Ledger time of the tip.
    pub timestamp: u64,
}

/// Whether text `a` comes strictly before text `b`, comparing code points
/// from the start (a proper prefix comes first).
pub open spec fn text_before(a: Seq<char>, b: Seq<char>) -> bool
    decreases a.len(),
{
    if a.len() == 0 {
        b.len() > 0
    } else if b.len() == 0 {
        false
    } else if a[0] != b[0] {
        (a[0] as u32) < (b[0] as u32)
    } else {
        text_before(a.drop_first(), b.drop_first())
    }
}

impl TipWithMessage {
    /// The metadata keys are in strictly increasing order, so each occurs once.
    pub open spec fn wf(&self) -> bool {
        forall|i: int, j: int|
            0 <= i < j < self.metadata@.len() ==> text_before(
                #[trigger] self.metadata@[i].0@,
                #[trigger] self.metadata@[j].0@,
            )
    }
}

/// A creator's funding goal.
#[derive(Clone, Debug)]
pub struct Milestone {
    /// Identifier, per creator.
    pub id: u64,
    /// The creator.
    pub creator: Address,
    /// The amount to reach.
    pub goal_amount: i128,
    /// The amount reached so far.
    pub current_amount: i128,
    /// What the goal is for.
    pub description: String,
    /// Optional deadline (ledger time).
    pub deadline: Option<u64>,
    /// Whether the goal was reached.
    pub completed: bool,
}

/// One tip of a batch.
#[derive(Clone, Copy, Debug)]
pub struct BatchTip {
    /// Who is tipped.
    pub creator: Address,
    /// The token.
    pub token: Address,
    /// The amount.
    pub amount: i128,
}

/// A tip that the creator can only take after a given time.
#[derive(Clone, Copy, Debug)]
pub struct LockedTip {
    /// Who tipped.
    pub sender: Address,
    /// Who was tipped.
    pub creator: Address,
    /// The token.
    pub token: Address,
    /// The amount.
    pub amount: i128,
    /// Ledger time from which the tip can be taken.
    pub unlock_timestamp: u64,
}

/// Record of a tip kept for refunds.
#[derive(Clone, Copy, Debug)]
pub struct TipRecord {
    /// Global tip identifier.
    pub id: u64,
    /// Who tipped.
    pub sender: Address,
    /// Who was tipped.
    pub creator: Address,
    /// The token.
    pub token: Address,
    /// The amount.
    pub amount: i128,
    /// Ledger time of the tip.
    pub timestamp: u64,
    /// Whether the tip was refunded.
    pub refunded: bool,
    /// Whether a refund was asked for.
    pub refund_requested: bool,
}

/// Period of a leaderboard.
#[derive(Clone, Copy, Debug, PartialEq, Eq, Structural)]
pub enum TimePeriod {
    /// Since the start.
    AllTime,
    /// The current month.
    Monthly,
    /// The current week.
    Weekly,
}

/// One line of a leaderboard.
#[derive(Clone, Copy, Debug)]
pub struct LeaderboardEntry {
    /// The participant.
    pub address: Address,
    /// What the participant tipped or received.
    pub total_amount: i128,
    /// How many tips.
    pub tip_count: u32,
}

/// Which side of tips a participant is on.
#[derive(Clone, Copy, Debug, PartialEq, Eq, Structural)]
pub enum ParticipantKind {
    /// Gives tips.
    Tipper,
    /// Receives tips.
    Creator,
}

/// Query parameters for tip history retrieval.
#[derive(Clone, Copy, Debug)]
pub struct TipHistoryQuery {
    /// Only tips to this creator.
    pub creator: Option<Address>,
    /// Only tips from this sender.
    pub sender: Option<Address>,
    /// Only tips of at least this amount.
    pub min_amount: Option<i128>,
    /// Only tips of at most this amount.
    pub max_amount: Option<i128>,
    /// Only tips from this time on.
    pub start_time: Option<u64>,
    /// Only tips up to this time.
    pub end_time: Option<u64>,
    /// At most this many results.
    pub limit: u32,
    /// Results to skip.
    pub offset: u32,
}

/// Role for role-based access control.
#[derive(Clone, Copy, Debug, PartialEq, Eq, Structural)]
pub enum Role {
    /// Administers the jar.
    Admin,
    /// Moderates.
    Moderator,
    /// Receives tips.
    Creator,
}

/// A sponsor-funded tip matching program.
///
/// `match_ratio` is in basis points: 100 = 1:1, 200 = 2:1.
#[derive(Clone, Copy, Debug)]
pub struct MatchingProgram {
    /// Program identifier.
    pub id: u64,
    /// Who funds the matching.
    pub sponsor: Address,
    /// Whose tips are matched.
    pub creator: Address,
    /// The token.
    pub token: Address,
    /// Ratio in basis points.
    pub match_ratio: u32,
    /// Most that the sponsor matches.
    pub max_match_amount: i128,
    /// Matched so far.
    pub current_matched: i128,
    /// Whether the program runs.
    pub active: bool,
}

/// The keys of the jar's persistent and instance storage.
#[derive(Clone, Copy, Debug)]
pub enum DataKey {
    /// Token whitelist state (bool).
    TokenWhitelist(Address),
    /// Creator's withdrawable balance per token: (creator, token).
    CreatorBalance(Address, Address),
    /// Total tips ever received by a creator per token: (creator, token).
    CreatorTotal(Address, Address),
    /// Emergency pause state (bool).
    Paused,
    /// Contract administrator.
    Admin,
    /// Messages appended for a creator.
    CreatorMessages(Address),
    /// Number of milestones of a creator.
    MilestoneCounter(Address),
    /// A milestone of a creator.
    Milestone(Address, u64),
    /// Active milestone IDs of a creator.
    ActiveMilestones(Address),
    /// An address's role.
    UserRole(Address),
    /// The addresses holding a role.
    RoleMembers(Role),
    /// A tipper's aggregate in a time bucket.
    TipperAggregate(Address, u32),
    /// A creator's aggregate in a time bucket.
    CreatorAggregate(Address, u32),
    /// Known tippers of a bucket.
    TipperParticipants(u32),
    /// Known creators of a bucket.
    CreatorParticipants(u32),
    /// Locked tip by (creator, tip id).
    LockedTip(Address, u64),
    /// Per-creator locked tip counter.
    LockedTipCounter(Address),
    /// Global matching program counter.
    MatchingCounter,
    /// A matching program by id.
    MatchingProgram(u64),
    /// Matching program ids of a creator.
    CreatorMatchingPrograms(Address),
    /// A tip record by global id.
    TipRecord(u64),
    /// Global tip counter.
    TipCounter,
    /// Off-chain oracle approval flag by condition id.
    OffchainCondition(Bytes32),
    /// Most recently computed dynamic fee in basis points.
    CurrentFeeBps,
    /// Contract version, incremented on each upgrade.
    ContractVersion,
    /// Authorised bridge relayer.
    BridgeRelayer,
    /// Token used for bridged tips.
    BridgeToken,
    /// Replay-protection flag for a processed source-chain transaction.
    BridgeProcessed(Bytes32),
    /// Spent nullifier of a private tip.
    PrivacyNullifier(Bytes32),
    /// Stored commitment of a private tip.
    PrivacyCommitment(Bytes32),
    /// DEX used to swap into the tip token.
    DexContract,
}

/// The errors the jar reports.
#[derive(Clone, Copy, Debug, PartialEq, Eq, Structural)]
pub enum TipJarError {
    /// `init` was called twice.
    AlreadyInitialized,
    /// The token is not whitelisted.
    TokenNotWhitelisted,
    /// The amount is not positive, or the request is a duplicate.
    InvalidAmount,
    /// There is nothing to withdraw.
    NothingToWithdraw,
    /// The message is too long.
    MessageTooLong,
    /// No such milestone.
    MilestoneNotFound,
    /// The milestone is already completed.
    MilestoneAlreadyCompleted,
    /// The goal amount is not valid.
    InvalidGoalAmount,
    /// The caller may not do this.
    Unauthorized,
    /// No such role.
    RoleNotFound,
    /// The batch is too large.
    BatchTooLarge,
    /// The balance is too small.
    InsufficientBalance,
    /// The unlock time is not valid.
    InvalidUnlockTime,
    /// The tip is still locked.
    TipStillLocked,
    /// No such locked tip.
    LockedTipNotFound,
    /// No such matching program.
    MatchingProgramNotFound,
    /// The matching program is not active.
    MatchingProgramInactive,
    /// The match ratio is not valid.
    InvalidMatchRatio,
    /// No DEX is configured.
    DexNotConfigured,
    /// No NFT contract is configured.
    NftNotConfigured,
    /// The swap failed.
    SwapFailed,
    /// A condition failed.
    ConditionFailed,
    /// Caller is not the stored admin; upgrade rejected.
    UpgradeUnauthorized,
}

impl TipJarError {
    /// The error's number as the host reports it.
    pub fn code(&self) -> (r: u32)
        ensures
            1 <= r <= 23,
            r == error_code(*self),
    {
        match self {
            TipJarError::AlreadyInitialized => 1,
            TipJarError::TokenNotWhitelisted => 2,
            TipJarError::InvalidAmount => 3,
            TipJarError::NothingToWithdraw => 4,
            TipJarError::MessageTooLong => 5,
            TipJarError::MilestoneNotFound => 6,
            TipJarError::MilestoneAlreadyCompleted => 7,
            TipJarError::InvalidGoalAmount => 8,
            TipJarError::Unauthorized => 9,
            TipJarError::RoleNotFound => 10,
            TipJarError::BatchTooLarge => 11,
            TipJarError::InsufficientBalance => 12,
            TipJarError::InvalidUnlockTime => 13,
            TipJarError::TipStillLocked => 14,
            TipJarError::LockedTipNotFound => 15,
            TipJarError::MatchingProgramNotFound => 16,
            TipJarError::MatchingProgramInactive => 17,
            TipJarError::InvalidMatchRatio => 18,
            TipJarError::DexNotConfigured => 19,
            TipJarError::NftNotConfigured => 20,
            TipJarError::SwapFailed => 21,
            TipJarError::ConditionFailed => 22,
            TipJarError::UpgradeUnauthorized => 23,
        }
    }

    /// The error with the given number, if there is one.
    pub fn from_code(code: u32) -> (r: Option<TipJarError>)
        ensures
            match r {
                Some(e) => error_code(e) == code,
                None => !(1 <= code <= 23),
            },
    {
        match code {
            1 => Some(TipJarError::AlreadyInitialized),
            2 => Some(TipJarError::TokenNotWhitelisted),
            3 => Some(TipJarError::InvalidAmount),
            4 => Some(TipJarError::NothingToWithdraw),
            5 => Some(TipJarError::MessageTooLong),
            6 => Some(TipJarError::MilestoneNotFound),
            7 => Some(TipJarError::MilestoneAlreadyCompleted),
            8 => Some(TipJarError::InvalidGoalAmount),
            9 => Some(TipJarError::Unauthorized),
            10 => Some(TipJarError::RoleNotFound),
            11 => Some(TipJarError::BatchTooLarge),
            12 => Some(TipJarError::InsufficientBalance),
            13 => Some(TipJarError::InvalidUnlockTime),
            14 => Some(TipJarError::TipStillLocked),
            15 => Some(TipJarError::LockedTipNotFound),
            16 => Some(TipJarError::MatchingProgramNotFound),
            17 => Some(TipJarError::MatchingProgramInactive),
            18 => Some(TipJarError::InvalidMatchRatio),
            19 => Some(TipJarError::DexNotConfigured),
            20 => Some(TipJarError::NftNotConfigured),
            21 => Some(TipJarError::SwapFailed),
            22 => Some(TipJarError::ConditionFailed),
            23 => Some(TipJarError::UpgradeUnauthorized),
            _ => None,
        }
    }
}

/// The number of each error.
pub open spec fn error_code(e: TipJarError) -> u32 {
    match e {
        TipJarError::AlreadyInitialized => 1,
        TipJarError::TokenNotWhitelisted => 2,
        TipJarError::InvalidAmount => 3,
        TipJarError::NothingToWithdraw => 4,
        TipJarError::MessageTooLong => 5,
        TipJarError::MilestoneNotFound => 6,
        TipJarError::MilestoneAlreadyCompleted => 7,
        TipJarError::InvalidGoalAmount => 8,
        TipJarError::Unauthorized => 9,
        TipJarError::RoleNotFound => 10,
        TipJarError::BatchTooLarge => 11,
        TipJarError::InsufficientBalance => 12,
        TipJarError::InvalidUnlockTime => 13,
        TipJarError::TipStillLocked => 14,
        TipJarError::LockedTipNotFound => 15,
        TipJarError::MatchingProgramNotFound => 16,
        TipJarError::MatchingProgramInactive => 17,
        TipJarError::InvalidMatchRatio => 18,
        TipJarError::DexNotConfigured => 19,
        TipJarError::NftNotConfigured => 20,
        TipJarError::SwapFailed => 21,
        TipJarError::ConditionFailed => 22,
        TipJarError::UpgradeUnauthorized => 23,
    }
}

} // verus!
