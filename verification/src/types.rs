//! Data model of the protocol: identities, entity rows, notifications,
//! transfer requests, and the error taxonomy.

use vstd::prelude::*;

verus! {

/// An account identity. The embedding environment authenticates callers and
/// hands the protocol an opaque, comparable identifier; the protocol only
/// compares identities and keys registries by them.
pub type AccountId = u64;

/// An amount in the base unit of the native token.
pub type Balance = u128;

/// An opaque fixed-size content identifier (for service origins, client
/// origins, and Merkle tree roots). The protocol only stores and compares
/// these values; it never recomputes a hash.
pub type HashValue = u64;

/// The content identifier used where no dataset has been assigned yet.
pub const EMPTY_HASH: HashValue = 0;

/// Lifecycle status shared by providers, dapps, and solution commitments.
#[derive(PartialEq, Eq, Structural, Debug, Clone, Copy)]
pub enum Status {
    Active,
    Suspended,
    Deactivated,
    Pending,
    Approved,
    Disapproved,
}

/// Which side receives the per-solution fee; `Neither` means no balance
/// moves on adjudication.
#[derive(PartialEq, Eq, Structural, Debug, Clone, Copy)]
pub enum Payee {
    Provider,
    Dapp,
    Neither,
}

/// A CAPTCHA provider's row, keyed by the provider's account.
#[derive(PartialEq, Eq, Structural, Debug, Clone, Copy)]
pub struct Provider {
    pub status: Status,
    pub balance: Balance,
    /// Fee per adjudicated solution, in base units.
    pub fee: u32,
    pub payee: Payee,
    pub service_origin: HashValue,
    pub captcha_dataset_id: HashValue,
}

/// A provider-owned CAPTCHA dataset, keyed by its Merkle tree root.
#[derive(PartialEq, Eq, Structural, Debug, Clone, Copy)]
pub struct CaptchaData {
    pub provider: AccountId,
    pub merkle_tree_root: HashValue,
    pub captcha_type: u16,
}

/// A dapp user's submitted solution awaiting a provider's verdict, keyed by a
/// monotonically increasing index starting at 1.
#[derive(PartialEq, Eq, Structural, Debug, Clone, Copy)]
pub struct CaptchaSolutionCommitment {
    /// The dapp user's account.
    pub account: AccountId,
    /// The dataset the solution belongs to (a `CaptchaData` key).
    pub captcha_dataset_id: HashValue,
    /// Merkle tree root of the submitted solution package.
    pub user_merkle_tree_root: HashValue,
    pub status: Status,
    /// The dapp contract the user wants to interact with.
    pub contract: AccountId,
}

/// A client application's row, keyed by the dapp contract's account (not its
/// owner, so one owner may own many dapps).
#[derive(PartialEq, Eq, Structural, Debug, Clone, Copy)]
pub struct Dapp {
    pub status: Status,
    pub balance: Balance,
    pub owner: AccountId,
    pub min_difficulty: u16,
    pub client_origin: HashValue,
}

/// Per-user reputation counters, created on the user's first commitment.
#[derive(PartialEq, Eq, Structural, Debug, Clone, Copy)]
pub struct User {
    pub correct_captchas: u64,
    pub incorrect_captchas: u64,
}

/// Kinds of disputes; an extension point, no operation files one yet.
#[derive(PartialEq, Eq, Structural, Debug, Clone, Copy)]
pub enum DisputeType {
    BadCaptchaData,
    UnresolvedCaptchaSolution,
    BotsFromProvider,
    DappContractRegisteredByUnknown,
}

/// A filed dispute; an extension point, no operation files one yet.
#[derive(PartialEq, Eq, Structural, Debug, Clone, Copy)]
pub struct Dispute {
    pub account: AccountId,
    pub status: Status,
    pub dispute_type: DisputeType,
    pub proof_root: HashValue,
}

/// Notification that a provider registered.
#[derive(PartialEq, Eq, Structural, Debug, Clone, Copy)]
pub struct ProviderRegister {
    pub account: AccountId,
}

/// Notification that a provider was deregistered.
#[derive(PartialEq, Eq, Structural, Debug, Clone, Copy)]
pub struct ProviderDeregister {
    pub account: AccountId,
}

/// Notification that a provider updated its row.
#[derive(PartialEq, Eq, Structural, Debug, Clone, Copy)]
pub struct ProviderUpdate {
    pub account: AccountId,
}

/// Notification that a provider staked; carries the new total balance.
#[derive(PartialEq, Eq, Structural, Debug, Clone, Copy)]
pub struct ProviderStake {
    pub account: AccountId,
    pub value: Balance,
}

/// Notification that a provider added a dataset.
#[derive(PartialEq, Eq, Structural, Debug, Clone, Copy)]
pub struct ProviderAddDataset {
    pub account: AccountId,
    pub merkle_tree_root: HashValue,
}

/// Notification that a provider unstaked; carries the refunded amount.
#[derive(PartialEq, Eq, Structural, Debug, Clone, Copy)]
pub struct ProviderUnstake {
    pub account: AccountId,
    pub value: Balance,
}

/// Notification that a provider approved a solution commitment.
#[derive(PartialEq, Eq, Structural, Debug, Clone, Copy)]
pub struct ProviderApprove {
    pub captcha_solution_commitment_id: u64,
}

/// Notification that a provider disapproved a solution commitment.
#[derive(PartialEq, Eq, Structural, Debug, Clone, Copy)]
pub struct ProviderDisapprove {
    pub captcha_solution_commitment_id: u64,
}

/// Notification that a dapp registered.
#[derive(PartialEq, Eq, Structural, Debug, Clone, Copy)]
pub struct DappRegister {
    pub contract: AccountId,
    pub owner: AccountId,
    pub client_origin: HashValue,
    pub value: Balance,
}

/// Notification that a dapp's row was updated; carries the new total balance.
#[derive(PartialEq, Eq, Structural, Debug, Clone, Copy)]
pub struct DappUpdate {
    pub contract: AccountId,
    pub owner: AccountId,
    pub client_origin: HashValue,
    pub value: Balance,
}

/// Notification that a dapp was funded; carries the new total balance.
#[derive(PartialEq, Eq, Structural, Debug, Clone, Copy)]
pub struct DappFund {
    pub contract: AccountId,
    pub value: Balance,
}

/// Notification that a dapp cancelled; carries the refunded amount.
#[derive(PartialEq, Eq, Structural, Debug, Clone, Copy)]
pub struct DappCancel {
    pub contract: AccountId,
    pub value: Balance,
}

/// Notification that a dapp user committed a solution; carries the new
/// commitment index.
#[derive(PartialEq, Eq, Structural, Debug, Clone, Copy)]
pub struct DappUserCommit {
    pub account: AccountId,
    pub merkle_tree_root: HashValue,
    pub contract: AccountId,
    pub captcha_dataset_id: HashValue,
    pub captcha_solution_commitment_id: u64,
}

/// One notification emitted after a successful mutation. The event sink is a
/// collaborator: the protocol appends to its event log and never reads it
/// back for decisions.
#[derive(PartialEq, Eq, Structural, Debug, Clone, Copy)]
pub enum ProsopoEvent {
    ProviderRegister(ProviderRegister),
    ProviderDeregister(ProviderDeregister),
    ProviderUpdate(ProviderUpdate),
    ProviderStake(ProviderStake),
    ProviderAddDataset(ProviderAddDataset),
    ProviderUnstake(ProviderUnstake),
    ProviderApprove(ProviderApprove),
    ProviderDisapprove(ProviderDisapprove),
    DappRegister(DappRegister),
    DappUpdate(DappUpdate),
    DappFund(DappFund),
    DappCancel(DappCancel),
    DappUserCommit(DappUserCommit),
}

/// A requested outgoing transfer of native funds (a payout or a refund).
/// The ledger gateway owning real balances performs these best-effort; the
/// protocol only records that the attempt was made.
#[derive(PartialEq, Eq, Structural, Debug, Clone, Copy)]
pub struct TransferOut {
    pub to: AccountId,
    pub amount: Balance,
}

/// The protocol's error taxonomy.
#[derive(PartialEq, Eq, Structural, Debug, Clone, Copy)]
pub enum ProsopoError {
    /// The calling account is not authorised to perform the action.
    NotAuthorised,
    /// Not enough balance to fulfil the request (no value attached to a call
    /// that requires one, or a fee that cannot be moved in full).
    InsufficientBalance,
    /// Not enough allowance to fulfil the request (reserved, unused).
    InsufficientAllowance,
    /// A provider row exists where it should not.
    ProviderExists,
    /// No provider row exists where one should.
    ProviderDoesNotExist,
    /// The provider has no funds.
    ProviderInsufficientFunds,
    /// The provider is inactive.
    ProviderInactive,
    /// The requested dataset id is unavailable (reserved, unused).
    DuplicateCaptchaDataId,
    /// A dapp row exists where it should not (reserved, unused).
    DappExists,
    /// No dapp row exists where one should.
    DappDoesNotExist,
    /// The dapp is inactive.
    DappInactive,
    /// The dapp has no funds.
    DappInsufficientFunds,
    /// No dataset is registered under the given id.
    CaptchaDataDoesNotExist,
    /// No solution commitment exists under the given id.
    CaptchaSolutionCommitmentDoesNotExist,
    /// No user row exists where one should.
    DappUserDoesNotExist,
}

/// Balance deposits saturate at the largest representable amount instead of
/// wrapping; this is the protocol's explicit overflow policy for additions.
pub open spec fn sat_add_u128(a: u128, b: u128) -> u128 {
    if a + b > u128::MAX {
        u128::MAX
    } else {
        (a + b) as u128
    }
}

/// Saturating addition of two balances.
pub fn saturating_add_u128(a: u128, b: u128) -> (r: u128)
    ensures
        r == sat_add_u128(a, b),
{
    if a <= u128::MAX - b {
        a + b
    } else {
        u128::MAX
    }
}

/// Reputation counters saturate at the largest representable count instead
/// of wrapping; this is the protocol's explicit overflow policy for counters.
pub open spec fn sat_inc_u64(a: u64) -> u64 {
    if a == u64::MAX {
        u64::MAX
    } else {
        (a + 1) as u64
    }
}

/// Saturating increment of a reputation counter.
pub fn saturating_inc_u64(a: u64) -> (r: u64)
    ensures
        r == sat_inc_u64(a),
{
    if a < u64::MAX {
        a + 1
    } else {
        u64::MAX
    }
}

} // verus!
