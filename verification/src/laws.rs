//! Protocol-wide laws, stated and proved over the operations' exact
//! postcondition predicates.

use vstd::prelude::*;

use crate::commitment::adjudicate_post;
use crate::commitment::dapp_user_commit_post;
use crate::dapp::dapp_register_post;
use crate::provider::provider_stake_post;
use crate::state::unchanged_state;
use crate::state::Prosopo;
use crate::types::AccountId;
use crate::types::Balance;
use crate::types::HashValue;
use crate::types::ProsopoError;
use crate::types::Status;
use crate::types::TransferOut;

verus! {

/// A provider that turns Active through staking holds at least the stake
/// threshold at that moment. Staking is the only operation that makes a
/// provider Active: registration, update, and deregistration all pin the
/// resulting status to Deactivated in their own postconditions.
pub proof fn lemma_stake_activation_requires_threshold(
    pre: Prosopo,
    post: Prosopo,
    caller: AccountId,
    transferred: Balance,
    r: Result<(), ProsopoError>,
)
    requires
        provider_stake_post(pre, post, caller, transferred, r),
        pre.providers@.contains_key(caller),
        pre.providers@[caller].status != Status::Active,
        post.providers@.contains_key(caller),
        post.providers@[caller].status == Status::Active,
    ensures
        post.providers@[caller].balance >= pre.provider_stake_default,
{
}

/// Commitment indexes are strictly increasing and gapless from 1: a
/// successful commit moves the counter up by exactly one, stores the new
/// commitment Pending under the new counter value, and afterwards the
/// ledger holds exactly the indexes 1 through the counter — so the Nth
/// successful commit produces index N.
pub proof fn lemma_commit_indexes_gapless(
    pre: Prosopo,
    post: Prosopo,
    contract: AccountId,
    captcha_dataset_id: HashValue,
    user_merkle_tree_root: HashValue,
    caller: AccountId,
    r: Result<(), ProsopoError>,
)
    requires
        pre.wf(),
        dapp_user_commit_post(
            pre,
            post,
            contract,
            captcha_dataset_id,
            user_merkle_tree_root,
            caller,
            r,
        ),
        r == Ok::<(), ProsopoError>(()),
        pre.captcha_solution_commitments_max_index < u64::MAX,
    ensures
        post.captcha_solution_commitments_max_index == pre.captcha_solution_commitments_max_index
            + 1,
        post.captcha_solution_commitments@.contains_key(
            post.captcha_solution_commitments_max_index,
        ),
        post.captcha_solution_commitments@[post.captcha_solution_commitments_max_index].status
            == Status::Pending,
        forall|id: u64|
            #[trigger] post.captcha_solution_commitments@.contains_key(id) <==> 1 <= id
                <= post.captcha_solution_commitments_max_index,
{
    assert forall|id: u64|
        #[trigger] post.captcha_solution_commitments@.contains_key(id) <==> 1 <= id
            <= post.captcha_solution_commitments_max_index by {
        assert(pre.captcha_solution_commitments@.contains_key(id) <==> 1 <= id
            <= pre.captcha_solution_commitments_max_index);
    }
}

/// Adjudication is idempotent and the first verdict wins: after one
/// successful adjudication of a commitment, a second adjudication call for
/// the same commitment — by any caller, with either verdict, whatever its
/// result — leaves the whole state (commitment status, reputation counters,
/// and both balances included) exactly as it was after the first call.
pub proof fn lemma_adjudicate_idempotent(
    s0: Prosopo,
    s1: Prosopo,
    s2: Prosopo,
    captcha_solution_commitment_id: u64,
    verdict1: Status,
    caller1: AccountId,
    r1: Result<(), ProsopoError>,
    verdict2: Status,
    caller2: AccountId,
    r2: Result<(), ProsopoError>,
)
    requires
        verdict1 == Status::Approved || verdict1 == Status::Disapproved,
        adjudicate_post(s0, s1, captcha_solution_commitment_id, verdict1, caller1, r1),
        r1 == Ok::<(), ProsopoError>(()),
        adjudicate_post(s1, s2, captcha_solution_commitment_id, verdict2, caller2, r2),
    ensures
        unchanged_state(s1, s2),
{
}

/// Fee settlement conserves funds: a successful adjudication moves the fee
/// between the adjudicating provider's and the committed dapp's stored
/// balances, and the sum of the two balances afterwards equals the sum
/// before — the fee is never created or destroyed.
pub proof fn lemma_adjudication_conserves_balances(
    pre: Prosopo,
    post: Prosopo,
    captcha_solution_commitment_id: u64,
    verdict: Status,
    caller: AccountId,
    r: Result<(), ProsopoError>,
)
    requires
        adjudicate_post(pre, post, captcha_solution_commitment_id, verdict, caller, r),
        r == Ok::<(), ProsopoError>(()),
        pre.captcha_solution_commitments@.contains_key(captcha_solution_commitment_id),
    ensures
        post.providers@.contains_key(caller),
        post.dapps@.contains_key(
            pre.captcha_solution_commitments@[captcha_solution_commitment_id].contract,
        ),
        post.providers@[caller].balance + post.dapps@[pre.captcha_solution_commitments@[captcha_solution_commitment_id].contract].balance
            == pre.providers@[caller].balance + pre.dapps@[pre.captcha_solution_commitments@[captcha_solution_commitment_id].contract].balance,
{
}

/// An unauthorised dapp update — a register call for an existing row whose
/// stored owner is not the caller — never changes the stored dapp rows,
/// emits nothing, and returns the attempted transfer amount to the caller.
pub proof fn lemma_unauthorised_dapp_update_refunds(
    pre: Prosopo,
    post: Prosopo,
    client_origin: HashValue,
    contract: AccountId,
    optional_owner: Option<AccountId>,
    caller: AccountId,
    transferred: Balance,
)
    requires
        dapp_register_post(
            pre,
            post,
            client_origin,
            contract,
            optional_owner,
            caller,
            transferred,
        ),
        pre.dapps@.contains_key(contract),
        pre.dapps@[contract].owner != caller,
    ensures
        post.dapps@ == pre.dapps@,
        post.events@ == pre.events@,
        post.transfers@ == pre.transfers@.push(TransferOut { to: caller, amount: transferred }),
{
}

} // verus!
