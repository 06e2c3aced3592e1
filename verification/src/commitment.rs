//! The commitment ledger and the reputation protocol: solution commits,
//! adjudication with fee settlement, and the human-or-bot check.

use vstd::prelude::*;

use crate::state::same_captcha_data;
use crate::state::same_commitments;
use crate::state::same_config;
use crate::state::same_dapps;
use crate::state::same_events;
use crate::state::same_operators;
use crate::state::same_providers;
use crate::state::same_transfers;
use crate::state::same_users;
use crate::state::spec_commitment_lookup;
use crate::state::spec_validate_dapp;
use crate::state::spec_validate_provider;
use crate::state::unchanged_state;
use crate::state::Prosopo;
use crate::types::sat_inc_u64;
use crate::types::saturating_inc_u64;
use crate::types::AccountId;
use crate::types::CaptchaSolutionCommitment;
use crate::types::Dapp;
use crate::types::DappUserCommit;
use crate::types::HashValue;
use crate::types::Payee;
use crate::types::ProsopoError;
use crate::types::ProsopoEvent;
use crate::types::Provider;
use crate::types::ProviderApprove;
use crate::types::ProviderDisapprove;
use crate::types::Status;
use crate::types::User;

verus! {

/// Whether the provider's fee can move in full between the provider's and
/// the dapp's stored balances: the paying side must cover the fee and the
/// receiving side must be able to absorb it. A zero fee or no payee is
/// always feasible (nothing moves).
pub open spec fn settlement_feasible(provider: Provider, dapp: Dapp) -> bool {
    if provider.fee == 0 || provider.payee == Payee::Neither {
        true
    } else if provider.payee == Payee::Provider {
        dapp.balance >= provider.fee && provider.balance + provider.fee <= u128::MAX
    } else {
        provider.balance >= provider.fee && dapp.balance + provider.fee <= u128::MAX
    }
}

/// The provider row after one feasible settlement.
pub open spec fn settled_provider(provider: Provider) -> Provider {
    if provider.fee == 0 || provider.payee == Payee::Neither {
        provider
    } else if provider.payee == Payee::Provider {
        Provider { balance: (provider.balance + provider.fee) as u128, ..provider }
    } else {
        Provider { balance: (provider.balance - provider.fee) as u128, ..provider }
    }
}

/// The dapp row after one feasible settlement against `provider`.
pub open spec fn settled_dapp(provider: Provider, dapp: Dapp) -> Dapp {
    if provider.fee == 0 || provider.payee == Payee::Neither {
        dapp
    } else if provider.payee == Payee::Provider {
        Dapp { balance: (dapp.balance - provider.fee) as u128, ..dapp }
    } else {
        Dapp { balance: (dapp.balance + provider.fee) as u128, ..dapp }
    }
}

/// Exact effect of `pay_fee` (the fee settlement engine): a zero fee or no
/// payee is a successful no-op; an infeasible settlement is rejected before
/// any mutation; otherwise the fee moves in full between the two rows.
pub open spec fn pay_fee_post(
    pre: Prosopo,
    post: Prosopo,
    provider_id: AccountId,
    dapp_id: AccountId,
    r: Result<(), ProsopoError>,
) -> bool {
    let provider = pre.providers@[provider_id];
    let dapp = pre.dapps@[dapp_id];
    if provider.fee == 0 || provider.payee == Payee::Neither {
        r == Ok::<(), ProsopoError>(()) && unchanged_state(pre, post)
    } else if !settlement_feasible(provider, dapp) {
        r == Err::<(), ProsopoError>(ProsopoError::InsufficientBalance) && unchanged_state(
            pre,
            post,
        )
    } else {
        &&& r == Ok::<(), ProsopoError>(())
        &&& post.providers@ == pre.providers@.insert(provider_id, settled_provider(provider))
        &&& post.dapps@ == pre.dapps@.insert(dapp_id, settled_dapp(provider, dapp))
        &&& same_captcha_data(pre, post)
        &&& same_commitments(pre, post)
        &&& same_operators(pre, post)
        &&& same_users(pre, post)
        &&& same_config(pre, post)
        &&& same_events(pre, post)
        &&& same_transfers(pre, post)
    }
}

/// The user's reputation counters after one adjudication with `verdict`.
pub open spec fn adjudicated_user(user: User, verdict: Status) -> User {
    if verdict == Status::Approved {
        User { correct_captchas: sat_inc_u64(user.correct_captchas), ..user }
    } else {
        User { incorrect_captchas: sat_inc_u64(user.incorrect_captchas), ..user }
    }
}

/// The notification emitted for one adjudication with `verdict`.
pub open spec fn adjudication_event(
    captcha_solution_commitment_id: u64,
    verdict: Status,
) -> ProsopoEvent {
    if verdict == Status::Approved {
        ProsopoEvent::ProviderApprove(ProviderApprove { captcha_solution_commitment_id })
    } else {
        ProsopoEvent::ProviderDisapprove(ProviderDisapprove { captcha_solution_commitment_id })
    }
}

/// Exact effect of adjudicating a commitment (`provider_approve` and
/// `provider_disapprove`): the caller must pass the provider gate, own the
/// commitment's dataset, the commitment's dapp must pass the dapp gate, and
/// the committing user must exist. A commitment that is no longer Pending
/// makes the call a successful no-op: the first verdict wins and is final.
/// Otherwise the verdict is recorded, the user's counter moves, the fee is
/// settled, and a notification is emitted; an infeasible settlement rejects
/// the call before any mutation.
pub open spec fn adjudicate_post(
    pre: Prosopo,
    post: Prosopo,
    captcha_solution_commitment_id: u64,
    verdict: Status,
    caller: AccountId,
    r: Result<(), ProsopoError>,
) -> bool {
    match spec_validate_provider(pre, caller) {
        Err(e) => r == Err::<(), ProsopoError>(e) && unchanged_state(pre, post),
        Ok(_) => {
            let provider = pre.providers@[caller];
            match spec_commitment_lookup(
                pre,
                captcha_solution_commitment_id,
                provider.captcha_dataset_id,
            ) {
                Err(e) => r == Err::<(), ProsopoError>(e) && unchanged_state(pre, post),
                Ok(commitment) => match spec_validate_dapp(pre, commitment.contract) {
                    Err(e) => r == Err::<(), ProsopoError>(e) && unchanged_state(pre, post),
                    Ok(_) => {
                        if !pre.dapp_users@.contains_key(commitment.account) {
                            r == Err::<(), ProsopoError>(ProsopoError::DappUserDoesNotExist)
                                && unchanged_state(pre, post)
                        } else if commitment.status != Status::Pending {
                            r == Ok::<(), ProsopoError>(()) && unchanged_state(pre, post)
                        } else if !settlement_feasible(provider, pre.dapps@[commitment.contract]) {
                            r == Err::<(), ProsopoError>(ProsopoError::InsufficientBalance)
                                && unchanged_state(pre, post)
                        } else {
                            &&& r == Ok::<(), ProsopoError>(())
                            &&& post.captcha_solution_commitments@
                                == pre.captcha_solution_commitments@.insert(
                                captcha_solution_commitment_id,
                                (CaptchaSolutionCommitment { status: verdict, ..commitment }),
                            )
                            &&& post.captcha_solution_commitments_max_index
                                == pre.captcha_solution_commitments_max_index
                            &&& post.dapp_users@ == pre.dapp_users@.insert(
                                commitment.account,
                                adjudicated_user(pre.dapp_users@[commitment.account], verdict),
                            )
                            &&& post.providers@ == pre.providers@.insert(
                                caller,
                                settled_provider(provider),
                            )
                            &&& post.dapps@ == pre.dapps@.insert(
                                commitment.contract,
                                settled_dapp(provider, pre.dapps@[commitment.contract]),
                            )
                            &&& post.events@ == pre.events@.push(
                                adjudication_event(captcha_solution_commitment_id, verdict),
                            )
                            &&& same_captcha_data(pre, post)
                            &&& same_operators(pre, post)
                            &&& same_config(pre, post)
                            &&& same_transfers(pre, post)
                        }
                    },
                },
            }
        },
    }
}

/// Exact effect of `dapp_user_commit`: the dataset must be known and the
/// dapp must pass its gate; then the caller's user row is created if absent,
/// the index counter moves up by one, the commitment is stored Pending under
/// the new index, and a notification carries that index.
pub open spec fn dapp_user_commit_post(
    pre: Prosopo,
    post: Prosopo,
    contract: AccountId,
    captcha_dataset_id: HashValue,
    user_merkle_tree_root: HashValue,
    caller: AccountId,
    r: Result<(), ProsopoError>,
) -> bool {
    if !pre.captcha_data@.contains_key(captcha_dataset_id) {
        r == Err::<(), ProsopoError>(ProsopoError::CaptchaDataDoesNotExist) && unchanged_state(
            pre,
            post,
        )
    } else {
        match spec_validate_dapp(pre, contract) {
            Err(e) => r == Err::<(), ProsopoError>(e) && unchanged_state(pre, post),
            Ok(_) => {
                let new_index = (pre.captcha_solution_commitments_max_index + 1) as u64;
                &&& r == Ok::<(), ProsopoError>(())
                &&& post.captcha_solution_commitments_max_index == new_index
                &&& post.captcha_solution_commitments@ == pre.captcha_solution_commitments@.insert(
                    new_index,
                    CaptchaSolutionCommitment {
                        account: caller,
                        captcha_dataset_id,
                        user_merkle_tree_root,
                        status: Status::Pending,
                        contract,
                    },
                )
                &&& post.dapp_users@ == (if pre.dapp_users@.contains_key(caller) {
                    pre.dapp_users@
                } else {
                    pre.dapp_users@.insert(
                        caller,
                        User { correct_captchas: 0, incorrect_captchas: 0 },
                    )
                })
                &&& post.events@ == pre.events@.push(
                    ProsopoEvent::DappUserCommit(
                        DappUserCommit {
                            account: caller,
                            merkle_tree_root: user_merkle_tree_root,
                            contract,
                            captcha_dataset_id,
                            captcha_solution_commitment_id: new_index,
                        },
                    ),
                )
                &&& same_providers(pre, post)
                &&& same_captcha_data(pre, post)
                &&& same_dapps(pre, post)
                &&& same_operators(pre, post)
                &&& same_config(pre, post)
                &&& same_transfers(pre, post)
            },
        }
    }
}

/// Whether the user's solution rate clears the threshold percentage,
/// computed with integer arithmetic over the two counters. A user with no
/// adjudications yet does not clear any threshold; that is the protocol's
/// explicit answer to the otherwise-undefined zero-total case.
pub open spec fn spec_is_human(user: User, threshold: u8) -> bool {
    if user.correct_captchas + user.incorrect_captchas == 0 {
        false
    } else {
        (user.correct_captchas as int) / (user.correct_captchas + user.incorrect_captchas) * 100
            >= threshold
    }
}

impl Prosopo {
    /// Submits a dapp user's solution commitment. The index counter must
    /// still have room to move up.
    pub fn dapp_user_commit(
        &mut self,
        contract: AccountId,
        captcha_dataset_id: HashValue,
        user_merkle_tree_root: HashValue,
        caller: AccountId,
    ) -> (r: Result<(), ProsopoError>)
        requires
            old(self).wf(),
            old(self).captcha_solution_commitments_max_index < u64::MAX,
        ensures
            final(self).wf(),
            dapp_user_commit_post(
                *old(self),
                *final(self),
                contract,
                captcha_dataset_id,
                user_merkle_tree_root,
                caller,
                r,
            ),
    {
        if !self.captcha_data.contains_key(captcha_dataset_id) {
            return Err(ProsopoError::CaptchaDataDoesNotExist);
        }
        if let Err(e) = self.validate_dapp(contract) {
            return Err(e);
        }
        self.create_new_dapp_user(caller);
        let new_index = self.captcha_solution_commitments_max_index + 1;
        self.captcha_solution_commitments_max_index = new_index;
        let commitment = CaptchaSolutionCommitment {
            account: caller,
            captcha_dataset_id,
            user_merkle_tree_root,
            status: Status::Pending,
            contract,
        };
        self.captcha_solution_commitments.insert(new_index, commitment);
        self.events.push(
            ProsopoEvent::DappUserCommit(
                DappUserCommit {
                    account: caller,
                    merkle_tree_root: user_merkle_tree_root,
                    contract,
                    captcha_dataset_id,
                    captcha_solution_commitment_id: new_index,
                },
            ),
        );
        proof {
            assert forall|id: u64| self.captcha_solution_commitments@.contains_key(id) <==> 1 <= id
                <= self.captcha_solution_commitments_max_index by {
                assert(old(self).captcha_solution_commitments@.contains_key(id) <==> 1 <= id <= old(
                    self,
                ).captcha_solution_commitments_max_index);
            }
        }
        Ok(())
    }

    /// Creates the user's reputation row if this is their first commitment.
    fn create_new_dapp_user(&mut self, account: AccountId)
        requires
            old(self).wf(),
        ensures
            final(self).wf(),
            final(self).dapp_users@ == (if old(self).dapp_users@.contains_key(account) {
                old(self).dapp_users@
            } else {
                old(self).dapp_users@.insert(
                    account,
                    User { correct_captchas: 0, incorrect_captchas: 0 },
                )
            }),
            same_providers(*old(self), *final(self)),
            same_captcha_data(*old(self), *final(self)),
            same_commitments(*old(self), *final(self)),
            same_dapps(*old(self), *final(self)),
            same_operators(*old(self), *final(self)),
            same_config(*old(self), *final(self)),
            same_events(*old(self), *final(self)),
            same_transfers(*old(self), *final(self)),
    {
        if !self.dapp_users.contains_key(account) {
            self.dapp_users.insert(account, User { correct_captchas: 0, incorrect_captchas: 0 });
        }
    }

    /// Approves a solution commitment: records the verdict, credits the
    /// user's correct counter, and settles the fee.
    pub fn provider_approve(&mut self, captcha_solution_commitment_id: u64, caller: AccountId) -> (
        r: Result<(), ProsopoError>)
        requires
            old(self).wf(),
        ensures
            final(self).wf(),
            adjudicate_post(
                *old(self),
                *final(self),
                captcha_solution_commitment_id,
                Status::Approved,
                caller,
                r,
            ),
    {
        self.adjudicate(captcha_solution_commitment_id, true, caller)
    }

    /// Disapproves a solution commitment: records the verdict, credits the
    /// user's incorrect counter, and settles the fee.
    pub fn provider_disapprove(
        &mut self,
        captcha_solution_commitment_id: u64,
        caller: AccountId,
    ) -> (r: Result<(), ProsopoError>)
        requires
            old(self).wf(),
        ensures
            final(self).wf(),
            adjudicate_post(
                *old(self),
                *final(self),
                captcha_solution_commitment_id,
                Status::Disapproved,
                caller,
                r,
            ),
    {
        self.adjudicate(captcha_solution_commitment_id, false, caller)
    }

    /// Shared adjudication path; `approve` selects the verdict. All gates
    /// run before any mutation, so a rejected call leaves no partial state.
    fn adjudicate(
        &mut self,
        captcha_solution_commitment_id: u64,
        approve: bool,
        caller: AccountId,
    ) -> (r: Result<(), ProsopoError>)
        requires
            old(self).wf(),
        ensures
            final(self).wf(),
            adjudicate_post(
                *old(self),
                *final(self),
                captcha_solution_commitment_id,
                if approve {
                    Status::Approved
                } else {
                    Status::Disapproved
                },
                caller,
                r,
            ),
    {
        if let Err(e) = self.validate_provider(caller) {
            return Err(e);
        }
        let provider = match self.get_provider_details(caller) {
            Ok(details) => details,
            Err(e) => {
                proof {
                    assert(false);
                }
                return Err(e);
            },
        };
        let commitment = match self.get_captcha_solution_commitment(
            captcha_solution_commitment_id,
            provider.captcha_dataset_id,
        ) {
            Ok(found) => found,
            Err(e) => {
                return Err(e);
            },
        };
        if let Err(e) = self.validate_dapp(commitment.contract) {
            return Err(e);
        }
        let user = match self.get_dapp_user(commitment.account) {
            Ok(found) => found,
            Err(e) => {
                return Err(e);
            },
        };
        if commitment.status != Status::Pending {
            return Ok(());
        }
        let dapp = match self.get_dapp_details(commitment.contract) {
            Ok(details) => details,
            Err(e) => {
                proof {
                    assert(false);
                }
                return Err(e);
            },
        };
        if !settlement_ok(&provider, &dapp) {
            return Err(ProsopoError::InsufficientBalance);
        }
        let updated_commitment = CaptchaSolutionCommitment {
            status: if approve {
                Status::Approved
            } else {
                Status::Disapproved
            },
            ..commitment
        };
        self.captcha_solution_commitments.insert(
            captcha_solution_commitment_id,
            updated_commitment,
        );
        let updated_user = if approve {
            User { correct_captchas: saturating_inc_u64(user.correct_captchas), ..user }
        } else {
            User { incorrect_captchas: saturating_inc_u64(user.incorrect_captchas), ..user }
        };
        self.dapp_users.insert(commitment.account, updated_user);
        let fee_result = self.pay_fee(caller, commitment.contract);
        proof {
            assert(fee_result == Ok::<(), ProsopoError>(()));
            if provider.fee == 0 || provider.payee == Payee::Neither {
                assert(self.providers@ =~= old(self).providers@.insert(
                    caller,
                    settled_provider(provider),
                ));
                assert(self.dapps@ =~= old(self).dapps@.insert(
                    commitment.contract,
                    settled_dapp(provider, dapp),
                ));
            }
        }
        if approve {
            self.events.push(
                ProsopoEvent::ProviderApprove(
                    ProviderApprove { captcha_solution_commitment_id },
                ),
            );
        } else {
            self.events.push(
                ProsopoEvent::ProviderDisapprove(
                    ProviderDisapprove { captcha_solution_commitment_id },
                ),
            );
        }
        Ok(())
    }

    /// The fee settlement engine: moves the provider's fee between the
    /// provider's and the dapp's stored balances, towards the configured
    /// payee. Rejects the settlement before any mutation when the fee cannot
    /// move in full; the sum of the two balances is conserved on success.
    fn pay_fee(&mut self, provider_id: AccountId, dapp_id: AccountId) -> (r: Result<
        (),
        ProsopoError,
    >)
        requires
            old(self).wf(),
            old(self).providers@.contains_key(provider_id),
            old(self).dapps@.contains_key(dapp_id),
        ensures
            final(self).wf(),
            pay_fee_post(*old(self), *final(self), provider_id, dapp_id, r),
            r == Ok::<(), ProsopoError>(()) ==> final(self).providers@[provider_id].balance
                + final(self).dapps@[dapp_id].balance == old(self).providers@[provider_id].balance
                + old(self).dapps@[dapp_id].balance,
    {
        let provider = match self.get_provider_details(provider_id) {
            Ok(details) => details,
            Err(e) => {
                proof {
                    assert(false);
                }
                return Err(e);
            },
        };
        let dapp = match self.get_dapp_details(dapp_id) {
            Ok(details) => details,
            Err(e) => {
                proof {
                    assert(false);
                }
                return Err(e);
            },
        };
        if provider.fee == 0 {
            return Ok(());
        }
        let fee = provider.fee as u128;
        match provider.payee {
            Payee::Neither => Ok(()),
            Payee::Provider => {
                if dapp.balance < fee || provider.balance > u128::MAX - fee {
                    return Err(ProsopoError::InsufficientBalance);
                }
                self.providers.insert(
                    provider_id,
                    Provider { balance: provider.balance + fee, ..provider },
                );
                self.dapps.insert(dapp_id, Dapp { balance: dapp.balance - fee, ..dapp });
                Ok(())
            },
            Payee::Dapp => {
                if provider.balance < fee || dapp.balance > u128::MAX - fee {
                    return Err(ProsopoError::InsufficientBalance);
                }
                self.providers.insert(
                    provider_id,
                    Provider { balance: provider.balance - fee, ..provider },
                );
                self.dapps.insert(dapp_id, Dapp { balance: dapp.balance + fee, ..dapp });
                Ok(())
            },
        }
    }

    /// Whether the user's solution rate clears the threshold percentage; an
    /// error for a user who has never committed. Read-only.
    pub fn dapp_operator_is_human_user(&mut self, user: AccountId, threshold: u8) -> (r: Result<
        bool,
        ProsopoError,
    >)
        requires
            old(self).wf(),
        ensures
            final(self).wf(),
            unchanged_state(*old(self), *final(self)),
            match r {
                Ok(human) => old(self).dapp_users@.contains_key(user) && human == spec_is_human(
                    old(self).dapp_users@[user],
                    threshold,
                ),
                Err(e) => !old(self).dapp_users@.contains_key(user) && e
                    == ProsopoError::DappUserDoesNotExist,
            },
    {
        let record = match self.get_dapp_user(user) {
            Ok(found) => found,
            Err(e) => {
                return Err(e);
            },
        };
        let correct = record.correct_captchas as u128;
        let total = record.correct_captchas as u128 + record.incorrect_captchas as u128;
        if total == 0 {
            return Ok(false);
        }
        let ratio = correct / total;
        proof {
            if correct == total {
                vstd::arithmetic::div_mod::lemma_div_by_self(total as int);
            } else {
                vstd::arithmetic::div_mod::lemma_basic_div(correct as int, total as int);
            }
        }
        Ok(ratio * 100 >= threshold as u128)
    }

    /// Whether the user has recently solved a challenge for the calling
    /// dapp; an extension point that currently reports success for everyone.
    pub fn dapp_operator_check_recent_solution(&mut self, user: AccountId, timeframe: u64) -> (r:
        bool)
        requires
            old(self).wf(),
        ensures
            final(self).wf(),
            unchanged_state(*old(self), *final(self)),
            r == true,
    {
        let _ = user;
        let _ = timeframe;
        true
    }
}

/// Whether the fee between `provider` and `dapp` can move in full.
fn settlement_ok(provider: &Provider, dapp: &Dapp) -> (r: bool)
    ensures
        r == settlement_feasible(*provider, *dapp),
{
    if provider.fee == 0 {
        return true;
    }
    let fee = provider.fee as u128;
    match provider.payee {
        Payee::Neither => true,
        Payee::Provider => dapp.balance >= fee && provider.balance <= u128::MAX - fee,
        Payee::Dapp => provider.balance >= fee && dapp.balance <= u128::MAX - fee,
    }
}

} // verus!
