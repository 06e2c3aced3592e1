//! Provider lifecycle operations: registration, update, deregistration,
//! staking, unstaking, and dataset publication.

use vstd::prelude::*;

use crate::state::same_captcha_data;
use crate::state::same_commitments;
use crate::state::same_config;
use crate::state::same_dapps;
use crate::state::same_events;
use crate::state::same_operators;
use crate::state::same_providers;
use crate::state::same_transfers;
use crate::state::same_users;
use crate::state::spec_validate_provider;
use crate::state::unchanged_state;
use crate::state::Prosopo;
use crate::types::sat_add_u128;
use crate::types::saturating_add_u128;
use crate::types::AccountId;
use crate::types::Balance;
use crate::types::CaptchaData;
use crate::types::HashValue;
use crate::types::Payee;
use crate::types::ProsopoError;
use crate::types::ProsopoEvent;
use crate::types::Provider;
use crate::types::ProviderAddDataset;
use crate::types::ProviderDeregister;
use crate::types::ProviderRegister;
use crate::types::ProviderStake;
use crate::types::ProviderUnstake;
use crate::types::ProviderUpdate;
use crate::types::Status;
use crate::types::TransferOut;
use crate::types::EMPTY_HASH;

verus! {

/// Exact effect of `provider_register`: only an operator may register, the
/// account must be fresh, and the new row starts Deactivated with balance 0
/// and no dataset.
pub open spec fn provider_register_post(
    pre: Prosopo,
    post: Prosopo,
    service_origin: HashValue,
    fee: u32,
    payee: Payee,
    provider_account: AccountId,
    caller: AccountId,
    r: Result<(), ProsopoError>,
) -> bool {
    if !pre.operators@.contains_key(caller) {
        r == Err::<(), ProsopoError>(ProsopoError::NotAuthorised) && unchanged_state(pre, post)
    } else if pre.providers@.contains_key(provider_account) {
        r == Err::<(), ProsopoError>(ProsopoError::ProviderExists) && unchanged_state(pre, post)
    } else {
        &&& r == Ok::<(), ProsopoError>(())
        &&& post.providers@ == pre.providers@.insert(
            provider_account,
            Provider {
                status: Status::Deactivated,
                balance: 0,
                fee,
                payee,
                service_origin,
                captcha_dataset_id: EMPTY_HASH,
            },
        )
        &&& post.events@ == pre.events@.push(
            ProsopoEvent::ProviderRegister(ProviderRegister { account: provider_account }),
        )
        &&& same_captcha_data(pre, post)
        &&& same_commitments(pre, post)
        &&& same_dapps(pre, post)
        &&& same_operators(pre, post)
        &&& same_users(pre, post)
        &&& same_config(pre, post)
        &&& same_transfers(pre, post)
    }
}

/// Exact effect of `provider_update`: only the provider itself may update;
/// the transferred value is added to the balance (saturating), the dataset
/// id is preserved, and the status is reset to Deactivated, so the provider
/// must stake again after any update.
pub open spec fn provider_update_post(
    pre: Prosopo,
    post: Prosopo,
    service_origin: HashValue,
    fee: u32,
    payee: Payee,
    provider_account: AccountId,
    caller: AccountId,
    transferred: Balance,
    r: Result<(), ProsopoError>,
) -> bool {
    if caller != provider_account {
        r == Err::<(), ProsopoError>(ProsopoError::NotAuthorised) && unchanged_state(pre, post)
    } else if !pre.providers@.contains_key(provider_account) {
        r == Err::<(), ProsopoError>(ProsopoError::ProviderDoesNotExist) && unchanged_state(
            pre,
            post,
        )
    } else {
        let existing = pre.providers@[provider_account];
        &&& r == Ok::<(), ProsopoError>(())
        &&& post.providers@ == pre.providers@.insert(
            provider_account,
            Provider {
                status: Status::Deactivated,
                balance: sat_add_u128(existing.balance, transferred),
                fee,
                payee,
                service_origin,
                captcha_dataset_id: existing.captcha_dataset_id,
            },
        )
        &&& post.events@ == pre.events@.push(
            ProsopoEvent::ProviderUpdate(ProviderUpdate { account: provider_account }),
        )
        &&& same_captcha_data(pre, post)
        &&& same_commitments(pre, post)
        &&& same_dapps(pre, post)
        &&& same_operators(pre, post)
        &&& same_users(pre, post)
        &&& same_config(pre, post)
        &&& same_transfers(pre, post)
    }
}

/// Exact effect of `provider_deregister`: a no-op unless the caller is an
/// operator; on success the provider's status is forced to Deactivated and
/// its balance is left untouched.
pub open spec fn provider_deregister_post(
    pre: Prosopo,
    post: Prosopo,
    provider_account: AccountId,
    caller: AccountId,
) -> bool {
    if pre.operators@.contains_key(caller) {
        &&& post.providers@ == pre.providers@.insert(
            provider_account,
            (Provider { status: Status::Deactivated, ..pre.providers@[provider_account] }),
        )
        &&& post.events@ == pre.events@.push(
            ProsopoEvent::ProviderDeregister(ProviderDeregister { account: provider_account }),
        )
        &&& same_captcha_data(pre, post)
        &&& same_commitments(pre, post)
        &&& same_dapps(pre, post)
        &&& same_operators(pre, post)
        &&& same_users(pre, post)
        &&& same_config(pre, post)
        &&& same_transfers(pre, post)
    } else {
        unchanged_state(pre, post)
    }
}

/// Exact effect of `provider_stake`: a call with no value attached is
/// rejected; a caller who is not a registered provider is refunded and
/// rejected; otherwise the transferred value is added to the balance
/// (saturating) and the provider turns Active exactly when the new balance
/// reaches the stake threshold.
pub open spec fn provider_stake_post(
    pre: Prosopo,
    post: Prosopo,
    caller: AccountId,
    transferred: Balance,
    r: Result<(), ProsopoError>,
) -> bool {
    if transferred == 0 {
        r == Err::<(), ProsopoError>(ProsopoError::InsufficientBalance) && unchanged_state(
            pre,
            post,
        )
    } else if !pre.providers@.contains_key(caller) {
        &&& r == Err::<(), ProsopoError>(ProsopoError::ProviderDoesNotExist)
        &&& post.transfers@ == pre.transfers@.push(
            TransferOut { to: caller, amount: transferred },
        )
        &&& same_providers(pre, post)
        &&& same_captcha_data(pre, post)
        &&& same_commitments(pre, post)
        &&& same_dapps(pre, post)
        &&& same_operators(pre, post)
        &&& same_users(pre, post)
        &&& same_config(pre, post)
        &&& same_events(pre, post)
    } else {
        let existing = pre.providers@[caller];
        let total = sat_add_u128(existing.balance, transferred);
        let new_status = if total >= pre.provider_stake_default {
            Status::Active
        } else {
            existing.status
        };
        &&& r == Ok::<(), ProsopoError>(())
        &&& post.providers@ == pre.providers@.insert(
            caller,
            (Provider { status: new_status, balance: total, ..existing }),
        )
        &&& post.events@ == pre.events@.push(
            ProsopoEvent::ProviderStake(ProviderStake { account: caller, value: total }),
        )
        &&& same_captcha_data(pre, post)
        &&& same_commitments(pre, post)
        &&& same_dapps(pre, post)
        &&& same_operators(pre, post)
        &&& same_users(pre, post)
        &&& same_config(pre, post)
        &&& same_transfers(pre, post)
    }
}

/// Exact effect of `provider_unstake`: an unregistered caller is rejected; a
/// provider with a zero balance no-ops successfully; otherwise the full
/// balance is refunded to the caller, the deregister transition is performed
/// (status Deactivated, stored balance untouched), and an unstake
/// notification carries the refunded amount.
pub open spec fn provider_unstake_post(
    pre: Prosopo,
    post: Prosopo,
    caller: AccountId,
    r: Result<(), ProsopoError>,
) -> bool {
    if !pre.providers@.contains_key(caller) {
        r == Err::<(), ProsopoError>(ProsopoError::ProviderDoesNotExist) && unchanged_state(
            pre,
            post,
        )
    } else {
        let balance = pre.providers@[caller].balance;
        if balance == 0 {
            r == Ok::<(), ProsopoError>(()) && unchanged_state(pre, post)
        } else {
            &&& r == Ok::<(), ProsopoError>(())
            &&& post.providers@ == pre.providers@.insert(
                caller,
                (Provider { status: Status::Deactivated, ..pre.providers@[caller] }),
            )
            &&& post.transfers@ == pre.transfers@.push(
                TransferOut { to: caller, amount: balance },
            )
            &&& post.events@ == pre.events@.push(
                ProsopoEvent::ProviderUnstake(ProviderUnstake { account: caller, value: balance }),
            )
            &&& same_captcha_data(pre, post)
            &&& same_commitments(pre, post)
            &&& same_dapps(pre, post)
            &&& same_operators(pre, post)
            &&& same_users(pre, post)
            &&& same_config(pre, post)
        }
    }
}

/// Exact effect of `provider_add_data_set`: the caller must pass the
/// provider validation gate; on success the dataset row is inserted (or
/// overwritten) under its Merkle tree root and that root becomes the
/// caller's dataset id.
pub open spec fn provider_add_data_set_post(
    pre: Prosopo,
    post: Prosopo,
    merkle_tree_root: HashValue,
    caller: AccountId,
    r: Result<(), ProsopoError>,
) -> bool {
    match spec_validate_provider(pre, caller) {
        Err(e) => r == Err::<(), ProsopoError>(e) && unchanged_state(pre, post),
        Ok(_) => {
            &&& r == Ok::<(), ProsopoError>(())
            &&& post.captcha_data@ == pre.captcha_data@.insert(
                merkle_tree_root,
                CaptchaData { provider: caller, merkle_tree_root, captcha_type: 0 },
            )
            &&& post.providers@ == pre.providers@.insert(
                caller,
                (Provider { captcha_dataset_id: merkle_tree_root, ..pre.providers@[caller] }),
            )
            &&& post.events@ == pre.events@.push(
                ProsopoEvent::ProviderAddDataset(
                    ProviderAddDataset { account: caller, merkle_tree_root },
                ),
            )
            &&& same_commitments(pre, post)
            &&& same_dapps(pre, post)
            &&& same_operators(pre, post)
            &&& same_users(pre, post)
            &&& same_config(pre, post)
            &&& same_transfers(pre, post)
        },
    }
}

impl Prosopo {
    /// Registers a provider together with its service origin and fee.
    /// Operator only; fails if a row already exists for the account.
    pub fn provider_register(
        &mut self,
        service_origin: HashValue,
        fee: u32,
        payee: Payee,
        provider_account: AccountId,
        caller: AccountId,
    ) -> (r: Result<(), ProsopoError>)
        requires
            old(self).wf(),
        ensures
            final(self).wf(),
            provider_register_post(
                *old(self),
                *final(self),
                service_origin,
                fee,
                payee,
                provider_account,
                caller,
                r,
            ),
    {
        if !self.operators.contains_key(caller) {
            return Err(ProsopoError::NotAuthorised);
        }
        if self.providers.contains_key(provider_account) {
            return Err(ProsopoError::ProviderExists);
        }
        let provider = Provider {
            status: Status::Deactivated,
            balance: 0,
            fee,
            payee,
            service_origin,
            captcha_dataset_id: EMPTY_HASH,
        };
        self.providers.insert(provider_account, provider);
        self.events.push(
            ProsopoEvent::ProviderRegister(ProviderRegister { account: provider_account }),
        );
        Ok(())
    }

    /// Updates an existing provider's service origin, fee, and payee. Only
    /// the provider itself may update; any value transferred with the call
    /// is added to the balance and the status is reset to Deactivated.
    pub fn provider_update(
        &mut self,
        service_origin: HashValue,
        fee: u32,
        payee: Payee,
        provider_account: AccountId,
        caller: AccountId,
        transferred: Balance,
    ) -> (r: Result<(), ProsopoError>)
        requires
            old(self).wf(),
        ensures
            final(self).wf(),
            provider_update_post(
                *old(self),
                *final(self),
                service_origin,
                fee,
                payee,
                provider_account,
                caller,
                transferred,
                r,
            ),
    {
        if caller != provider_account {
            return Err(ProsopoError::NotAuthorised);
        }
        let existing = match self.get_provider_details(provider_account) {
            Ok(details) => details,
            Err(e) => {
                return Err(e);
            },
        };
        let balance = saturating_add_u128(existing.balance, transferred);
        let provider = Provider {
            status: Status::Deactivated,
            balance,
            fee,
            payee,
            service_origin,
            captcha_dataset_id: existing.captcha_dataset_id,
        };
        self.providers.insert(provider_account, provider);
        self.events.push(
            ProsopoEvent::ProviderUpdate(ProviderUpdate { account: provider_account }),
        );
        Ok(())
    }

    /// Deregisters a provider by forcing its status to Deactivated; silently
    /// a no-op unless the caller is an operator. The balance is untouched.
    /// A registered provider row must exist when an operator calls this.
    pub fn provider_deregister(&mut self, provider_account: AccountId, caller: AccountId)
        requires
            old(self).wf(),
            old(self).operators@.contains_key(caller) ==> old(self).providers@.contains_key(
                provider_account,
            ),
        ensures
            final(self).wf(),
            provider_deregister_post(*old(self), *final(self), provider_account, caller),
    {
        if self.operators.contains_key(caller) {
            match self.get_provider_details(provider_account) {
                Ok(existing) => {
                    let updated = Provider { status: Status::Deactivated, ..existing };
                    self.providers.insert(provider_account, updated);
                    self.events.push(
                        ProsopoEvent::ProviderDeregister(
                            ProviderDeregister { account: provider_account },
                        ),
                    );
                },
                Err(_) => {
                    proof {
                        assert(false);
                    }
                },
            }
        }
    }

    /// Stakes the value transferred with the call and activates the
    /// provider's service once the balance reaches the stake threshold. A
    /// call with no value is rejected; an unregistered caller is refunded
    /// and rejected.
    pub fn provider_stake(&mut self, caller: AccountId, transferred: Balance) -> (r: Result<
        (),
        ProsopoError,
    >)
        requires
            old(self).wf(),
        ensures
            final(self).wf(),
            provider_stake_post(*old(self), *final(self), caller, transferred, r),
    {
        if transferred == 0 {
            return Err(ProsopoError::InsufficientBalance);
        }
        match self.get_provider_details(caller) {
            Ok(existing) => {
                let total = saturating_add_u128(existing.balance, transferred);
                let new_status = if total >= self.provider_stake_default {
                    Status::Active
                } else {
                    existing.status
                };
                let updated = Provider { status: new_status, balance: total, ..existing };
                self.providers.insert(caller, updated);
                self.events.push(
                    ProsopoEvent::ProviderStake(ProviderStake { account: caller, value: total }),
                );
                Ok(())
            },
            Err(_) => {
                self.transfers.push(TransferOut { to: caller, amount: transferred });
                Err(ProsopoError::ProviderDoesNotExist)
            },
        }
    }

    /// Unstakes: refunds the provider's full balance to the caller and
    /// performs the deregister transition. A provider with a zero balance
    /// no-ops successfully; an unregistered caller is rejected.
    pub fn provider_unstake(&mut self, caller: AccountId) -> (r: Result<(), ProsopoError>)
        requires
            old(self).wf(),
        ensures
            final(self).wf(),
            provider_unstake_post(*old(self), *final(self), caller, r),
    {
        match self.get_provider_details(caller) {
            Ok(existing) => {
                if existing.balance > 0 {
                    self.transfers.push(TransferOut { to: caller, amount: existing.balance });
                    let updated = Provider { status: Status::Deactivated, ..existing };
                    self.providers.insert(caller, updated);
                    self.events.push(
                        ProsopoEvent::ProviderUnstake(
                            ProviderUnstake { account: caller, value: existing.balance },
                        ),
                    );
                }
                Ok(())
            },
            Err(_) => Err(ProsopoError::ProviderDoesNotExist),
        }
    }

    /// Publishes a dataset: inserts (or overwrites) the dataset row keyed by
    /// its Merkle tree root and makes that root the caller's dataset id.
    /// The caller must pass the provider validation gate.
    pub fn provider_add_data_set(&mut self, merkle_tree_root: HashValue, caller: AccountId) -> (r:
        Result<(), ProsopoError>)
        requires
            old(self).wf(),
        ensures
            final(self).wf(),
            provider_add_data_set_post(*old(self), *final(self), merkle_tree_root, caller, r),
    {
        match self.validate_provider(caller) {
            Err(e) => Err(e),
            Ok(_) => {
                let dataset = CaptchaData {
                    provider: caller,
                    merkle_tree_root,
                    captcha_type: 0,
                };
                self.captcha_data.insert(merkle_tree_root, dataset);
                match self.get_provider_details(caller) {
                    Ok(existing) => {
                        let updated = Provider {
                            captcha_dataset_id: merkle_tree_root,
                            ..existing
                        };
                        self.providers.insert(caller, updated);
                        self.events.push(
                            ProsopoEvent::ProviderAddDataset(
                                ProviderAddDataset { account: caller, merkle_tree_root },
                            ),
                        );
                        Ok(())
                    },
                    Err(_) => {
                        proof {
                            assert(false);
                        }
                        Err(ProsopoError::ProviderDoesNotExist)
                    },
                }
            },
        }
    }
}

} // verus!
