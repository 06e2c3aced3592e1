//! Dapp lifecycle operations: registration (idempotent-as-update), funding,
//! and cancellation.

use vstd::prelude::*;

use crate::state::same_captcha_data;
use crate::state::same_commitments;
use crate::state::same_config;
use crate::state::same_dapps;
use crate::state::same_events;
use crate::state::same_operators;
use crate::state::same_providers;
use crate::state::same_transfers;
use crate::state::same_users;
use crate::state::unchanged_state;
use crate::state::Prosopo;
use crate::types::sat_add_u128;
use crate::types::saturating_add_u128;
use crate::types::AccountId;
use crate::types::Balance;
use crate::types::Dapp;
use crate::types::DappCancel;
use crate::types::DappFund;
use crate::types::DappRegister;
use crate::types::DappUpdate;
use crate::types::HashValue;
use crate::types::ProsopoError;
use crate::types::ProsopoEvent;
use crate::types::Status;
use crate::types::TransferOut;

verus! {

/// Exact effect of the internal dapp update (also the second-call behaviour
/// of `dapp_register`): only the stored owner may change the row; anyone
/// else is refunded the transferred value and nothing changes. On success
/// the transferred value is added to the balance (saturating), origin and
/// owner are overwritten, and the dapp is Active exactly when the resulting
/// balance is positive.
pub open spec fn dapp_update_post(
    pre: Prosopo,
    post: Prosopo,
    owner: AccountId,
    transferred: Balance,
    client_origin: HashValue,
    contract: AccountId,
    caller: AccountId,
) -> bool {
    if !pre.dapps@.contains_key(contract) {
        unchanged_state(pre, post)
    } else if pre.dapps@[contract].owner == caller {
        let existing = pre.dapps@[contract];
        let total = sat_add_u128(existing.balance, transferred);
        let new_status = if total > 0 {
            Status::Active
        } else {
            Status::Suspended
        };
        &&& post.dapps@ == pre.dapps@.insert(
            contract,
            Dapp {
                status: new_status,
                balance: total,
                owner,
                min_difficulty: existing.min_difficulty,
                client_origin,
            },
        )
        &&& post.events@ == pre.events@.push(
            ProsopoEvent::DappUpdate(DappUpdate { contract, owner, client_origin, value: total }),
        )
        &&& same_providers(pre, post)
        &&& same_captcha_data(pre, post)
        &&& same_commitments(pre, post)
        &&& same_operators(pre, post)
        &&& same_users(pre, post)
        &&& same_config(pre, post)
        &&& same_transfers(pre, post)
    } else {
        &&& post.transfers@ == pre.transfers@.push(
            TransferOut { to: caller, amount: transferred },
        )
        &&& same_providers(pre, post)
        &&& same_captcha_data(pre, post)
        &&& same_commitments(pre, post)
        &&& same_dapps(pre, post)
        &&& same_operators(pre, post)
        &&& same_users(pre, post)
        &&& same_config(pre, post)
        &&& same_events(pre, post)
    }
}

/// Exact effect of `dapp_register`: for a fresh contract identity a new row
/// is created (Active when value was transferred, else Suspended, minimum
/// difficulty 1) and a registration notification is emitted; for a known
/// identity the call behaves as an update instead of erroring.
pub open spec fn dapp_register_post(
    pre: Prosopo,
    post: Prosopo,
    client_origin: HashValue,
    contract: AccountId,
    optional_owner: Option<AccountId>,
    caller: AccountId,
    transferred: Balance,
) -> bool {
    let owner = match optional_owner {
        Some(chosen) => chosen,
        None => caller,
    };
    if !pre.dapps@.contains_key(contract) {
        let status = if transferred > 0 {
            Status::Active
        } else {
            Status::Suspended
        };
        &&& post.dapps@ == pre.dapps@.insert(
            contract,
            Dapp { status, balance: transferred, owner, min_difficulty: 1, client_origin },
        )
        &&& post.events@ == pre.events@.push(
            ProsopoEvent::DappRegister(
                DappRegister { contract, owner, client_origin, value: transferred },
            ),
        )
        &&& same_providers(pre, post)
        &&& same_captcha_data(pre, post)
        &&& same_commitments(pre, post)
        &&& same_operators(pre, post)
        &&& same_users(pre, post)
        &&& same_config(pre, post)
        &&& same_transfers(pre, post)
    } else {
        dapp_update_post(pre, post, owner, transferred, client_origin, contract, caller)
    }
}

/// Exact effect of `dapp_fund`: for an unknown contract, or a caller who is
/// not the owner, the transferred value is refunded and nothing changes.
/// Otherwise the value is added to the balance (saturating); a positive
/// resulting balance turns the dapp Active and emits a fund notification, a
/// zero resulting balance suspends it silently.
pub open spec fn dapp_fund_post(
    pre: Prosopo,
    post: Prosopo,
    contract: AccountId,
    caller: AccountId,
    transferred: Balance,
) -> bool {
    if pre.dapps@.contains_key(contract) && pre.dapps@[contract].owner == caller {
        let existing = pre.dapps@[contract];
        let total = sat_add_u128(existing.balance, transferred);
        &&& post.dapps@ == pre.dapps@.insert(
            contract,
            (Dapp {
                status: if total > 0 {
                    Status::Active
                } else {
                    Status::Suspended
                },
                balance: total,
                ..existing
            }),
        )
        &&& post.events@ == (if total > 0 {
            pre.events@.push(ProsopoEvent::DappFund(DappFund { contract, value: total }))
        } else {
            pre.events@
        })
        &&& same_providers(pre, post)
        &&& same_captcha_data(pre, post)
        &&& same_commitments(pre, post)
        &&& same_operators(pre, post)
        &&& same_users(pre, post)
        &&& same_config(pre, post)
        &&& same_transfers(pre, post)
    } else {
        &&& post.transfers@ == pre.transfers@.push(
            TransferOut { to: caller, amount: transferred },
        )
        &&& same_providers(pre, post)
        &&& same_captcha_data(pre, post)
        &&& same_commitments(pre, post)
        &&& same_dapps(pre, post)
        &&& same_operators(pre, post)
        &&& same_users(pre, post)
        &&& same_config(pre, post)
        &&& same_events(pre, post)
    }
}

/// Exact effect of `dapp_cancel`: unknown contracts and non-owners are
/// rejected; a dapp with a zero balance no-ops successfully; otherwise the
/// full balance is refunded to the caller, the dapp is deregistered (status
/// Deactivated, balance zeroed), and a cancel notification carries the
/// refunded amount.
pub open spec fn dapp_cancel_post(
    pre: Prosopo,
    post: Prosopo,
    contract: AccountId,
    caller: AccountId,
    r: Result<(), ProsopoError>,
) -> bool {
    if !pre.dapps@.contains_key(contract) {
        r == Err::<(), ProsopoError>(ProsopoError::DappDoesNotExist) && unchanged_state(pre, post)
    } else if pre.dapps@[contract].owner != caller {
        r == Err::<(), ProsopoError>(ProsopoError::NotAuthorised) && unchanged_state(pre, post)
    } else {
        let balance = pre.dapps@[contract].balance;
        if balance == 0 {
            r == Ok::<(), ProsopoError>(()) && unchanged_state(pre, post)
        } else {
            &&& r == Ok::<(), ProsopoError>(())
            &&& post.dapps@ == pre.dapps@.insert(
                contract,
                (Dapp { status: Status::Deactivated, balance: 0, ..pre.dapps@[contract] }),
            )
            &&& post.transfers@ == pre.transfers@.push(
                TransferOut { to: caller, amount: balance },
            )
            &&& post.events@ == pre.events@.push(
                ProsopoEvent::DappCancel(DappCancel { contract, value: balance }),
            )
            &&& same_providers(pre, post)
            &&& same_captcha_data(pre, post)
            &&& same_commitments(pre, post)
            &&& same_operators(pre, post)
            &&& same_users(pre, post)
            &&& same_config(pre, post)
        }
    }
}

impl Prosopo {
    /// Registers a dapp under its contract identity, or updates it when the
    /// identity is already known. The owner defaults to the caller when no
    /// owner is passed.
    pub fn dapp_register(
        &mut self,
        client_origin: HashValue,
        contract: AccountId,
        optional_owner: Option<AccountId>,
        caller: AccountId,
        transferred: Balance,
    )
        requires
            old(self).wf(),
        ensures
            final(self).wf(),
            dapp_register_post(
                *old(self),
                *final(self),
                client_origin,
                contract,
                optional_owner,
                caller,
                transferred,
            ),
    {
        let owner = match optional_owner {
            Some(chosen) => chosen,
            None => caller,
        };
        if !self.dapps.contains_key(contract) {
            let status = if transferred > 0 {
                Status::Active
            } else {
                Status::Suspended
            };
            let dapp = Dapp { status, balance: transferred, owner, min_difficulty: 1, client_origin };
            self.dapps.insert(contract, dapp);
            self.events.push(
                ProsopoEvent::DappRegister(
                    DappRegister { contract, owner, client_origin, value: transferred },
                ),
            );
        } else {
            self.dapp_update(owner, transferred, client_origin, contract, caller);
        }
    }

    /// Updates a dapp row with new funds, origin, and owner; refunds the
    /// caller instead when they do not own the row.
    fn dapp_update(
        &mut self,
        owner: AccountId,
        transferred: Balance,
        client_origin: HashValue,
        contract: AccountId,
        caller: AccountId,
    )
        requires
            old(self).wf(),
        ensures
            final(self).wf(),
            dapp_update_post(
                *old(self),
                *final(self),
                owner,
                transferred,
                client_origin,
                contract,
                caller,
            ),
    {
        match self.get_dapp_details(contract) {
            Err(_) => {},
            Ok(existing) => {
                if existing.owner == caller {
                    let total = saturating_add_u128(existing.balance, transferred);
                    let new_status = if total > 0 {
                        Status::Active
                    } else {
                        Status::Suspended
                    };
                    let updated = Dapp {
                        status: new_status,
                        balance: total,
                        owner,
                        min_difficulty: existing.min_difficulty,
                        client_origin,
                    };
                    self.dapps.insert(contract, updated);
                    self.events.push(
                        ProsopoEvent::DappUpdate(
                            DappUpdate { contract, owner, client_origin, value: total },
                        ),
                    );
                } else {
                    self.transfers.push(TransferOut { to: caller, amount: transferred });
                }
            },
        }
    }

    /// Funds a dapp to pay for its users' solutions; refunds the caller when
    /// the contract is unknown or the caller does not own it.
    pub fn dapp_fund(&mut self, contract: AccountId, caller: AccountId, transferred: Balance)
        requires
            old(self).wf(),
        ensures
            final(self).wf(),
            dapp_fund_post(*old(self), *final(self), contract, caller, transferred),
    {
        match self.get_dapp_details(contract) {
            Ok(existing) => {
                if existing.owner == caller {
                    let total = saturating_add_u128(existing.balance, transferred);
                    if total > 0 {
                        let updated = Dapp { status: Status::Active, balance: total, ..existing };
                        self.dapps.insert(contract, updated);
                        self.events.push(
                            ProsopoEvent::DappFund(DappFund { contract, value: total }),
                        );
                    } else {
                        let updated = Dapp {
                            status: Status::Suspended,
                            balance: total,
                            ..existing
                        };
                        self.dapps.insert(contract, updated);
                    }
                } else {
                    self.transfers.push(TransferOut { to: caller, amount: transferred });
                }
            },
            Err(_) => {
                self.transfers.push(TransferOut { to: caller, amount: transferred });
            },
        }
    }

    /// Cancels a dapp's service: refunds its remaining balance to the owner
    /// and deregisters the row. Owner only.
    pub fn dapp_cancel(&mut self, contract: AccountId, caller: AccountId) -> (r: Result<
        (),
        ProsopoError,
    >)
        requires
            old(self).wf(),
        ensures
            final(self).wf(),
            dapp_cancel_post(*old(self), *final(self), contract, caller, r),
    {
        let existing = match self.get_dapp_details(contract) {
            Ok(details) => details,
            Err(e) => {
                return Err(e);
            },
        };
        if existing.owner != caller {
            return Err(ProsopoError::NotAuthorised);
        }
        if existing.balance > 0 {
            self.transfers.push(TransferOut { to: caller, amount: existing.balance });
            self.dapp_deregister(contract);
            self.events.push(
                ProsopoEvent::DappCancel(DappCancel { contract, value: existing.balance }),
            );
        }
        Ok(())
    }

    /// Deregisters a dapp: status forced to Deactivated and balance zeroed;
    /// the row is retained.
    fn dapp_deregister(&mut self, contract: AccountId)
        requires
            old(self).wf(),
            old(self).dapps@.contains_key(contract),
        ensures
            final(self).wf(),
            final(self).dapps@ == old(self).dapps@.insert(
                contract,
                (Dapp { status: Status::Deactivated, balance: 0, ..old(self).dapps@[contract] }),
            ),
            same_providers(*old(self), *final(self)),
            same_captcha_data(*old(self), *final(self)),
            same_commitments(*old(self), *final(self)),
            same_operators(*old(self), *final(self)),
            same_users(*old(self), *final(self)),
            same_config(*old(self), *final(self)),
            same_events(*old(self), *final(self)),
            same_transfers(*old(self), *final(self)),
    {
        match self.get_dapp_details(contract) {
            Ok(existing) => {
                let updated = Dapp { status: Status::Deactivated, balance: 0, ..existing };
                self.dapps.insert(contract, updated);
            },
            Err(_) => {
                proof {
                    assert(false);
                }
            },
        }
    }
}

} // verus!
