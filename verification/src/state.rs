//! The protocol state aggregate, its well-formedness invariant, the
//! read-only validation gates, and the informational queries.

use vstd::prelude::*;

use crate::store::StoreMap;
use crate::types::AccountId;
use crate::types::Balance;
use crate::types::CaptchaData;
use crate::types::CaptchaSolutionCommitment;
use crate::types::Dapp;
use crate::types::HashValue;
use crate::types::ProsopoError;
use crate::types::ProsopoEvent;
use crate::types::Provider;
use crate::types::Status;
use crate::types::TransferOut;
use crate::types::User;
use crate::types::EMPTY_HASH;

verus! {

/// The protocol's stake threshold: the minimum provider balance required to
/// turn Active by staking.
pub const STAKE_THRESHOLD_DEFAULT: Balance = 10;

/// The protocol instance: the registries, the commitment ledger, the
/// configuration, and the two effect logs (notifications emitted and
/// outgoing transfers requested).
pub struct Prosopo {
    pub providers: StoreMap<Provider>,
    pub captcha_data: StoreMap<CaptchaData>,
    pub captcha_solution_commitments: StoreMap<CaptchaSolutionCommitment>,
    /// Highest commitment index handed out so far; indexes start at 1.
    pub captcha_solution_commitments_max_index: u64,
    /// Minimum provider balance required to become Active by staking.
    pub provider_stake_default: Balance,
    pub dapps: StoreMap<Dapp>,
    /// Present key = the account is an operator.
    pub operators: StoreMap<bool>,
    pub status: Status,
    pub operator_stake_default: u64,
    pub operator_fee_currency: HashValue,
    pub dapp_users: StoreMap<User>,
    /// Notifications emitted so far, oldest first.
    pub events: Vec<ProsopoEvent>,
    /// Outgoing transfers requested so far, oldest first.
    pub transfers: Vec<TransferOut>,
}

impl Prosopo {
    /// Well-formed state: every registry is well-formed and the commitment
    /// ledger holds exactly the indexes 1 through the max index, gapless.
    pub open spec fn wf(&self) -> bool {
        &&& self.providers.wf()
        &&& self.captcha_data.wf()
        &&& self.captcha_solution_commitments.wf()
        &&& self.dapps.wf()
        &&& self.operators.wf()
        &&& self.dapp_users.wf()
        &&& forall|id: u64|
            #[trigger] self.captcha_solution_commitments@.contains_key(id) <==> 1 <= id
                <= self.captcha_solution_commitments_max_index
    }
}

/// The provider registry and its rows are the same in both states.
pub open spec fn same_providers(pre: Prosopo, post: Prosopo) -> bool {
    post.providers@ == pre.providers@
}

/// The dataset registry is the same in both states.
pub open spec fn same_captcha_data(pre: Prosopo, post: Prosopo) -> bool {
    post.captcha_data@ == pre.captcha_data@
}

/// The commitment ledger and its index counter are the same in both states.
pub open spec fn same_commitments(pre: Prosopo, post: Prosopo) -> bool {
    &&& post.captcha_solution_commitments@ == pre.captcha_solution_commitments@
    &&& post.captcha_solution_commitments_max_index == pre.captcha_solution_commitments_max_index
}

/// The dapp registry is the same in both states.
pub open spec fn same_dapps(pre: Prosopo, post: Prosopo) -> bool {
    post.dapps@ == pre.dapps@
}

/// The operator set is the same in both states.
pub open spec fn same_operators(pre: Prosopo, post: Prosopo) -> bool {
    post.operators@ == pre.operators@
}

/// The user reputation registry is the same in both states.
pub open spec fn same_users(pre: Prosopo, post: Prosopo) -> bool {
    post.dapp_users@ == pre.dapp_users@
}

/// The protocol configuration is the same in both states.
pub open spec fn same_config(pre: Prosopo, post: Prosopo) -> bool {
    &&& post.provider_stake_default == pre.provider_stake_default
    &&& post.status == pre.status
    &&& post.operator_stake_default == pre.operator_stake_default
    &&& post.operator_fee_currency == pre.operator_fee_currency
}

/// No notification was emitted between the two states.
pub open spec fn same_events(pre: Prosopo, post: Prosopo) -> bool {
    post.events@ == pre.events@
}

/// No outgoing transfer was requested between the two states.
pub open spec fn same_transfers(pre: Prosopo, post: Prosopo) -> bool {
    post.transfers@ == pre.transfers@
}

/// Nothing observable changed between the two states.
pub open spec fn unchanged_state(pre: Prosopo, post: Prosopo) -> bool {
    &&& same_providers(pre, post)
    &&& same_captcha_data(pre, post)
    &&& same_commitments(pre, post)
    &&& same_dapps(pre, post)
    &&& same_operators(pre, post)
    &&& same_users(pre, post)
    &&& same_config(pre, post)
    &&& same_events(pre, post)
    &&& same_transfers(pre, post)
}

/// The provider validation gate: registered, Active, and funded.
pub open spec fn spec_validate_provider(s: Prosopo, provider_id: AccountId) -> Result<
    (),
    ProsopoError,
> {
    if !s.providers@.contains_key(provider_id) {
        Err(ProsopoError::ProviderDoesNotExist)
    } else if s.providers@[provider_id].status != Status::Active {
        Err(ProsopoError::ProviderInactive)
    } else if s.providers@[provider_id].balance == 0 {
        Err(ProsopoError::ProviderInsufficientFunds)
    } else {
        Ok(())
    }
}

/// The dapp validation gate: registered, Active, and funded.
pub open spec fn spec_validate_dapp(s: Prosopo, contract: AccountId) -> Result<(), ProsopoError> {
    if !s.dapps@.contains_key(contract) {
        Err(ProsopoError::DappDoesNotExist)
    } else if s.dapps@[contract].status != Status::Active {
        Err(ProsopoError::DappInactive)
    } else if s.dapps@[contract].balance == 0 {
        Err(ProsopoError::DappInsufficientFunds)
    } else {
        Ok(())
    }
}

/// Looking a commitment up on behalf of the owner of `captcha_dataset_id`:
/// the id must be known and the stored commitment must belong to that
/// dataset, which binds adjudication rights to the dataset's provider.
pub open spec fn spec_commitment_lookup(
    s: Prosopo,
    captcha_solution_commitment_id: u64,
    captcha_dataset_id: HashValue,
) -> Result<CaptchaSolutionCommitment, ProsopoError> {
    if !s.captcha_solution_commitments@.contains_key(captcha_solution_commitment_id) {
        Err(ProsopoError::CaptchaSolutionCommitmentDoesNotExist)
    } else if s.captcha_solution_commitments@[captcha_solution_commitment_id].captcha_dataset_id
        != captcha_dataset_id {
        Err(ProsopoError::NotAuthorised)
    } else {
        Ok(s.captcha_solution_commitments@[captcha_solution_commitment_id])
    }
}

/// The dapp's stored balance, or 0 for an unknown identity.
pub open spec fn spec_dapp_balance(s: Prosopo, dapp: AccountId) -> Balance {
    if s.dapps@.contains_key(dapp) {
        s.dapps@[dapp].balance
    } else {
        0
    }
}

/// The provider's stored balance, or 0 for an unknown identity.
pub open spec fn spec_provider_balance(s: Prosopo, provider: AccountId) -> Balance {
    if s.providers@.contains_key(provider) {
        s.providers@[provider].balance
    } else {
        0
    }
}

impl Prosopo {
    /// A fresh protocol instance seeded with one operator.
    pub fn default(operator: AccountId) -> (r: Prosopo)
        ensures
            r.wf(),
            r.providers@ == Map::<AccountId, Provider>::empty(),
            r.captcha_data@ == Map::<HashValue, CaptchaData>::empty(),
            r.captcha_solution_commitments@ == Map::<u64, CaptchaSolutionCommitment>::empty(),
            r.captcha_solution_commitments_max_index == 0,
            r.provider_stake_default == STAKE_THRESHOLD_DEFAULT,
            r.dapps@ == Map::<AccountId, Dapp>::empty(),
            r.operators@ == Map::<AccountId, bool>::empty().insert(operator, true),
            r.status == Status::Active,
            r.operator_stake_default == 0,
            r.operator_fee_currency == EMPTY_HASH,
            r.dapp_users@ == Map::<AccountId, User>::empty(),
            r.events@ == Seq::<ProsopoEvent>::empty(),
            r.transfers@ == Seq::<TransferOut>::empty(),
    {
        let mut operators: StoreMap<bool> = StoreMap::new();
        operators.insert(operator, true);
        let r = Prosopo {
            providers: StoreMap::new(),
            captcha_data: StoreMap::new(),
            captcha_solution_commitments: StoreMap::new(),
            captcha_solution_commitments_max_index: 0,
            provider_stake_default: STAKE_THRESHOLD_DEFAULT,
            dapps: StoreMap::new(),
            operators,
            status: Status::Active,
            operator_stake_default: 0,
            operator_fee_currency: EMPTY_HASH,
            dapp_users: StoreMap::new(),
            events: Vec::new(),
            transfers: Vec::new(),
        };
        proof {
            assert(r.events@ =~= Seq::<ProsopoEvent>::empty());
            assert(r.transfers@ =~= Seq::<TransferOut>::empty());
        }
        r
    }

    /// The provider validation gate (read-only).
    pub(crate) fn validate_provider(&self, provider_id: AccountId) -> (r: Result<
        (),
        ProsopoError,
    >)
        requires
            self.wf(),
        ensures
            r == spec_validate_provider(*self, provider_id),
    {
        match self.providers.get(provider_id) {
            None => Err(ProsopoError::ProviderDoesNotExist),
            Some(provider) => {
                if provider.status != Status::Active {
                    Err(ProsopoError::ProviderInactive)
                } else if provider.balance == 0 {
                    Err(ProsopoError::ProviderInsufficientFunds)
                } else {
                    Ok(())
                }
            },
        }
    }

    /// The dapp validation gate (read-only).
    pub(crate) fn validate_dapp(&self, contract: AccountId) -> (r: Result<(), ProsopoError>)
        requires
            self.wf(),
        ensures
            r == spec_validate_dapp(*self, contract),
    {
        match self.dapps.get(contract) {
            None => Err(ProsopoError::DappDoesNotExist),
            Some(dapp) => {
                if dapp.status != Status::Active {
                    Err(ProsopoError::DappInactive)
                } else if dapp.balance == 0 {
                    Err(ProsopoError::DappInsufficientFunds)
                } else {
                    Ok(())
                }
            },
        }
    }

    /// A copy of the commitment under `captcha_solution_commitment_id`, if it
    /// is known and belongs to the given dataset.
    pub fn get_captcha_solution_commitment(
        &self,
        captcha_solution_commitment_id: u64,
        captcha_dataset_id: HashValue,
    ) -> (r: Result<CaptchaSolutionCommitment, ProsopoError>)
        requires
            self.wf(),
        ensures
            r == spec_commitment_lookup(*self, captcha_solution_commitment_id, captcha_dataset_id),
    {
        match self.captcha_solution_commitments.get(captcha_solution_commitment_id) {
            None => Err(ProsopoError::CaptchaSolutionCommitmentDoesNotExist),
            Some(commitment) => {
                if commitment.captcha_dataset_id != captcha_dataset_id {
                    Err(ProsopoError::NotAuthorised)
                } else {
                    Ok(*commitment)
                }
            },
        }
    }

    /// A copy of the user's reputation counters; an error if the user has
    /// never committed a solution.
    pub fn get_dapp_user(&self, dapp_user_id: AccountId) -> (r: Result<User, ProsopoError>)
        requires
            self.wf(),
        ensures
            match r {
                Ok(user) => self.dapp_users@.contains_key(dapp_user_id) && user
                    == self.dapp_users@[dapp_user_id],
                Err(e) => !self.dapp_users@.contains_key(dapp_user_id) && e
                    == ProsopoError::DappUserDoesNotExist,
            },
    {
        match self.dapp_users.get(dapp_user_id) {
            None => Err(ProsopoError::DappUserDoesNotExist),
            Some(user) => Ok(*user),
        }
    }

    /// All registered provider accounts, each exactly once.
    pub fn get_providers(&self) -> (r: Vec<AccountId>)
        requires
            self.wf(),
        ensures
            r@.len() == self.providers@.dom().len(),
            forall|k: AccountId| #[trigger] self.providers@.contains_key(k) ==> r@.contains(k),
            forall|i: int| 0 <= i < r@.len() ==> self.providers@.contains_key(#[trigger] r@[i]),
            forall|i: int, j: int| 0 <= i < j < r@.len() ==> r@[i] != r@[j],
    {
        self.providers.keys()
    }

    /// A copy of the provider row, or an error if unregistered.
    pub fn get_provider_details(&self, accountid: AccountId) -> (r: Result<Provider, ProsopoError>)
        requires
            self.wf(),
        ensures
            match r {
                Ok(provider) => self.providers@.contains_key(accountid) && provider
                    == self.providers@[accountid],
                Err(e) => !self.providers@.contains_key(accountid) && e
                    == ProsopoError::ProviderDoesNotExist,
            },
    {
        match self.providers.get(accountid) {
            None => Err(ProsopoError::ProviderDoesNotExist),
            Some(provider) => Ok(*provider),
        }
    }

    /// All registered dapp contract accounts, each exactly once.
    pub fn get_dapps(&self) -> (r: Vec<AccountId>)
        requires
            self.wf(),
        ensures
            r@.len() == self.dapps@.dom().len(),
            forall|k: AccountId| #[trigger] self.dapps@.contains_key(k) ==> r@.contains(k),
            forall|i: int| 0 <= i < r@.len() ==> self.dapps@.contains_key(#[trigger] r@[i]),
            forall|i: int, j: int| 0 <= i < j < r@.len() ==> r@[i] != r@[j],
    {
        self.dapps.keys()
    }

    /// A copy of the dapp row, or an error if unregistered.
    pub fn get_dapp_details(&self, contract: AccountId) -> (r: Result<Dapp, ProsopoError>)
        requires
            self.wf(),
        ensures
            match r {
                Ok(dapp) => self.dapps@.contains_key(contract) && dapp == self.dapps@[contract],
                Err(e) => !self.dapps@.contains_key(contract) && e
                    == ProsopoError::DappDoesNotExist,
            },
    {
        match self.dapps.get(contract) {
            None => Err(ProsopoError::DappDoesNotExist),
            Some(dapp) => Ok(*dapp),
        }
    }

    /// All operator accounts, each exactly once.
    pub fn get_operators(&self) -> (r: Vec<AccountId>)
        requires
            self.wf(),
        ensures
            r@.len() == self.operators@.dom().len(),
            forall|k: AccountId| #[trigger] self.operators@.contains_key(k) ==> r@.contains(k),
            forall|i: int| 0 <= i < r@.len() ==> self.operators@.contains_key(#[trigger] r@[i]),
            forall|i: int, j: int| 0 <= i < j < r@.len() ==> r@[i] != r@[j],
    {
        self.operators.keys()
    }

    /// The dapp's stored balance; 0 for an unknown identity, never an error.
    pub fn get_dapp_balance(&self, dapp: AccountId) -> (r: Balance)
        requires
            self.wf(),
        ensures
            r == spec_dapp_balance(*self, dapp),
    {
        match self.get_dapp_details(dapp) {
            Ok(details) => details.balance,
            Err(_) => 0,
        }
    }

    /// The provider's stored balance; 0 for an unknown identity, never an
    /// error.
    pub fn get_provider_balance(&self, provider: AccountId) -> (r: Balance)
        requires
            self.wf(),
        ensures
            r == spec_provider_balance(*self, provider),
    {
        match self.get_provider_details(provider) {
            Ok(details) => details.balance,
            Err(_) => 0,
        }
    }
}

} // verus!
