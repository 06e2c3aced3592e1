//! Operator administration and the named extension points for disputes and
//! reports. The extension points are deliberately state-preserving no-ops:
//! they reserve the operation names and signatures as seams for future
//! behaviour without defining any yet.

use vstd::prelude::*;

use crate::state::same_captcha_data;
use crate::state::same_commitments;
use crate::state::same_config;
use crate::state::same_dapps;
use crate::state::same_events;
use crate::state::same_providers;
use crate::state::same_transfers;
use crate::state::same_users;
use crate::state::unchanged_state;
use crate::state::Prosopo;
use crate::types::AccountId;
use crate::types::HashValue;

verus! {

/// Exact effect of `add_prosopo_operator`: an existing operator may add a
/// new operator; anyone else's call is a silent no-op.
pub open spec fn add_operator_post(
    pre: Prosopo,
    post: Prosopo,
    operator: AccountId,
    caller: AccountId,
) -> bool {
    if pre.operators@.contains_key(caller) {
        &&& post.operators@ == pre.operators@.insert(operator, true)
        &&& same_providers(pre, post)
        &&& same_captcha_data(pre, post)
        &&& same_commitments(pre, post)
        &&& same_dapps(pre, post)
        &&& same_users(pre, post)
        &&& same_config(pre, post)
        &&& same_events(pre, post)
        &&& same_transfers(pre, post)
    } else {
        unchanged_state(pre, post)
    }
}

impl Prosopo {
    /// Adds an operator; a no-op unless the caller is already an operator.
    pub fn add_prosopo_operator(&mut self, operator: AccountId, caller: AccountId)
        requires
            old(self).wf(),
        ensures
            final(self).wf(),
            add_operator_post(*old(self), *final(self), operator, caller),
    {
        if self.operators.contains_key(caller) {
            self.operators.insert(operator, true);
        }
    }

    /// Extension point: report a provider that has let bots through.
    /// Leaves the state unchanged.
    pub fn dapp_operator_report_provider(
        &mut self,
        provider_id: AccountId,
        bot_users: Vec<AccountId>,
    )
        requires
            old(self).wf(),
        ensures
            final(self).wf(),
            unchanged_state(*old(self), *final(self)),
    {
        let _ = provider_id;
        let _ = bot_users;
    }

    /// Extension point: report poor-quality or nonsensical CAPTCHA data.
    /// Leaves the state unchanged.
    pub fn dapp_user_report_bad_captcha_data(
        &mut self,
        captcha_dataset_id: u64,
        merkle_path: Vec<HashValue>,
    )
        requires
            old(self).wf(),
        ensures
            final(self).wf(),
            unchanged_state(*old(self), *final(self)),
    {
        let _ = captcha_dataset_id;
        let _ = merkle_path;
    }

    /// Extension point: dispute a solution verdict a provider handed out.
    /// Leaves the state unchanged.
    pub fn dapp_user_dispute_solution(
        &mut self,
        captcha_solution_commitment_id: u64,
        merkle_proof: Vec<HashValue>,
    )
        requires
            old(self).wf(),
        ensures
            final(self).wf(),
            unchanged_state(*old(self), *final(self)),
    {
        let _ = captcha_solution_commitment_id;
        let _ = merkle_proof;
    }

    /// Extension point: administrate a provider's solutions after reports.
    /// Leaves the state unchanged.
    pub fn operators_dispute_solution(&mut self, captcha_dataset_id: u64)
        requires
            old(self).wf(),
        ensures
            final(self).wf(),
            unchanged_state(*old(self), *final(self)),
    {
        let _ = captcha_dataset_id;
    }

    /// Extension point: replace or extend the operator set in one call.
    /// Leaves the state unchanged.
    pub fn operators_update_operators(&mut self, new_operators: Vec<AccountId>)
        requires
            old(self).wf(),
        ensures
            final(self).wf(),
            unchanged_state(*old(self), *final(self)),
    {
        let _ = new_operators;
    }
}

} // verus!
