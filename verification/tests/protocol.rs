//! The protocol exercised end to end: registration, staking, datasets,
//! dapp lifecycle, commitments, and adjudication.

use prosopo::Payee;
use prosopo::Prosopo;
use prosopo::ProsopoError;
use prosopo::ProsopoEvent;
use prosopo::ProviderAddDataset;
use prosopo::ProviderRegister;
use prosopo::ProviderStake;
use prosopo::ProviderUnstake;
use prosopo::Status;
use prosopo::TransferOut;

/// Helper for deriving a stable content identifier from a string.
fn str_to_hash(text: String) -> u64 {
    let mut result: u64 = 0xcbf29ce484222325;
    for byte in text.bytes() {
        result ^= byte as u64;
        result = result.wrapping_mul(0x100000001b3);
    }
    result
}

#[test]
fn test_default_works() {
    let operator_account: u64 = 1;
    let contract = Prosopo::default(operator_account);
    assert!(contract.operators.contains_key(operator_account));
}

#[test]
fn test_provider_register() {
    let operator_account: u64 = 1;
    let mut contract = Prosopo::default(operator_account);
    let provider_account: u64 = 2;
    let service_origin = str_to_hash("https://localhost:2424".to_string());
    let fee: u32 = 0;
    contract
        .provider_register(service_origin, fee, Payee::Provider, provider_account, operator_account)
        .ok();
    assert!(contract.providers.contains_key(provider_account));
}

#[test]
fn test_provider_deregister() {
    let operator_account: u64 = 1;
    let mut contract = Prosopo::default(operator_account);
    let provider_account: u64 = 2;
    let service_origin = str_to_hash("https://localhost:2424".to_string());
    let fee: u32 = 0;
    contract
        .provider_register(service_origin, fee, Payee::Provider, provider_account, operator_account)
        .ok();
    assert!(contract.providers.contains_key(provider_account));
    contract.provider_deregister(provider_account, operator_account);
    let provider_record = contract.providers.get(provider_account).unwrap();
    assert!(provider_record.status == Status::Deactivated);
}

#[test]
fn test_provider_stake() {
    let operator_account: u64 = 1;
    let mut contract = Prosopo::default(operator_account);
    let provider_account: u64 = 2;
    let service_origin = str_to_hash("https://localhost:2424".to_string());
    let fee: u32 = 0;
    let balance: u128 = 10;
    contract
        .provider_register(service_origin, fee, Payee::Provider, provider_account, operator_account)
        .ok();
    contract.provider_stake(provider_account, balance).ok();

    // first event is the register event, second event is the stake event
    assert_eq!(2, contract.events.len());

    let event_register = &contract.events[0];
    if let ProsopoEvent::ProviderRegister(ProviderRegister { account }) = event_register {
        assert_eq!(*account, provider_account, "encountered invalid ProviderStake.account");
    } else {
        panic!("encountered unexpected event kind: expected a ProviderRegister event");
    }

    let event_stake = &contract.events[1];
    if let ProsopoEvent::ProviderStake(ProviderStake { account, value }) = event_stake {
        assert_eq!(*account, provider_account, "encountered invalid ProviderStake.account");
        assert_eq!(*value, balance, "encountered invalid ProviderStake.value");
    } else {
        panic!("encountered unexpected event kind: expected a ProviderStake event");
    }
}

#[test]
fn test_provider_unstake() {
    let operator_account: u64 = 1;
    let mut contract = Prosopo::default(operator_account);
    let provider_account: u64 = 2;
    let service_origin = str_to_hash("https://localhost:2424".to_string());
    let fee: u32 = 0;
    let balance: u128 = 10;
    contract
        .provider_register(service_origin, fee, Payee::Provider, provider_account, operator_account)
        .ok();
    contract.provider_stake(provider_account, balance).ok();
    contract.provider_unstake(provider_account).ok();

    // events are the register event, stake event, and the unstake event
    assert_eq!(3, contract.events.len());

    let event_unstake = &contract.events[2];
    if let ProsopoEvent::ProviderUnstake(ProviderUnstake { account, value }) = event_unstake {
        assert_eq!(*account, provider_account, "encountered invalid ProviderUnstake.account");
        assert_eq!(*value, balance, "encountered invalid ProviderUnstake.value");
    } else {
        panic!("encountered unexpected event kind: expected a ProviderStake event");
    }
}

#[test]
fn test_provider_add_data_set() {
    let operator_account: u64 = 1;
    let mut contract = Prosopo::default(operator_account);
    let provider_account: u64 = 2;
    let service_origin = str_to_hash("https://localhost:2424".to_string());
    let fee: u32 = 0;
    let balance: u128 = 10;
    contract
        .provider_register(service_origin, fee, Payee::Provider, provider_account, operator_account)
        .ok();
    contract.provider_stake(provider_account, balance).ok();
    let root = str_to_hash("merkle tree".to_string());
    contract.provider_add_data_set(root, provider_account).ok();

    // events are the register, stake, add data set
    assert_eq!(3, contract.events.len());

    let event_add_dataset = &contract.events[2];
    if let ProsopoEvent::ProviderAddDataset(ProviderAddDataset { account, merkle_tree_root }) =
        event_add_dataset
    {
        assert_eq!(*account, provider_account, "encountered invalid ProviderAddDataset.account");
        assert_eq!(*merkle_tree_root, root, "encountered invalid ProviderAddDataset.merkle_tree_root");
    } else {
        panic!("encountered unexpected event kind: expected a ProviderAddDataset event");
    }
}

#[test]
fn test_provider_cannot_add_data_set_if_inactive() {
    let operator_account: u64 = 1;
    let mut contract = Prosopo::default(operator_account);
    let provider_account: u64 = 2;
    let service_origin = str_to_hash("https://localhost:2424".to_string());
    let fee: u32 = 0;
    contract
        .provider_register(service_origin, fee, Payee::Provider, provider_account, operator_account)
        .ok();
    let root = str_to_hash("merkle tree".to_string());
    let result = contract.provider_add_data_set(root, provider_account).unwrap_err();
    assert_eq!(ProsopoError::ProviderInactive, result)
}

#[test]
fn test_dapp_register_zero_balance_transfer() {
    let operator_account: u64 = 1;
    let mut contract = Prosopo::default(operator_account);
    let caller: u64 = 2;
    let dapp_contract: u64 = 3;
    // Don't transfer anything with the call
    let balance: u128 = 0;
    let client_origin = str_to_hash("https://localhost:2424".to_string());
    contract.dapp_register(client_origin, dapp_contract, None, caller, balance);
    assert!(contract.dapps.contains_key(dapp_contract));
    let dapp = contract.dapps.get(dapp_contract).unwrap();
    assert_eq!(dapp.owner, caller);
    assert_eq!(dapp.client_origin, client_origin);

    // account is marked as suspended as zero tokens have been paid
    assert_eq!(dapp.status, Status::Suspended);
    assert_eq!(dapp.balance, balance);
}

#[test]
fn test_dapp_register_positive_balance_transfer() {
    let operator_account: u64 = 1;
    let mut contract = Prosopo::default(operator_account);
    let caller: u64 = 2;
    let dapp_contract: u64 = 3;
    let client_origin = str_to_hash("https://localhost:2424".to_string());

    // Transfer tokens with the call
    let balance: u128 = 100;

    // register the dapp
    contract.dapp_register(client_origin, dapp_contract, None, caller, balance);

    // check the dapp exists in the registry
    assert!(contract.dapps.contains_key(dapp_contract));

    // check the various attributes are correct
    let dapp = contract.dapps.get(dapp_contract).unwrap();
    assert_eq!(dapp.owner, caller);
    assert_eq!(dapp.client_origin, client_origin);

    // account is marked as active as balance is now positive
    assert_eq!(dapp.status, Status::Active);
    assert_eq!(dapp.balance, balance);
}

#[test]
fn test_dapp_register_and_update() {
    let operator_account: u64 = 1;
    let mut contract = Prosopo::default(operator_account);
    let caller: u64 = 2;
    let dapp_contract_account: u64 = 3;
    let client_origin_1 = str_to_hash("https://localhost:2424".to_string());

    // Transfer tokens with the call
    let balance_1: u128 = 100;

    // register the dapp
    contract.dapp_register(client_origin_1, dapp_contract_account, None, caller, balance_1);

    // check the dapp exists in the registry
    assert!(contract.dapps.contains_key(dapp_contract_account));

    // check the various attributes are correct
    let dapp = contract.dapps.get(dapp_contract_account).unwrap();
    assert_eq!(dapp.owner, caller);
    assert_eq!(dapp.client_origin, client_origin_1);

    // account is marked as active as tokens have been paid
    assert_eq!(dapp.status, Status::Active);
    assert_eq!(dapp.balance, balance_1);

    // Transfer tokens with the call
    let balance_2: u128 = 200;

    // run the register function again for the same (caller, contract) pair,
    // adding more tokens and changing the client origin and owner
    let client_origin_2 = str_to_hash("https://localhost:2424".to_string());
    let new_owner: u64 = 5;
    contract.dapp_register(client_origin_2, dapp_contract_account, Some(new_owner), caller, balance_2);

    // check the various attributes are correct
    let dapp = contract.dapps.get(dapp_contract_account).unwrap();
    assert_eq!(dapp.owner, new_owner);
    assert_eq!(dapp.client_origin, client_origin_2);

    // account is marked as active as tokens have been paid
    assert_eq!(dapp.status, Status::Active);
    assert_eq!(dapp.balance, balance_1 + balance_2);
}

#[test]
fn test_dapp_fund() {
    let operator_account: u64 = 1;
    let mut contract = Prosopo::default(operator_account);
    let caller: u64 = 2;
    let dapp_contract: u64 = 3;
    let client_origin_1 = str_to_hash("https://localhost:2424".to_string());

    // Transfer tokens with the register call
    let balance_1: u128 = 100;

    // register the dapp
    contract.dapp_register(client_origin_1, dapp_contract, None, caller, balance_1);

    // Transfer tokens with the fund call
    let balance_2: u128 = 200;
    contract.dapp_fund(dapp_contract, caller, balance_2);

    // check the total account balance is correct
    let dapp = contract.dapps.get(dapp_contract).unwrap();
    assert_eq!(dapp.balance, balance_1 + balance_2);
}

#[test]
fn test_dapp_cancel() {
    let operator_account: u64 = 1;
    let mut contract = Prosopo::default(operator_account);
    let caller: u64 = 2;
    let contract_account: u64 = 3;
    let client_origin_1 = str_to_hash("https://localhost:2424".to_string());

    // Transfer tokens with the register call
    let balance: u128 = 100;

    // register the dapp
    contract.dapp_register(client_origin_1, contract_account, None, caller, balance);

    // cancel the dapp
    contract.dapp_cancel(contract_account, caller).ok();

    // check the funds are returned and the dapp's status is Deactivated
    let dapp = contract.dapps.get(contract_account).unwrap();
    assert_eq!(dapp.status, Status::Deactivated);
    assert_eq!(dapp.balance, 0);

    // Make sure the refund of the full balance was requested for the caller
    assert_eq!(contract.transfers, vec![TransferOut { to: caller, amount: balance }]);
}

#[test]
fn test_dapp_user_commit() {
    let operator_account: u64 = 1;

    // initialise the contract
    let mut contract = Prosopo::default(operator_account);

    // Register the provider
    let provider_account: u64 = 2;
    let service_origin = str_to_hash("https://localhost:2424".to_string());
    let fee: u32 = 0;
    contract
        .provider_register(service_origin, fee, Payee::Provider, provider_account, operator_account)
        .ok();

    // Call from the provider account to add data and stake tokens
    let balance: u128 = 100;
    let root = str_to_hash("blah".to_string());
    contract.provider_stake(provider_account, balance).ok();
    // can only add data set after staking
    contract.provider_add_data_set(root, provider_account).ok();

    // Register the dapp
    let dapp_caller_account: u64 = 3;
    let dapp_contract_account: u64 = 4;

    // Give the dapp a balance
    let balance: u128 = 100;
    let client_origin = service_origin;
    contract.dapp_register(client_origin, dapp_contract_account, None, dapp_caller_account, balance);

    // Dapp user commit
    let user_root = str_to_hash("user merkle tree root".to_string());
    contract
        .dapp_user_commit(dapp_contract_account, root, user_root, dapp_caller_account)
        .ok();

    // check that the commitment is in the ledger
    assert_eq!(contract.captcha_solution_commitments.len(), 1);

    // check we have the correct max solution index
    assert_eq!(contract.captcha_solution_commitments_max_index, 1);
}

#[test]
fn test_provider_approve() {
    let operator_account: u64 = 1;

    // initialise the contract
    let mut contract = Prosopo::default(operator_account);

    // Register the provider
    let provider_account: u64 = 2;
    let service_origin = str_to_hash("https://localhost:2424".to_string());
    let fee: u32 = 1;
    contract
        .provider_register(service_origin, fee, Payee::Provider, provider_account, operator_account)
        .ok();

    // Call from the provider account to add data and stake tokens
    let balance: u128 = 100;
    let root = str_to_hash("merkle tree root".to_string());
    contract.provider_stake(provider_account, balance).ok();
    // can only add data set after staking
    contract.provider_add_data_set(root, provider_account).ok();

    // Register the dapp
    let dapp_caller_account: u64 = 3;
    let dapp_contract_account: u64 = 4;

    // Give the dapp a balance
    let balance: u128 = 100;
    let client_origin = service_origin;
    contract.dapp_register(client_origin, dapp_contract_account, None, dapp_caller_account, balance);

    // Dapp user commit
    let user_root = str_to_hash("user merkle tree root".to_string());
    contract
        .dapp_user_commit(dapp_contract_account, root, user_root, dapp_caller_account)
        .ok();

    // Call from the provider account to mark the solution as approved
    let solution_id = contract.captcha_solution_commitments_max_index;
    contract.provider_approve(solution_id, provider_account).ok();
    let commitment = contract.captcha_solution_commitments.get(solution_id).unwrap();
    assert_eq!(commitment.status, Status::Approved);
    let new_dapp_balance = contract.get_dapp_balance(dapp_contract_account);
    let new_provider_balance = contract.get_provider_balance(provider_account);
    assert_eq!(balance - fee as u128, new_dapp_balance);
    assert_eq!(balance + fee as u128, new_provider_balance);

    // Now make sure that the provider cannot later set the solution to
    // disapproved and make sure that the balances are unchanged
    contract.provider_disapprove(solution_id, provider_account).ok();
    let commitment = contract.captcha_solution_commitments.get(solution_id).unwrap();
    assert_eq!(commitment.status, Status::Approved);
    assert_eq!(balance - fee as u128, contract.get_dapp_balance(dapp_contract_account));
    assert_eq!(balance + fee as u128, contract.get_provider_balance(provider_account));
}

#[test]
fn test_provider_approve_invalid_id() {
    let operator_account: u64 = 1;

    // initialise the contract
    let mut contract = Prosopo::default(operator_account);

    // Register the provider
    let provider_account: u64 = 2;
    let service_origin = str_to_hash("https://localhost:2424".to_string());
    let fee: u32 = 0;
    contract
        .provider_register(service_origin, fee, Payee::Provider, provider_account, operator_account)
        .ok();

    // Call from the provider account to add data and stake tokens
    let balance: u128 = 100;
    let root = str_to_hash("merkle tree root".to_string());
    contract.provider_stake(provider_account, balance).ok();
    // can only add data set after staking
    contract.provider_add_data_set(root, provider_account).ok();

    // Register the dapp
    let dapp_caller_account: u64 = 3;
    let dapp_contract_account: u64 = 4;

    // Give the dapp a balance
    let balance: u128 = 100;
    let client_origin = service_origin;
    contract.dapp_register(client_origin, dapp_contract_account, None, dapp_caller_account, balance);

    // Dapp user commit
    let user_root = str_to_hash("user merkle tree root".to_string());
    contract
        .dapp_user_commit(dapp_contract_account, root, user_root, dapp_caller_account)
        .ok();

    // Call from the provider account to mark the wrong solution as approved
    let solution_id = contract.captcha_solution_commitments_max_index;
    let result = contract.provider_approve(solution_id + 1, provider_account);
    assert_eq!(ProsopoError::CaptchaSolutionCommitmentDoesNotExist, result.unwrap_err());
}

#[test]
fn test_provider_disapprove() {
    let operator_account: u64 = 1;

    // initialise the contract
    let mut contract = Prosopo::default(operator_account);

    // Register the provider
    let provider_account: u64 = 2;
    let service_origin = str_to_hash("https://localhost:2424".to_string());
    let fee: u32 = 1;
    contract
        .provider_register(service_origin, fee, Payee::Provider, provider_account, operator_account)
        .ok();

    // Call from the provider account to add data and stake tokens
    let balance: u128 = 100;
    let root = str_to_hash("merkle tree root".to_string());
    contract.provider_stake(provider_account, balance).ok();
    // can only add data set after staking
    contract.provider_add_data_set(root, provider_account).ok();

    // Register the dapp
    let dapp_caller_account: u64 = 3;
    let dapp_contract_account: u64 = 4;

    // Give the dapp a balance
    let balance: u128 = 100;
    let client_origin = str_to_hash("https://localhost:2424".to_string());
    contract.dapp_register(client_origin, dapp_contract_account, None, dapp_caller_account, balance);

    // Dapp user commit
    let user_root = str_to_hash("user merkle tree root".to_string());
    contract
        .dapp_user_commit(dapp_contract_account, root, user_root, dapp_caller_account)
        .ok();

    // Call from the provider account to mark the solution as disapproved
    let solution_id = contract.captcha_solution_commitments_max_index;
    contract.provider_disapprove(solution_id, provider_account).ok();
    let commitment = contract.captcha_solution_commitments.get(solution_id).unwrap();
    assert_eq!(commitment.status, Status::Disapproved);
    let new_dapp_balance = contract.get_dapp_balance(dapp_contract_account);
    let new_provider_balance = contract.get_provider_balance(provider_account);
    assert_eq!(balance - fee as u128, new_dapp_balance);
    assert_eq!(balance + fee as u128, new_provider_balance);

    // Now make sure that the provider cannot later set the solution to approved
    contract.provider_approve(solution_id, provider_account).ok();
    let commitment = contract.captcha_solution_commitments.get(solution_id).unwrap();
    assert_eq!(commitment.status, Status::Disapproved);
    assert_eq!(balance - fee as u128, contract.get_dapp_balance(dapp_contract_account));
    assert_eq!(balance + fee as u128, contract.get_provider_balance(provider_account));
}

#[test]
fn test_dapp_operator_is_human_user() {
    let operator_account: u64 = 1;

    // initialise the contract
    let mut contract = Prosopo::default(operator_account);

    // Register the provider
    let provider_account: u64 = 2;
    let service_origin = str_to_hash("https://localhost:2424".to_string());
    let fee: u32 = 0;
    contract
        .provider_register(service_origin, fee, Payee::Provider, provider_account, operator_account)
        .ok();

    // Call from the provider account to add data and stake tokens
    let balance: u128 = 100;
    let root = str_to_hash("merkle tree root".to_string());
    contract.provider_stake(provider_account, balance).ok();
    // can only add data set after staking
    contract.provider_add_data_set(root, provider_account).ok();

    // Register the dapp
    let dapp_caller_account: u64 = 3;
    let dapp_contract_account: u64 = 4;

    // Give the dapp a balance
    let balance: u128 = 100;
    let client_origin = service_origin;
    contract.dapp_register(client_origin, dapp_contract_account, None, dapp_caller_account, balance);

    // Dapp user commit, called from the dapp user's account
    let dapp_user_account: u64 = 5;
    let user_root = str_to_hash("user merkle tree root".to_string());
    contract
        .dapp_user_commit(dapp_contract_account, root, user_root, dapp_user_account)
        .ok();

    // Call from the provider account to mark the solution as disapproved
    let solution_id = contract.captcha_solution_commitments_max_index;
    contract.provider_disapprove(solution_id, provider_account).ok();
    let commitment = contract.captcha_solution_commitments.get(solution_id).unwrap();
    assert_eq!(commitment.status, Status::Disapproved);

    // Now make sure that the dapp user does not pass the human test
    let result = contract.dapp_operator_is_human_user(dapp_user_account, 80).unwrap();
    assert_eq!(result, false);
}

#[test]
fn test_non_existent_dapp_account_has_zero_balance() {
    let operator_account: u64 = 1;
    let dapp_account: u64 = 2;
    // initialise the contract
    let contract = Prosopo::default(operator_account);
    assert_eq!(0, contract.get_dapp_balance(dapp_account));
}

#[test]
fn test_non_existent_provider_account_has_zero_balance() {
    let operator_account: u64 = 1;
    let provider_account: u64 = 2;
    // initialise the contract
    let contract = Prosopo::default(operator_account);
    assert_eq!(0, contract.get_provider_balance(provider_account));
}
