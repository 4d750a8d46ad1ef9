use near_sdk::MockedBlockchain;
use token_owners::TokenOwners;

/// Point the store at a fresh mocked host: a default call context and an
/// empty key-value substrate, replacing whatever an earlier test left.
fn fresh_env() {
    near_sdk::env::set_blockchain_interface(MockedBlockchain::default());
}

#[test]
fn run() {
    fresh_env();
    let mut contract: TokenOwners = TokenOwners::default();
    let token_id: String = "your_token".to_string();
    let owner_id: String = "you.testnet".to_string();
    contract.set_info(&token_id, &owner_id);
    let owner_of_token: String = contract.get_owner(&token_id);
    let token_of_owner: String = contract.get_token(&owner_id);
    assert_eq!(owner_of_token, owner_id);
    assert_eq!(token_of_owner, token_id);
}

#[test]
fn round_trip_on_another_pair() {
    fresh_env();
    let mut contract: TokenOwners = TokenOwners::default();
    let token_id: String = "deed-17".to_string();
    let owner_id: String = "carol.near".to_string();
    contract.set_info(&token_id, &owner_id);
    assert_eq!(contract.get_owner(&token_id), owner_id);
    assert_eq!(contract.get_token(&owner_id), token_id);
}

#[test]
fn lookups_that_miss_return_the_sentinels() {
    fresh_env();
    let contract: TokenOwners = TokenOwners::default();
    let stranger: String = "never_written".to_string();
    assert_eq!(contract.get_owner(&stranger), "No owner".to_string());
    assert_eq!(contract.get_token(&stranger), "No token".to_string());
}

#[test]
fn unrelated_keys_still_miss_after_a_write() {
    fresh_env();
    let mut contract: TokenOwners = TokenOwners::default();
    contract.set_info(&"a_token".to_string(), &"an_owner".to_string());
    assert_eq!(contract.get_owner(&"other_token".to_string()), "No owner".to_string());
    assert_eq!(contract.get_token(&"other_owner".to_string()), "No token".to_string());
}

#[test]
fn new_token_for_an_owner_leaves_the_old_forward_entry_stale() {
    fresh_env();
    let mut contract: TokenOwners = TokenOwners::default();
    contract.set_info(&"tokenA".to_string(), &"alice".to_string());
    contract.set_info(&"tokenB".to_string(), &"alice".to_string());
    assert_eq!(contract.get_token(&"alice".to_string()), "tokenB".to_string());
    assert_eq!(contract.get_owner(&"tokenA".to_string()), "alice".to_string());
    assert_eq!(contract.get_owner(&"tokenB".to_string()), "alice".to_string());
}

#[test]
fn overwriting_a_token_keeps_the_old_owners_reverse_entry() {
    fresh_env();
    let mut contract: TokenOwners = TokenOwners::default();
    contract.set_info(&"tokenA".to_string(), &"alice".to_string());
    contract.set_info(&"tokenA".to_string(), &"bob".to_string());
    assert_eq!(contract.get_owner(&"tokenA".to_string()), "bob".to_string());
    assert_eq!(contract.get_token(&"bob".to_string()), "tokenA".to_string());
    assert_eq!(contract.get_token(&"alice".to_string()), "tokenA".to_string());
}

#[test]
fn repeating_a_write_changes_nothing() {
    fresh_env();
    let mut contract: TokenOwners = TokenOwners::default();
    let token_id: String = "tok".to_string();
    let owner_id: String = "own".to_string();
    contract.set_info(&token_id, &owner_id);
    let owner_once: String = contract.get_owner(&token_id);
    let token_once: String = contract.get_token(&owner_id);
    contract.set_info(&token_id, &owner_id);
    assert_eq!(contract.get_owner(&token_id), owner_once);
    assert_eq!(contract.get_token(&owner_id), token_once);
    assert_eq!(contract.get_owner(&"missing".to_string()), "No owner".to_string());
}

#[test]
fn a_stored_sentinel_is_indistinguishable_from_a_miss() {
    fresh_env();
    let mut contract: TokenOwners = TokenOwners::default();
    contract.set_info(&"tok".to_string(), &"No owner".to_string());
    assert_eq!(contract.get_owner(&"tok".to_string()), "No owner".to_string());
}
