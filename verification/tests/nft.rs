use subspace_verification::nft::{Address, ContractError, ExampleNft, OwnershipSlot};

const ALICE: Address = Address(1);
const BOB: Address = Address(2);
const CAROL: Address = Address(3);

fn owned_by(owner: Address) -> Option<OwnershipSlot> {
    Some(OwnershipSlot { owner, approved: Address::null() })
}

#[test]
fn new_contract() {
    assert_eq!(ExampleNft::new(), Ok(ExampleNft {}));
}

#[test]
fn queries_on_missing_and_existing_tokens() {
    let missing: Option<OwnershipSlot> = None;
    assert_eq!(ExampleNft::token_exists(&missing), Ok(false));
    assert_eq!(ExampleNft::owner_of(&missing), Err(ContractError::NotFound));
    assert_eq!(ExampleNft::get_approved(&missing), Err(ContractError::NotFound));
    let slot = owned_by(ALICE);
    assert_eq!(ExampleNft::token_exists(&slot), Ok(true));
    assert_eq!(ExampleNft::owner_of(&slot), Ok(ALICE));
    assert_eq!(ExampleNft::get_approved(&slot), Ok(Address::null()));
}

#[test]
fn approve_then_get_approved() {
    let mut slot = owned_by(ALICE);
    assert_eq!(ExampleNft::approve(&ALICE, &mut slot, &BOB), Ok(()));
    assert_eq!(ExampleNft::get_approved(&slot), Ok(BOB));
    assert_eq!(ExampleNft::owner_of(&slot), Ok(ALICE));
}

#[test]
fn approve_is_refused() {
    let mut missing: Option<OwnershipSlot> = None;
    assert_eq!(ExampleNft::approve(&ALICE, &mut missing, &BOB), Err(ContractError::NotFound));
    let mut slot = owned_by(ALICE);
    assert_eq!(ExampleNft::approve(&BOB, &mut slot, &CAROL), Err(ContractError::Forbidden));
    assert_eq!(ExampleNft::approve(&ALICE, &mut slot, &ALICE), Err(ContractError::BadInput));
    assert_eq!(slot, owned_by(ALICE));
}

#[test]
fn transfer_by_owner_moves_token() {
    let mut slot = owned_by(ALICE);
    let mut alice_tokens = vec![1u64, 5, 7];
    let mut bob_tokens = vec![2u64];
    let result = ExampleNft::transfer_from(
        &ALICE, 5, &mut slot, &mut alice_tokens, &mut bob_tokens, &Vec::new(), &ALICE, &BOB,
    );
    assert_eq!(result, Ok(()));
    assert_eq!(ExampleNft::owner_of(&slot), Ok(BOB));
    assert_eq!(ExampleNft::get_approved(&slot), Ok(Address::null()));
    assert_eq!(alice_tokens, vec![1, 7]);
    assert_eq!(bob_tokens, vec![2, 5]);
}

#[test]
fn transfer_by_approved_and_operator() {
    let mut slot = Some(OwnershipSlot { owner: ALICE, approved: BOB });
    let mut from = vec![5u64];
    let mut to = Vec::new();
    assert_eq!(
        ExampleNft::transfer_from(&BOB, 5, &mut slot, &mut from, &mut to, &Vec::new(), &ALICE, &CAROL),
        Ok(())
    );
    assert_eq!(slot, owned_by(CAROL));
    let mut from = vec![5u64];
    let mut to = Vec::new();
    assert_eq!(
        ExampleNft::transfer_from(&BOB, 5, &mut slot, &mut from, &mut to, &vec![BOB], &CAROL, &ALICE),
        Ok(())
    );
    assert_eq!(slot, owned_by(ALICE));
    assert_eq!(to, vec![5]);
}

#[test]
fn transfer_is_refused_and_changes_nothing() {
    let mut missing: Option<OwnershipSlot> = None;
    let mut from = vec![5u64];
    let mut to = Vec::new();
    assert_eq!(
        ExampleNft::transfer_from(&ALICE, 5, &mut missing, &mut from, &mut to, &Vec::new(), &ALICE, &BOB),
        Err(ContractError::NotFound)
    );
    let mut slot = owned_by(ALICE);
    assert_eq!(
        ExampleNft::transfer_from(&CAROL, 5, &mut slot, &mut from, &mut to, &Vec::new(), &ALICE, &BOB),
        Err(ContractError::Forbidden)
    );
    assert_eq!(
        ExampleNft::transfer_from(&ALICE, 5, &mut slot, &mut from, &mut to, &Vec::new(), &BOB, &CAROL),
        Err(ContractError::BadInput)
    );
    assert_eq!(slot, owned_by(ALICE));
    assert_eq!(from, vec![5]);
    assert!(to.is_empty());
}

#[test]
fn transfer_to_self_keeps_lists() {
    let mut slot = Some(OwnershipSlot { owner: ALICE, approved: BOB });
    let mut from = vec![5u64];
    let mut to = vec![5u64];
    assert_eq!(
        ExampleNft::transfer_from(&ALICE, 5, &mut slot, &mut from, &mut to, &Vec::new(), &ALICE, &ALICE),
        Ok(())
    );
    assert_eq!(slot, owned_by(ALICE));
    assert_eq!(from, vec![5]);
}

#[test]
fn approval_for_all() {
    let mut operators = Vec::new();
    assert_eq!(ExampleNft::set_approval_for_all(&ALICE, &mut operators, &ALICE, true), Err(ContractError::BadInput));
    assert!(operators.is_empty());
    assert_eq!(ExampleNft::set_approval_for_all(&ALICE, &mut operators, &BOB, true), Ok(()));
    assert_eq!(ExampleNft::set_approval_for_all(&ALICE, &mut operators, &BOB, true), Ok(()));
    assert_eq!(operators, vec![BOB]);
    assert_eq!(ExampleNft::is_approved_for_all(&operators, &BOB), Ok(true));
    assert_eq!(ExampleNft::is_approved_for_all(&operators, &CAROL), Ok(false));
    assert_eq!(ExampleNft::set_approval_for_all(&ALICE, &mut operators, &BOB, false), Ok(()));
    assert_eq!(ExampleNft::is_approved_for_all(&operators, &BOB), Ok(false));
}

#[test]
fn balance_of_lists_owned_tokens() {
    assert_eq!(ExampleNft::balance_of(&Some(vec![3u64, 4])), Ok(vec![3, 4]));
    assert_eq!(ExampleNft::balance_of(&None), Ok(Vec::new()));
}

#[test]
fn token_lists_follow_ownership_over_transfers() {
    let mut slots = vec![owned_by(ALICE), owned_by(ALICE), owned_by(BOB)];
    let mut alice_tokens = vec![0u64, 1];
    let mut bob_tokens = vec![2u64];
    // alice sends token 1 to bob, then bob sends token 2 to alice
    assert_eq!(
        ExampleNft::transfer_from(&ALICE, 1, &mut slots[1], &mut alice_tokens, &mut bob_tokens, &Vec::new(), &ALICE, &BOB),
        Ok(())
    );
    assert_eq!(
        ExampleNft::transfer_from(&BOB, 2, &mut slots[2], &mut bob_tokens, &mut alice_tokens, &Vec::new(), &BOB, &ALICE),
        Ok(())
    );
    for (owner, list) in [(ALICE, &alice_tokens), (BOB, &bob_tokens)] {
        let owned: Vec<u64> = (0u64..3)
            .filter(|t| ExampleNft::owner_of(&slots[*t as usize]) == Ok(owner))
            .collect();
        let mut listed = ExampleNft::balance_of(&Some(list.clone())).unwrap();
        listed.sort();
        assert_eq!(listed, owned);
    }
}
