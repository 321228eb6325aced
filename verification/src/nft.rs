//! Example non-fungible token contract.
//!
//! The contract's state lives in slots that the environment hands to each method: the ownership
//! slot of a token (absent while the token does not exist), the list of tokens that an address
//! owns, and the list of operators that an owner approved for all of its tokens. The caller of
//! a method is the address that the environment reports as its caller.

use vstd::prelude::*;
use vstd::laws_eq::obeys_concrete_eq;
use vstd::std_specs::cmp::PartialEqSpec;

verus! {

/// Address of an account or a contract.
#[derive(Debug, Copy, Clone, Eq)]
pub struct Address(pub u128);

impl PartialEq for Address {
    fn eq(&self, other: &Self) -> (equal: bool) {
        self.0 == other.0
    }
}

impl vstd::std_specs::cmp::PartialEqSpecImpl for Address {
    open spec fn obeys_eq_spec() -> bool {
        true
    }

    open spec fn eq_spec(&self, other: &Self) -> bool {
        self.0 == other.0
    }
}

impl Address {
    /// The null address, which stands for "no address".
    pub fn null() -> (address: Address)
        ensures
            address == Address(0),
    {
        Address(0)
    }
}

/// Errors that contract methods return.
#[derive(Debug, Copy, Clone, PartialEq, Eq, Structural)]
pub enum ContractError {
    /// The input does not meet the method's requirements
    BadInput,
    /// The caller is not allowed to do this
    Forbidden,
    /// The token does not exist
    NotFound,
}

/// Token identifier
pub type TokenId = u64;

/// The example non-fungible token contract.
#[derive(Debug, Copy, Clone, PartialEq, Eq, Structural)]
pub struct ExampleNft {}

/// Ownership of a token: its owner and the address that the owner approved to transfer it
/// (the null address where there is none).
#[derive(Debug, Copy, Clone, PartialEq, Eq)]
pub struct OwnershipSlot {
    /// Owner of the token
    pub owner: Address,
    /// Address approved to transfer the token on behalf of the owner
    pub approved: Address,
}

impl Default for ExampleNft {
    fn default() -> (nft: Self)
        ensures
            nft == (ExampleNft {}),
    {
        ExampleNft {  }
    }
}

impl Default for OwnershipSlot {
    fn default() -> (slot: Self)
        ensures
            slot == (OwnershipSlot { owner: Address(0), approved: Address(0) }),
    {
        OwnershipSlot { owner: Address(0), approved: Address(0) }
    }
}

/// `tokens` without `token`.
pub open spec fn without_token(tokens: Seq<TokenId>, token: TokenId) -> Seq<TokenId> {
    tokens.filter(other_than(token))
}

/// Holds of every value but `excluded`.
pub open spec fn other_than<T>(excluded: T) -> spec_fn(T) -> bool {
    |t: T| t != excluded
}

/// `operators` without `operator`.
pub open spec fn without_operator(operators: Seq<Address>, operator: Address) -> Seq<Address> {
    operators.filter(other_than(operator))
}

/// `list` with `item` appended unless it already holds it.
pub open spec fn with_item<T>(list: Seq<T>, item: T) -> Seq<T> {
    if list.contains(item) {
        list
    } else {
        list.push(item)
    }
}

/// Removes every occurrence of `item` from `list`, keeping the others in order.
fn remove_all<T: PartialEq + Copy>(list: &mut Vec<T>, item: T)
    requires
        obeys_concrete_eq::<T>(),
    ensures
        final(list)@ == old(list)@.filter(other_than(item)),
{
    proof {
        reveal(obeys_concrete_eq);
    }
    let ghost initial = list@;
    let mut kept: Vec<T> = Vec::new();
    for i in 0..list.len()
        invariant
            obeys_concrete_eq::<T>(),
            list@ == initial,
            kept@ == initial.take(i as int).filter(other_than(item)),
    {
        proof {
            reveal(obeys_concrete_eq);
        }
        let element = list[i];
        assert(initial.take(i + 1) == initial.take(i as int).push(element));
        proof {
            initial.take(i as int).lemma_filter_push(element, other_than(item));
        }
        if !(element == item) {
            kept.push(element);
        }
    }
    assert(initial.take(initial.len() as int) == initial);
    *list = kept;
}

/// Whether `list` holds `item`.
fn list_contains<T: PartialEq>(list: &Vec<T>, item: &T) -> (found: bool)
    requires
        obeys_concrete_eq::<T>(),
    ensures
        found == list@.contains(*item),
{
    proof {
        reveal(obeys_concrete_eq);
    }
    for i in 0..list.len()
        invariant
            obeys_concrete_eq::<T>(),
            forall|j: int| 0 <= j < i ==> list@[j] != *item,
    {
        proof {
            reveal(obeys_concrete_eq);
        }
        if list[i] == *item {
            assert(list@[i as int] == *item);
            return true;
        }
    }
    false
}

/// Comparing token identifiers and addresses with `==` compares their values.
proof fn lemma_equality_is_concrete()
    ensures
        obeys_concrete_eq::<TokenId>(),
        obeys_concrete_eq::<Address>(),
{
    broadcast use vstd::laws_eq::group_laws_eq;

    reveal(obeys_concrete_eq);
    assert forall|x: Address, y: Address| x.eq_spec(&y) <==> x == y by {
        if x.0 == y.0 {
            assert(x == y);
        }
    }
}

/// Outcome of a transfer request: the first requirement that fails gives the error.
pub open spec fn transfer_outcome(
    caller: Address,
    slot: Option<OwnershipSlot>,
    owner_operators: Seq<Address>,
    from: Address,
) -> Result<(), ContractError> {
    match slot {
        None => Err(ContractError::NotFound),
        Some(s) => if caller != s.owner && caller != s.approved && !owner_operators.contains(
            caller,
        ) {
            Err(ContractError::Forbidden)
        } else if from != s.owner {
            Err(ContractError::BadInput)
        } else {
            Ok(())
        },
    }
}

/// Outcome of an approval request: the first requirement that fails gives the error.
pub open spec fn approve_outcome(
    caller: Address,
    slot: Option<OwnershipSlot>,
    approved_addr: Address,
) -> Result<(), ContractError> {
    match slot {
        None => Err(ContractError::NotFound),
        Some(s) => if caller != s.owner {
            Err(ContractError::Forbidden)
        } else if approved_addr == s.owner {
            Err(ContractError::BadInput)
        } else {
            Ok(())
        },
    }
}

/// What `owner_of` answers for a token with ownership slot `slot`.
pub open spec fn slot_owner(slot: Option<OwnershipSlot>) -> Result<Address, ContractError> {
    match slot {
        Some(s) => Ok(s.owner),
        None => Err(ContractError::NotFound),
    }
}

/// What `get_approved` answers for a token with ownership slot `slot`.
pub open spec fn slot_approved(slot: Option<OwnershipSlot>) -> Result<Address, ContractError> {
    match slot {
        Some(s) => Ok(s.approved),
        None => Err(ContractError::NotFound),
    }
}

/// A transfer request was answered as the token standard asks: refused with the first failing
/// requirement and no change, or carried out.
pub open spec fn transfer_done(
    caller: Address,
    token_id: TokenId,
    old_slot: Option<OwnershipSlot>,
    new_slot: Option<OwnershipSlot>,
    old_from_tokens: Seq<TokenId>,
    new_from_tokens: Seq<TokenId>,
    old_to_tokens: Seq<TokenId>,
    new_to_tokens: Seq<TokenId>,
    owner_operators: Seq<Address>,
    from: Address,
    to: Address,
    result: Result<(), ContractError>,
) -> bool {
    &&& result == transfer_outcome(caller, old_slot, owner_operators, from)
    &&& result is Err ==> {
        &&& new_slot == old_slot
        &&& new_from_tokens == old_from_tokens
        &&& new_to_tokens == old_to_tokens
    }
    &&& result is Ok ==> {
        &&& new_slot == Some(OwnershipSlot { owner: to, approved: Address(0) })
        &&& if from != to {
            &&& new_from_tokens == without_token(old_from_tokens, token_id)
            &&& new_to_tokens == with_item(old_to_tokens, token_id)
        } else {
            &&& new_from_tokens == old_from_tokens
            &&& new_to_tokens == old_to_tokens
        }
    }
}

/// An approval request was answered as the token standard asks: refused with the first failing
/// requirement and no change, or the approved address recorded.
pub open spec fn approve_done(
    caller: Address,
    old_slot: Option<OwnershipSlot>,
    new_slot: Option<OwnershipSlot>,
    approved_addr: Address,
    result: Result<(), ContractError>,
) -> bool {
    &&& result == approve_outcome(caller, old_slot, approved_addr)
    &&& result is Err ==> new_slot == old_slot
    &&& result is Ok ==> new_slot == Some(
        OwnershipSlot { owner: old_slot->Some_0.owner, approved: approved_addr },
    )
}

/// A request to grant or revoke approval for all was answered as the token standard asks:
/// refused for the caller itself with no change, otherwise the operator added or removed.
pub open spec fn approval_for_all_done(
    caller: Address,
    old_operators: Seq<Address>,
    new_operators: Seq<Address>,
    operator: Address,
    approved: bool,
    result: Result<(), ContractError>,
) -> bool {
    if operator == caller {
        result == Err::<(), ContractError>(ContractError::BadInput) && new_operators
            == old_operators
    } else {
        &&& result is Ok
        &&& new_operators == if approved {
            with_item(old_operators, operator)
        } else {
            without_operator(old_operators, operator)
        }
    }
}

/// Non-fungible token standard: the methods that a token contract offers, over the slots that
/// hold its state.
pub trait NonFungible {
    /// Transfer ownership from owner to another address. Handles both owner-initiated and
    /// delegated transfers. MUST be called by the owner of the token or an approved address.
    /// MUST verify that from is the owner of the token.
    fn transfer_from(
        caller: &Address,
        token_id: TokenId,
        token_slot: &mut Option<OwnershipSlot>,
        from_tokens: &mut Vec<TokenId>,
        to_tokens: &mut Vec<TokenId>,
        owner_operators: &Vec<Address>,
        from: &Address,
        to: &Address,
    ) -> (result: Result<(), ContractError>)
        ensures
            transfer_done(
                *caller,
                token_id,
                *old(token_slot),
                *final(token_slot),
                old(from_tokens)@,
                final(from_tokens)@,
                old(to_tokens)@,
                final(to_tokens)@,
                owner_operators@,
                *from,
                *to,
                result,
            ),
    ;

    /// Approve another address to transfer a single token on behalf of the owner. MUST be
    /// called by the owner of the token. MUST verify that the token exists. MUST verify that
    /// the approved address is not the owner of the token.
    fn approve(
        caller: &Address,
        token_slot: &mut Option<OwnershipSlot>,
        approved_addr: &Address,
    ) -> (result: Result<(), ContractError>)
        ensures
            approve_done(*caller, *old(token_slot), *final(token_slot), *approved_addr, result),
    ;

    /// Grant or revoke approval for an operator to transfer all tokens on behalf of the owner.
    /// MUST be called by the owner of the token. MUST verify that the operator is not the owner.
    fn set_approval_for_all(
        caller: &Address,
        operators: &mut Vec<Address>,
        operator: &Address,
        approved: bool,
    ) -> (result: Result<(), ContractError>)
        ensures
            approval_for_all_done(
                *caller,
                old(operators)@,
                final(operators)@,
                *operator,
                approved,
                result,
            ),
    ;

    /// Get the list of tokens owned by an address.
    fn balance_of(owner_tokens: &Option<Vec<TokenId>>) -> (tokens: Result<
        Vec<TokenId>,
        ContractError,
    >)
        ensures
            tokens matches Ok(list) && list@ == match owner_tokens {
                Some(owned) => owned@,
                None => Seq::<TokenId>::empty(),
            },
    ;

    /// Get the owner of a token. Returns error if token does not exist.
    fn owner_of(ownership_slot: &Option<OwnershipSlot>) -> (owner: Result<Address, ContractError>)
        ensures
            owner == slot_owner(*ownership_slot),
    ;

    /// Get the approved address for a token. Returns `Address::NULL` if no address is approved.
    /// Returns error if token does not exist.
    fn get_approved(ownership_slot: &Option<OwnershipSlot>) -> (approved: Result<
        Address,
        ContractError,
    >)
        ensures
            approved == slot_approved(*ownership_slot),
    ;

    /// Check if an address is approved to transfer all tokens on behalf of the owner.
    fn is_approved_for_all(owner_operators: &Vec<Address>, operator: &Address) -> (approved:
        Result<bool, ContractError>)
        ensures
            approved == Ok::<bool, ContractError>(owner_operators@.contains(*operator)),
    ;
}

impl NonFungible for ExampleNft {
    fn transfer_from(
        caller: &Address,
        token_id: TokenId,
        token_slot: &mut Option<OwnershipSlot>,
        from_tokens: &mut Vec<TokenId>,
        to_tokens: &mut Vec<TokenId>,
        owner_operators: &Vec<Address>,
        from: &Address,
        to: &Address,
    ) -> (result: Result<(), ContractError>) {
        ExampleNft::transfer_from(
            caller,
            token_id,
            token_slot,
            from_tokens,
            to_tokens,
            owner_operators,
            from,
            to,
        )
    }

    fn approve(
        caller: &Address,
        token_slot: &mut Option<OwnershipSlot>,
        approved_addr: &Address,
    ) -> (result: Result<(), ContractError>) {
        ExampleNft::approve(caller, token_slot, approved_addr)
    }

    fn set_approval_for_all(
        caller: &Address,
        operators: &mut Vec<Address>,
        operator: &Address,
        approved: bool,
    ) -> (result: Result<(), ContractError>) {
        ExampleNft::set_approval_for_all(caller, operators, operator, approved)
    }

    fn balance_of(owner_tokens: &Option<Vec<TokenId>>) -> (tokens: Result<
        Vec<TokenId>,
        ContractError,
    >) {
        ExampleNft::balance_of(owner_tokens)
    }

    fn owner_of(ownership_slot: &Option<OwnershipSlot>) -> (owner: Result<Address, ContractError>) {
        ExampleNft::owner_of(ownership_slot)
    }

    fn get_approved(ownership_slot: &Option<OwnershipSlot>) -> (approved: Result<
        Address,
        ContractError,
    >) {
        ExampleNft::get_approved(ownership_slot)
    }

    fn is_approved_for_all(owner_operators: &Vec<Address>, operator: &Address) -> (approved:
        Result<bool, ContractError>) {
        ExampleNft::is_approved_for_all(owner_operators, operator)
    }
}

impl ExampleNft {
    /// Creates the contract.
    pub fn new() -> (nft: Result<Self, ContractError>)
        ensures
            nft == Ok::<ExampleNft, ContractError>(ExampleNft {  }),
    {
        Ok(ExampleNft {  })
    }

    /// Transfer ownership from owner to another address. Handles both owner-initiated and
    /// delegated transfers: the caller must be the owner, the address the owner approved for
    /// the token, or an operator the owner approved for all its tokens, and `from` must be the
    /// owner. On success `to` owns the token, no address is approved for it any more, and the
    /// token moves from the list of `from` to that of `to`; on failure nothing changes.
    pub fn transfer_from(
        caller: &Address,
        token_id: TokenId,
        token_slot: &mut Option<OwnershipSlot>,
        from_tokens: &mut Vec<TokenId>,
        to_tokens: &mut Vec<TokenId>,
        owner_operators: &Vec<Address>,
        from: &Address,
        to: &Address,
    ) -> (result: Result<(), ContractError>)
        ensures
            transfer_done(
                *caller,
                token_id,
                *old(token_slot),
                *final(token_slot),
                old(from_tokens)@,
                final(from_tokens)@,
                old(to_tokens)@,
                final(to_tokens)@,
                owner_operators@,
                *from,
                *to,
                result,
            ),
    {
        let slot = match token_slot {
            Some(slot) => *slot,
            None => {
                return Err(ContractError::NotFound);
            },
        };
        proof {
            lemma_equality_is_concrete();
        }
        if caller.0 != slot.owner.0 && caller.0 != slot.approved.0 && !list_contains(
            owner_operators,
            caller,
        ) {
            return Err(ContractError::Forbidden);
        }
        if from.0 != slot.owner.0 {
            return Err(ContractError::BadInput);
        }
        *token_slot = Some(OwnershipSlot { owner: *to, approved: Address::null() });
        if from.0 != to.0 {
            remove_all(from_tokens, token_id);
            if !list_contains(to_tokens, &token_id) {
                to_tokens.push(token_id);
            }
        }
        Ok(())
    }

    /// Approve another address to transfer a single token on behalf of the owner. The token
    /// must exist, the caller must be its owner, and the approved address must not be the
    /// owner; on success that address is the token's approved address, and on failure nothing
    /// changes.
    pub fn approve(
        caller: &Address,
        token_slot: &mut Option<OwnershipSlot>,
        approved_addr: &Address,
    ) -> (result: Result<(), ContractError>)
        ensures
            approve_done(*caller, *old(token_slot), *final(token_slot), *approved_addr, result),
    {
        let slot = match token_slot {
            Some(slot) => *slot,
            None => {
                return Err(ContractError::NotFound);
            },
        };
        if caller.0 != slot.owner.0 {
            return Err(ContractError::Forbidden);
        }
        if approved_addr.0 == slot.owner.0 {
            return Err(ContractError::BadInput);
        }
        *token_slot = Some(OwnershipSlot { owner: slot.owner, approved: *approved_addr });
        Ok(())
    }

    /// Grant or revoke approval for an operator to transfer all tokens on behalf of the caller,
    /// whose operator list is `operators`. The operator must not be the caller; on success the
    /// list holds the operator exactly when `approved` is set and is otherwise unchanged, and on
    /// failure nothing changes.
    pub fn set_approval_for_all(
        caller: &Address,
        operators: &mut Vec<Address>,
        operator: &Address,
        approved: bool,
    ) -> (result: Result<(), ContractError>)
        ensures
            approval_for_all_done(
                *caller,
                old(operators)@,
                final(operators)@,
                *operator,
                approved,
                result,
            ),
    {
        if operator.0 == caller.0 {
            return Err(ContractError::BadInput);
        }
        proof {
            lemma_equality_is_concrete();
        }
        if approved {
            if !list_contains(operators, operator) {
                operators.push(*operator);
            }
        } else {
            remove_all(operators, *operator);
        }
        Ok(())
    }

    /// Get the list of tokens owned by an address, held in its token list slot (empty where the
    /// slot is absent).
    pub fn balance_of(owner_tokens: &Option<Vec<TokenId>>) -> (tokens: Result<
        Vec<TokenId>,
        ContractError,
    >)
        ensures
            tokens matches Ok(list) && list@ == match owner_tokens {
                Some(owned) => owned@,
                None => Seq::<TokenId>::empty(),
            },
    {
        match owner_tokens {
            Some(owned) => {
                let mut list: Vec<TokenId> = Vec::new();
                for i in 0..owned.len()
                    invariant
                        list@ == owned@.take(i as int),
                {
                    list.push(owned[i]);
                    assert(owned@.take(i + 1) == owned@.take(i as int).push(owned@[i as int]));
                }
                assert(owned@.take(owned.len() as int) == owned@);
                Ok(list)
            },
            None => Ok(Vec::new()),
        }
    }

    /// Whether the token exists.
    pub fn token_exists(ownership_slot: &Option<OwnershipSlot>) -> (found: Result<bool, ContractError>)
        ensures
            found == Ok::<bool, ContractError>(ownership_slot is Some),
    {
        Ok(ownership_slot.is_some())
    }

    /// Get the owner of a token; `NotFound` where the token does not exist.
    pub fn owner_of(ownership_slot: &Option<OwnershipSlot>) -> (owner: Result<
        Address,
        ContractError,
    >)
        ensures
            owner == slot_owner(*ownership_slot),
    {
        match ownership_slot {
            Some(slot) => Ok(slot.owner),
            None => Err(ContractError::NotFound),
        }
    }

    /// Get the approved address for a token: the null address where none is approved,
    /// `NotFound` where the token does not exist.
    pub fn get_approved(ownership_slot: &Option<OwnershipSlot>) -> (approved: Result<
        Address,
        ContractError,
    >)
        ensures
            approved == slot_approved(*ownership_slot),
    {
        match ownership_slot {
            Some(slot) => Ok(slot.approved),
            None => Err(ContractError::NotFound),
        }
    }

    /// Check if an address is approved to transfer all tokens on behalf of the owner whose
    /// operator list is `owner_operators`.
    pub fn is_approved_for_all(owner_operators: &Vec<Address>, operator: &Address) -> (approved:
        Result<bool, ContractError>)
        ensures
            approved == Ok::<bool, ContractError>(owner_operators@.contains(*operator)),
    {
        proof {
            lemma_equality_is_concrete();
        }
        Ok(list_contains(owner_operators, operator))
    }
}

/// A token exists exactly when its owner can be read, and then its approved address can be read
/// too.
pub proof fn lemma_exists_iff_owned(slot: Option<OwnershipSlot>)
    ensures
        (slot is Some) == (slot_owner(slot) is Ok),
        (slot is Some) == (slot_approved(slot) is Ok),
{
}

/// After a successful approval the token's approved address is the one approved, and its owner
/// is unchanged; only the owner of an existing token gets an approval through, and never for
/// itself.
pub proof fn lemma_approve_then_read(
    caller: Address,
    slot: Option<OwnershipSlot>,
    approved_addr: Address,
)
    requires
        approve_outcome(caller, slot, approved_addr) is Ok,
    ensures
        slot is Some,
        caller == slot->Some_0.owner,
        approved_addr != slot->Some_0.owner,
        slot_approved(Some(OwnershipSlot { owner: slot->Some_0.owner, approved: approved_addr }))
            == Ok::<Address, ContractError>(approved_addr),
        slot_owner(Some(OwnershipSlot { owner: slot->Some_0.owner, approved: approved_addr }))
            == slot_owner(slot),
{
}

/// After a successful transfer the receiver owns the token and no address is approved for it;
/// a transfer goes through only from the owner, by the owner, its approved address or one of its
/// operators.
pub proof fn lemma_transfer_then_read(
    caller: Address,
    slot: Option<OwnershipSlot>,
    owner_operators: Seq<Address>,
    from: Address,
    to: Address,
)
    requires
        transfer_outcome(caller, slot, owner_operators, from) is Ok,
    ensures
        slot is Some,
        from == slot->Some_0.owner,
        caller == slot->Some_0.owner || caller == slot->Some_0.approved
            || owner_operators.contains(caller),
        slot_owner(Some(OwnershipSlot { owner: to, approved: Address(0) })) == Ok::<
            Address,
            ContractError,
        >(to),
        slot_approved(Some(OwnershipSlot { owner: to, approved: Address(0) })) == Ok::<
            Address,
            ContractError,
        >(Address(0)),
{
}

/// A transfer between two addresses takes the token out of the sender's list and puts it in the
/// receiver's, and leaves every other token where it was.
pub proof fn lemma_transfer_moves_token(
    from_tokens: Seq<TokenId>,
    to_tokens: Seq<TokenId>,
    token: TokenId,
    other: TokenId,
)
    requires
        other != token,
    ensures
        !without_token(from_tokens, token).contains(token),
        with_item(to_tokens, token).contains(token),
        without_token(from_tokens, token).contains(other) == from_tokens.contains(other),
        with_item(to_tokens, token).contains(other) == to_tokens.contains(other),
{
    lemma_filter_keeps_exactly(from_tokens, token, other);
    lemma_with_item_holds(to_tokens, token, other);
}

/// Granting approval for all makes the operator approved, revoking it makes it not approved, and
/// either leaves every other operator as it was.
pub proof fn lemma_operator_approval(operators: Seq<Address>, operator: Address, other: Address)
    requires
        other != operator,
    ensures
        with_item(operators, operator).contains(operator),
        !without_operator(operators, operator).contains(operator),
        with_item(operators, operator).contains(other) == operators.contains(other),
        without_operator(operators, operator).contains(other) == operators.contains(other),
{
    lemma_filter_keeps_exactly(operators, operator, other);
    lemma_with_item_holds(operators, operator, other);
}

/// Adding `item` where missing makes the list hold it and keeps `other` exactly when it was
/// there.
proof fn lemma_with_item_holds<T>(list: Seq<T>, item: T, other: T)
    ensures
        with_item(list, item).contains(item),
        other != item ==> with_item(list, item).contains(other) == list.contains(other),
{
    if !list.contains(item) {
        let extended = list.push(item);
        assert(extended[list.len() as int] == item);
        if list.contains(other) {
            let i = choose|i: int| 0 <= i < list.len() && list[i] == other;
            assert(extended[i] == other);
        }
        if extended.contains(other) && other != item {
            let i = choose|i: int| 0 <= i < extended.len() && extended[i] == other;
            assert(list[i] == other);
        }
    }
}

/// Filtering out `excluded` drops it and keeps `other` exactly when it was there.
proof fn lemma_filter_keeps_exactly<T>(list: Seq<T>, excluded: T, other: T)
    ensures
        !list.filter(other_than(excluded)).contains(excluded),
        other != excluded ==> list.filter(other_than(excluded)).contains(other) == list.contains(
            other,
        ),
{
    let filtered = list.filter(other_than(excluded));
    if filtered.contains(excluded) {
        let i = choose|i: int| 0 <= i < filtered.len() && filtered[i] == excluded;
        list.lemma_filter_pred(other_than(excluded), i);
    }
    if list.contains(other) && other != excluded {
        let i = choose|i: int| 0 <= i < list.len() && list[i] == other;
        list.lemma_filter_contains(other_than(excluded), i);
    }
    if filtered.contains(other) {
        list.lemma_filter_contains_rev(other_than(excluded), other);
    }
}

/// The tokens listed in the token list slot of `owner` (none where the slot is absent).
pub open spec fn tokens_of(owner_tokens: Map<Address, Seq<TokenId>>, owner: Address) -> Seq<
    TokenId,
> {
    if owner_tokens.dom().contains(owner) {
        owner_tokens[owner]
    } else {
        Seq::empty()
    }
}

/// The ownership slot of `token` (absent where the token does not exist).
pub open spec fn slot_of(ownership: Map<TokenId, OwnershipSlot>, token: TokenId) -> Option<
    OwnershipSlot,
> {
    if ownership.dom().contains(token) {
        Some(ownership[token])
    } else {
        None
    }
}

/// The ownership slots with the slot of `token` set to `slot`.
pub open spec fn with_slot(
    ownership: Map<TokenId, OwnershipSlot>,
    token: TokenId,
    slot: Option<OwnershipSlot>,
) -> Map<TokenId, OwnershipSlot> {
    match slot {
        Some(s) => ownership.insert(token, s),
        None => ownership.remove(token),
    }
}

/// The contract's state is consistent: the token list of every address holds exactly the tokens
/// that the address owns, each once.
pub open spec fn token_lists_consistent(
    ownership: Map<TokenId, OwnershipSlot>,
    owner_tokens: Map<Address, Seq<TokenId>>,
) -> bool {
    &&& forall|owner: Address, token: TokenId|
        #[trigger] tokens_of(owner_tokens, owner).contains(token) <==> slot_owner(
            slot_of(ownership, token),
        ) == Ok::<Address, ContractError>(owner)
    &&& forall|owner: Address| #[trigger] tokens_of(owner_tokens, owner).no_duplicates()
}

/// The state of a freshly created contract, with no tokens and no token lists, is consistent.
pub proof fn lemma_empty_state_consistent()
    ensures
        token_lists_consistent(
            Map::<TokenId, OwnershipSlot>::empty(),
            Map::<Address, Seq<TokenId>>::empty(),
        ),
{
    let ownership = Map::<TokenId, OwnershipSlot>::empty();
    let owner_tokens = Map::<Address, Seq<TokenId>>::empty();
    assert forall|owner: Address, token: TokenId|
        #[trigger] tokens_of(owner_tokens, owner).contains(token) <==> slot_owner(
            slot_of(ownership, token),
        ) == Ok::<Address, ContractError>(owner) by {
        assert(tokens_of(owner_tokens, owner) == Seq::<TokenId>::empty());
    }
}

/// In a consistent state, the list that `balance_of` returns for an address (its token list)
/// holds exactly the tokens whose owner is that address, each once.
pub proof fn lemma_balance_of_lists_owned_tokens(
    ownership: Map<TokenId, OwnershipSlot>,
    owner_tokens: Map<Address, Seq<TokenId>>,
    owner: Address,
    token: TokenId,
)
    requires
        token_lists_consistent(ownership, owner_tokens),
    ensures
        tokens_of(owner_tokens, owner).contains(token) <==> slot_owner(slot_of(ownership, token))
            == Ok::<Address, ContractError>(owner),
        tokens_of(owner_tokens, owner).no_duplicates(),
{
}

/// A transfer, carried out or refused, keeps the state consistent: the slots it wrote back (the
/// token's ownership slot and the token lists of `from` and `to`) leave every address's list
/// holding exactly the tokens it owns, each once.
pub proof fn lemma_transfer_keeps_token_lists_consistent(
    ownership: Map<TokenId, OwnershipSlot>,
    owner_tokens: Map<Address, Seq<TokenId>>,
    caller: Address,
    token_id: TokenId,
    new_slot: Option<OwnershipSlot>,
    new_from_tokens: Seq<TokenId>,
    new_to_tokens: Seq<TokenId>,
    owner_operators: Seq<Address>,
    from: Address,
    to: Address,
    result: Result<(), ContractError>,
)
    requires
        token_lists_consistent(ownership, owner_tokens),
        transfer_done(
            caller,
            token_id,
            slot_of(ownership, token_id),
            new_slot,
            tokens_of(owner_tokens, from),
            new_from_tokens,
            tokens_of(owner_tokens, to),
            new_to_tokens,
            owner_operators,
            from,
            to,
            result,
        ),
    ensures
        token_lists_consistent(
            with_slot(ownership, token_id, new_slot),
            owner_tokens.insert(from, new_from_tokens).insert(to, new_to_tokens),
        ),
{
    let new_ownership = with_slot(ownership, token_id, new_slot);
    let new_lists = owner_tokens.insert(from, new_from_tokens).insert(to, new_to_tokens);
    assert forall|owner: Address|
        tokens_of(new_lists, owner) == if owner == to {
            new_to_tokens
        } else if owner == from {
            new_from_tokens
        } else {
            tokens_of(owner_tokens, owner)
        } by {}
    assert forall|token: TokenId|
        slot_of(new_ownership, token) == if token == token_id {
            new_slot
        } else {
            slot_of(ownership, token)
        } by {}
    if result is Ok && from != to {
        let old_from = tokens_of(owner_tokens, from);
        let old_to = tokens_of(owner_tokens, to);
        assert(slot_owner(slot_of(ownership, token_id)) == Ok::<Address, ContractError>(from));
        assert forall|owner: Address, token: TokenId|
            #[trigger] tokens_of(new_lists, owner).contains(token) <==> slot_owner(
                slot_of(new_ownership, token),
            ) == Ok::<Address, ContractError>(owner) by {
            assert(tokens_of(owner_tokens, owner).contains(token) <==> slot_owner(
                slot_of(ownership, token),
            ) == Ok::<Address, ContractError>(owner));
            assert(old_from.contains(token) <==> slot_owner(slot_of(ownership, token)) == Ok::<
                Address,
                ContractError,
            >(from));
            assert(old_to.contains(token) <==> slot_owner(slot_of(ownership, token)) == Ok::<
                Address,
                ContractError,
            >(to));
            if token == token_id {
                lemma_filter_keeps_exactly(old_from, token_id, token_id);
                lemma_with_item_holds(old_to, token_id, token_id);
            } else {
                lemma_filter_keeps_exactly(old_from, token_id, token);
                lemma_with_item_holds(old_to, token_id, token);
            }
        }
        assert forall|owner: Address| #[trigger] tokens_of(new_lists, owner).no_duplicates() by {
            assert(tokens_of(owner_tokens, owner).no_duplicates());
            assert(old_from.no_duplicates());
            assert(old_to.no_duplicates());
            lemma_filter_no_duplicates(old_from, other_than(token_id));
            lemma_with_item_no_duplicates(old_to, token_id);
        }
    } else {
        assert forall|owner: Address, token: TokenId|
            #[trigger] tokens_of(new_lists, owner).contains(token) <==> slot_owner(
                slot_of(new_ownership, token),
            ) == Ok::<Address, ContractError>(owner) by {
            assert(tokens_of(owner_tokens, owner).contains(token) <==> slot_owner(
                slot_of(ownership, token),
            ) == Ok::<Address, ContractError>(owner));
        }
        assert forall|owner: Address| #[trigger] tokens_of(new_lists, owner).no_duplicates() by {
            assert(tokens_of(owner_tokens, owner).no_duplicates());
        }
    }
}

/// An approval, carried out or refused, keeps the state consistent: it never changes who owns
/// the token.
pub proof fn lemma_approve_keeps_token_lists_consistent(
    ownership: Map<TokenId, OwnershipSlot>,
    owner_tokens: Map<Address, Seq<TokenId>>,
    caller: Address,
    token_id: TokenId,
    new_slot: Option<OwnershipSlot>,
    approved_addr: Address,
    result: Result<(), ContractError>,
)
    requires
        token_lists_consistent(ownership, owner_tokens),
        approve_done(caller, slot_of(ownership, token_id), new_slot, approved_addr, result),
    ensures
        token_lists_consistent(with_slot(ownership, token_id, new_slot), owner_tokens),
{
    let new_ownership = with_slot(ownership, token_id, new_slot);
    assert forall|token: TokenId|
        slot_owner(#[trigger] slot_of(new_ownership, token)) == slot_owner(
            slot_of(ownership, token),
        ) by {}
    assert forall|owner: Address, token: TokenId|
        #[trigger] tokens_of(owner_tokens, owner).contains(token) <==> slot_owner(
            slot_of(new_ownership, token),
        ) == Ok::<Address, ContractError>(owner) by {
        assert(slot_owner(slot_of(new_ownership, token)) == slot_owner(slot_of(ownership, token)));
    }
}

/// Appending an item that a list without duplicates lacks keeps it without duplicates.
proof fn lemma_with_item_no_duplicates<T>(list: Seq<T>, item: T)
    requires
        list.no_duplicates(),
    ensures
        with_item(list, item).no_duplicates(),
{
    if !list.contains(item) {
        let extended = list.push(item);
        assert forall|i: int, j: int|
            0 <= i < extended.len() && 0 <= j < extended.len() && i != j implies extended[i]
            != extended[j] by {
            if i == list.len() {
                assert(list[j] == extended[j]);
            } else if j == list.len() {
                assert(list[i] == extended[i]);
            }
        }
    }
}

/// Filtering a list without duplicates keeps it without duplicates.
proof fn lemma_filter_no_duplicates<T>(list: Seq<T>, pred: spec_fn(T) -> bool)
    requires
        list.no_duplicates(),
    ensures
        list.filter(pred).no_duplicates(),
    decreases list.len(),
{
    reveal(Seq::filter);
    if list.len() > 0 {
        let rest = list.drop_last();
        assert forall|i: int, j: int|
            0 <= i < rest.len() && 0 <= j < rest.len() && i != j implies rest[i] != rest[j] by {
            assert(rest[i] == list[i] && rest[j] == list[j]);
        }
        lemma_filter_no_duplicates(rest, pred);
        if pred(list.last()) {
            if rest.filter(pred).contains(list.last()) {
                rest.lemma_filter_contains_rev(pred, list.last());
                let k = choose|k: int| 0 <= k < rest.len() && rest[k] == list.last();
                assert(list[k] == list[list.len() - 1]);
            }
            lemma_with_item_no_duplicates(rest.filter(pred), list.last());
        }
    }
}

/// Who may transfer an existing token from its owner: the owner, the address the owner approved
/// for the token, and every operator the owner approved for all its tokens, whatever address is
/// approved for the token itself. Anyone else is refused.
pub proof fn lemma_transfer_allowed_callers(
    caller: Address,
    slot: OwnershipSlot,
    owner_operators: Seq<Address>,
    to: Address,
)
    ensures
        caller == slot.owner ==> transfer_outcome(caller, Some(slot), owner_operators, slot.owner)
            is Ok,
        caller == slot.approved ==> transfer_outcome(
            caller,
            Some(slot),
            owner_operators,
            slot.owner,
        ) is Ok,
        owner_operators.contains(caller) ==> transfer_outcome(
            caller,
            Some(slot),
            owner_operators,
            slot.owner,
        ) is Ok,
        caller != slot.owner && caller != slot.approved && !owner_operators.contains(caller)
            ==> transfer_outcome(caller, Some(slot), owner_operators, slot.owner) == Err::<
            (),
            ContractError,
        >(ContractError::Forbidden),
{
}

/// The owner of an existing token may approve any address other than itself, whatever address
/// the token approves already, and the new address replaces it.
pub proof fn lemma_owner_may_approve(slot: OwnershipSlot, approved_addr: Address)
    requires
        approved_addr != slot.owner,
    ensures
        approve_outcome(slot.owner, Some(slot), approved_addr) is Ok,
        forall|new_slot: Option<OwnershipSlot>, result: Result<(), ContractError>|
            approve_done(slot.owner, Some(slot), new_slot, approved_addr, result) ==> result is Ok
                && new_slot == Some(OwnershipSlot { owner: slot.owner, approved: approved_addr }),
{
}

} // verus!
