use vstd::prelude::*;
use crate::errors::TokenError;
use crate::events::{
    AccountFrozen, AccountThawed, TokenCreated, TokensBurned, TokensMinted, TokensTransferred,
};
use crate::gate::{spec_validate_batch_destinations, sum_amounts, validate_batch_destinations};
use crate::metadata::TokenMetadata;
use crate::state::{authority_matches, AuthoritySlot, Identity, LedgerAccount, MintDestination,
    MintInfo, MintState};

verus! {

/// Outcome of mint creation: `InvalidDecimals` above precision 9, otherwise a
/// fresh mint with zero supply, the given issuance authority live, and the
/// given freeze slot.
pub open spec fn spec_initialize_mint(
    mint_id: Identity,
    decimals: u8,
    mint_authority: Identity,
    freeze_authority: AuthoritySlot,
) -> Result<MintState, TokenError> {
    if decimals > 9 {
        Err(TokenError::InvalidDecimals)
    } else {
        Ok(
            MintState {
                id: mint_id,
                decimals: decimals,
                supply: 0,
                mint_authority: AuthoritySlot::Present(mint_authority),
                freeze_authority: freeze_authority,
            },
        )
    }
}

/// Creates a new mint. The engine-side account provisioning is the caller's
/// business; this gate fixes the decimals and the authority slots and starts
/// the supply at zero.
pub fn initialize_mint(
    mint_id: Identity,
    decimals: u8,
    mint_authority: Identity,
    freeze_authority: AuthoritySlot,
) -> (r: Result<MintState, TokenError>)
    ensures
        r == spec_initialize_mint(mint_id, decimals, mint_authority, freeze_authority),
{
    if decimals > 9 {
        return Err(TokenError::InvalidDecimals);
    }
    Ok(
        MintState {
            id: mint_id,
            decimals,
            supply: 0,
            mint_authority: AuthoritySlot::Present(mint_authority),
            freeze_authority,
        },
    )
}

/// Outcome of token creation with a metadata descriptor: decimals are checked
/// first, then the descriptor field by field; on success the mint is created
/// exactly as by plain initialization.
pub open spec fn spec_create_token_with_metadata(
    mint_id: Identity,
    decimals: u8,
    metadata: TokenMetadata,
    mint_authority: Identity,
    freeze_authority: AuthoritySlot,
) -> Result<MintState, TokenError> {
    if decimals > 9 {
        Err(TokenError::InvalidDecimals)
    } else {
        match metadata.spec_validate() {
            Err(e) => Err(e),
            Ok(_) => Ok(
                MintState {
                    id: mint_id,
                    decimals: decimals,
                    supply: 0,
                    mint_authority: AuthoritySlot::Present(mint_authority),
                    freeze_authority: freeze_authority,
                },
            ),
        }
    }
}

/// Creates a new mint together with its metadata descriptor. The descriptor
/// registration itself is the metadata collaborator's business; this gate
/// validates the descriptor and reports the creation event to emit once the
/// collaborator succeeds.
pub fn create_token_with_metadata(
    mint_id: Identity,
    decimals: u8,
    metadata: &TokenMetadata,
    mint_authority: Identity,
    freeze_authority: AuthoritySlot,
) -> (r: Result<(MintState, TokenCreated), TokenError>)
    ensures
        match r {
            Ok(p) => {
                &&& spec_create_token_with_metadata(
                    mint_id,
                    decimals,
                    *metadata,
                    mint_authority,
                    freeze_authority,
                ) == Ok::<MintState, TokenError>(p.0)
                &&& p.1.mint@ == mint_id@
                &&& p.1.authority@ == mint_authority@
                &&& p.1.decimals == decimals
                &&& p.1.name@ == metadata.name@
                &&& p.1.symbol@ == metadata.symbol@
            },
            Err(e) => spec_create_token_with_metadata(
                mint_id,
                decimals,
                *metadata,
                mint_authority,
                freeze_authority,
            ) == Err::<MintState, TokenError>(e),
        },
{
    if decimals > 9 {
        return Err(TokenError::InvalidDecimals);
    }
    match metadata.validate() {
        Err(e) => {
            return Err(e);
        },
        Ok(_) => {},
    }
    let mint = MintState {
        id: mint_id,
        decimals,
        supply: 0,
        mint_authority: AuthoritySlot::Present(mint_authority),
        freeze_authority,
    };
    let event = TokenCreated {
        mint: mint_id,
        authority: mint_authority,
        decimals,
        name: metadata.name.clone(),
        symbol: metadata.symbol.clone(),
    };
    Ok((mint, event))
}

/// Outcome of an issuance: amount positivity, then issuance authority, then
/// supply overflow; on success the amount lands on the destination balance
/// and on the supply.
pub open spec fn spec_mint_tokens(
    mint: MintState,
    destination: LedgerAccount,
    signer: Identity,
    amount: u64,
) -> Result<(MintState, LedgerAccount), TokenError>
    recommends
        destination.mint@ == mint.id@,
        destination.balance <= mint.supply,
{
    if amount == 0 {
        Err(TokenError::InvalidAmount)
    } else if !authority_matches(mint.mint_authority, signer) {
        Err(TokenError::Unauthorized)
    } else if mint.supply + amount > u64::MAX {
        Err(TokenError::SupplyOverflow)
    } else {
        Ok(
            (
                MintState { supply: (mint.supply + amount) as u64, ..mint },
                LedgerAccount { balance: (destination.balance + amount) as u64, ..destination },
            ),
        )
    }
}

/// Issues `amount` base units to `destination`, growing the supply by the
/// same amount, provided the signer holds the issuance authority and the
/// supply cannot overflow. A rejected issuance changes neither the mint nor
/// the destination.
///
/// The destination must be an account of this mint whose balance the supply
/// covers; the ledger engine maintains both and treats a broken binding as a
/// fatal storage error, so no such pair ever reaches these checks.
pub fn mint_tokens(
    mint: &mut MintState,
    destination: &mut LedgerAccount,
    mint_authority: &Identity,
    amount: u64,
) -> (r: Result<TokensMinted, TokenError>)
    requires
        old(destination).mint@ == old(mint).id@,
        old(destination).balance <= old(mint).supply,
    ensures
        match r {
            Ok(ev) => {
                &&& spec_mint_tokens(*old(mint), *old(destination), *mint_authority, amount)
                    == Ok::<(MintState, LedgerAccount), TokenError>(
                    (*final(mint), *final(destination)),
                )
                &&& ev.mint@ == old(mint).id@
                &&& ev.recipient@ == old(destination).id@
                &&& ev.amount == amount
            },
            Err(e) => {
                &&& spec_mint_tokens(*old(mint), *old(destination), *mint_authority, amount)
                    == Err::<(MintState, LedgerAccount), TokenError>(e)
                &&& *final(mint) == *old(mint)
                &&& *final(destination) == *old(destination)
            },
        },
{
    if amount == 0 {
        return Err(TokenError::InvalidAmount);
    }
    let authorized = match &mint.mint_authority {
        AuthoritySlot::Present(a) => *a == *mint_authority,
        AuthoritySlot::Revoked => false,
    };
    if !authorized {
        return Err(TokenError::Unauthorized);
    }
    match mint.supply.checked_add(amount) {
        None => Err(TokenError::SupplyOverflow),
        Some(new_supply) => {
            let event = TokensMinted { mint: mint.id, recipient: destination.id, amount };
            mint.supply = new_supply;
            destination.balance = destination.balance + amount;
            Ok(event)
        },
    }
}

/// Outcome of batch-issuance validation: the batch bounds (including
/// per-entry positivity), then the issuance authority, then overflow of the
/// summed amounts; on success the prepared total is reported.
pub open spec fn spec_batch_mint_tokens(
    mint: MintState,
    signer: Identity,
    destinations: Seq<MintDestination>,
) -> Result<u64, TokenError> {
    match spec_validate_batch_destinations(destinations) {
        Err(e) => Err(e),
        Ok(_) => {
            if !authority_matches(mint.mint_authority, signer) {
                Err(TokenError::Unauthorized)
            } else if mint.supply + sum_amounts(destinations) > u64::MAX {
                Err(TokenError::SupplyOverflow)
            } else {
                Ok(sum_amounts(destinations) as u64)
            }
        },
    }
}

/// Validates a batch issuance and reports the prepared total. No entry is
/// applied here: binding each entry to a destination account is left to the
/// caller once an account-binding mechanism is supplied, so this operation
/// mutates nothing.
pub fn batch_mint_tokens(
    mint: &MintState,
    mint_authority: &Identity,
    destinations: &[MintDestination],
) -> (r: Result<u64, TokenError>)
    ensures
        r == spec_batch_mint_tokens(*mint, *mint_authority, destinations@),
{
    match validate_batch_destinations(destinations) {
        Err(e) => {
            return Err(e);
        },
        Ok(_) => {},
    }
    let authorized = match &mint.mint_authority {
        AuthoritySlot::Present(a) => *a == *mint_authority,
        AuthoritySlot::Revoked => false,
    };
    if !authorized {
        return Err(TokenError::Unauthorized);
    }
    let n = destinations.len();
    let mut total: u128 = 0;
    let mut i: usize = 0;
    while i < n
        invariant
            n == destinations@.len(),
            n <= 10,
            0 <= i <= n,
            total == sum_amounts(destinations@.take(i as int)),
            total <= i * (u64::MAX as int),
        decreases n - i,
    {
        proof {
            assert(destinations@.take(i + 1).drop_last() =~= destinations@.take(i as int));
            assert(destinations@.take(i + 1).last() == destinations@[i as int]);
        }
        total = total + destinations[i].amount as u128;
        i = i + 1;
    }
    proof {
        assert(destinations@.take(n as int) =~= destinations@);
    }
    if mint.supply as u128 + total > u64::MAX as u128 {
        return Err(TokenError::SupplyOverflow);
    }
    Ok(total as u64)
}

/// Outcome of a transfer: amount positivity, source balance, source
/// ownership, mint agreement, distinct accounts, and a thawed source, in
/// that order; on success the amount moves from the source balance to the
/// destination balance.
pub open spec fn spec_transfer_tokens(
    from: LedgerAccount,
    to: LedgerAccount,
    signer: Identity,
    amount: u64,
) -> Result<(LedgerAccount, LedgerAccount), TokenError>
    recommends
        from.mint@ == to.mint@ ==> from.balance + to.balance <= u64::MAX,
{
    if amount == 0 {
        Err(TokenError::InvalidAmount)
    } else if from.balance < amount {
        Err(TokenError::InsufficientFunds)
    } else if from.owner@ != signer@ {
        Err(TokenError::InvalidOwner)
    } else if from.mint@ != to.mint@ {
        Err(TokenError::MintMismatch)
    } else if from.id@ == to.id@ {
        Err(TokenError::InvalidTransfer)
    } else if from.frozen {
        Err(TokenError::AccountFrozen)
    } else {
        Ok(
            (
                LedgerAccount { balance: (from.balance - amount) as u64, ..from },
                LedgerAccount { balance: (to.balance + amount) as u64, ..to },
            ),
        )
    }
}

/// Moves `amount` base units from `from` to `to`. The transfer is atomic:
/// on success both balances change, on rejection neither does.
///
/// Two accounts of one mint never hold more than the representable total
/// supply together; the ledger engine maintains that, and the destination
/// credit here relies on it.
pub fn transfer_tokens(
    from: &mut LedgerAccount,
    to: &mut LedgerAccount,
    authority: &Identity,
    amount: u64,
) -> (r: Result<TokensTransferred, TokenError>)
    requires
        old(from).mint@ == old(to).mint@ ==> old(from).balance + old(to).balance <= u64::MAX,
    ensures
        match r {
            Ok(ev) => {
                &&& spec_transfer_tokens(*old(from), *old(to), *authority, amount) == Ok::<
                    (LedgerAccount, LedgerAccount),
                    TokenError,
                >((*final(from), *final(to)))
                &&& ev.mint@ == old(from).mint@
                &&& ev.from@ == old(from).id@
                &&& ev.to@ == old(to).id@
                &&& ev.amount == amount
            },
            Err(e) => {
                &&& spec_transfer_tokens(*old(from), *old(to), *authority, amount) == Err::<
                    (LedgerAccount, LedgerAccount),
                    TokenError,
                >(e)
                &&& *final(from) == *old(from)
                &&& *final(to) == *old(to)
            },
        },
{
    if amount == 0 {
        return Err(TokenError::InvalidAmount);
    }
    if from.balance < amount {
        return Err(TokenError::InsufficientFunds);
    }
    if !(from.owner == *authority) {
        return Err(TokenError::InvalidOwner);
    }
    if !(from.mint == to.mint) {
        return Err(TokenError::MintMismatch);
    }
    if from.id == to.id {
        return Err(TokenError::InvalidTransfer);
    }
    if from.frozen {
        return Err(TokenError::AccountFrozen);
    }
    let event = TokensTransferred { mint: from.mint, from: from.id, to: to.id, amount };
    from.balance = from.balance - amount;
    to.balance = to.balance + amount;
    Ok(event)
}

/// Outcome of the mint-info query: always succeeds, reporting the supply,
/// decimals and both authority slots verbatim.
pub fn get_mint_info(mint: &MintState) -> (r: Result<MintInfo, TokenError>)
    ensures
        r matches Ok(info) && info.supply == mint.supply && info.decimals == mint.decimals
            && info.mint_authority == mint.mint_authority && info.freeze_authority
            == mint.freeze_authority,
{
    Ok(
        MintInfo {
            supply: mint.supply,
            decimals: mint.decimals,
            mint_authority: mint.mint_authority,
            freeze_authority: mint.freeze_authority,
        },
    )
}

/// Outcome of a burn: amount positivity, account balance, account ownership,
/// mint agreement, and a thawed account, in that order; on success the amount
/// leaves both the balance and the supply.
pub open spec fn spec_burn_tokens(
    mint: MintState,
    account: LedgerAccount,
    signer: Identity,
    amount: u64,
) -> Result<(MintState, LedgerAccount), TokenError>
    recommends
        account.mint@ == mint.id@ ==> account.balance <= mint.supply,
{
    if amount == 0 {
        Err(TokenError::InvalidAmount)
    } else if account.balance < amount {
        Err(TokenError::BurnAmountExceedsBalance)
    } else if account.owner@ != signer@ {
        Err(TokenError::InvalidOwner)
    } else if account.mint@ != mint.id@ {
        Err(TokenError::MintMismatch)
    } else if account.frozen {
        Err(TokenError::AccountFrozen)
    } else {
        Ok(
            (
                MintState { supply: (mint.supply - amount) as u64, ..mint },
                LedgerAccount { balance: (account.balance - amount) as u64, ..account },
            ),
        )
    }
}

/// Burns `amount` base units from `account`, shrinking the supply by the same
/// amount. A rejected burn changes neither the account nor the mint.
///
/// An account's balance never exceeds the supply of its own mint; the ledger
/// engine maintains that, and the supply debit here relies on it.
pub fn burn_tokens(
    mint: &mut MintState,
    account: &mut LedgerAccount,
    authority: &Identity,
    amount: u64,
) -> (r: Result<TokensBurned, TokenError>)
    requires
        old(account).mint@ == old(mint).id@ ==> old(account).balance <= old(mint).supply,
    ensures
        match r {
            Ok(ev) => {
                &&& spec_burn_tokens(*old(mint), *old(account), *authority, amount) == Ok::<
                    (MintState, LedgerAccount),
                    TokenError,
                >((*final(mint), *final(account)))
                &&& ev.mint@ == old(mint).id@
                &&& ev.account@ == old(account).id@
                &&& ev.amount == amount
            },
            Err(e) => {
                &&& spec_burn_tokens(*old(mint), *old(account), *authority, amount) == Err::<
                    (MintState, LedgerAccount),
                    TokenError,
                >(e)
                &&& *final(mint) == *old(mint)
                &&& *final(account) == *old(account)
            },
        },
{
    if amount == 0 {
        return Err(TokenError::InvalidAmount);
    }
    if account.balance < amount {
        return Err(TokenError::BurnAmountExceedsBalance);
    }
    if !(account.owner == *authority) {
        return Err(TokenError::InvalidOwner);
    }
    if !(account.mint == mint.id) {
        return Err(TokenError::MintMismatch);
    }
    if account.frozen {
        return Err(TokenError::AccountFrozen);
    }
    let event = TokensBurned { mint: mint.id, account: account.id, amount };
    mint.supply = mint.supply - amount;
    account.balance = account.balance - amount;
    Ok(event)
}

/// Outcome of issuance-authority rotation: only the current issuance
/// authority may rotate, and a revoked slot has no current authority, so
/// revocation is terminal.
pub open spec fn spec_set_mint_authority(
    mint: MintState,
    signer: Identity,
    new_authority: AuthoritySlot,
) -> Result<MintState, TokenError> {
    if !authority_matches(mint.mint_authority, signer) {
        Err(TokenError::Unauthorized)
    } else {
        Ok(MintState { mint_authority: new_authority, ..mint })
    }
}

/// Rotates the issuance authority; rotating to [`AuthoritySlot::Revoked`]
/// revokes issuance permanently.
pub fn set_mint_authority(
    mint: &mut MintState,
    current_authority: &Identity,
    new_authority: AuthoritySlot,
) -> (r: Result<(), TokenError>)
    ensures
        match r {
            Ok(_) => spec_set_mint_authority(*old(mint), *current_authority, new_authority)
                == Ok::<MintState, TokenError>(*final(mint)),
            Err(e) => {
                &&& spec_set_mint_authority(*old(mint), *current_authority, new_authority)
                    == Err::<MintState, TokenError>(e)
                &&& *final(mint) == *old(mint)
            },
        },
{
    let authorized = match &mint.mint_authority {
        AuthoritySlot::Present(a) => *a == *current_authority,
        AuthoritySlot::Revoked => false,
    };
    if !authorized {
        return Err(TokenError::Unauthorized);
    }
    mint.mint_authority = new_authority;
    Ok(())
}

/// Outcome of freeze-authority rotation: only the current freeze authority
/// may rotate, and a revoked slot has no current authority, so revocation is
/// terminal.
pub open spec fn spec_set_freeze_authority(
    mint: MintState,
    signer: Identity,
    new_authority: AuthoritySlot,
) -> Result<MintState, TokenError> {
    if !authority_matches(mint.freeze_authority, signer) {
        Err(TokenError::Unauthorized)
    } else {
        Ok(MintState { freeze_authority: new_authority, ..mint })
    }
}

/// Rotates the freeze authority; rotating to [`AuthoritySlot::Revoked`]
/// revokes freezing permanently.
pub fn set_freeze_authority(
    mint: &mut MintState,
    current_authority: &Identity,
    new_authority: AuthoritySlot,
) -> (r: Result<(), TokenError>)
    ensures
        match r {
            Ok(_) => spec_set_freeze_authority(*old(mint), *current_authority, new_authority)
                == Ok::<MintState, TokenError>(*final(mint)),
            Err(e) => {
                &&& spec_set_freeze_authority(*old(mint), *current_authority, new_authority)
                    == Err::<MintState, TokenError>(e)
                &&& *final(mint) == *old(mint)
            },
        },
{
    let authorized = match &mint.freeze_authority {
        AuthoritySlot::Present(a) => *a == *current_authority,
        AuthoritySlot::Revoked => false,
    };
    if !authorized {
        return Err(TokenError::Unauthorized);
    }
    mint.freeze_authority = new_authority;
    Ok(())
}

/// Outcome of freezing: the signer must hold the freeze authority and the
/// account must belong to the mint; on success the frozen flag is set.
pub open spec fn spec_freeze_account(
    mint: MintState,
    account: LedgerAccount,
    signer: Identity,
) -> Result<LedgerAccount, TokenError> {
    if !authority_matches(mint.freeze_authority, signer) {
        Err(TokenError::Unauthorized)
    } else if account.mint@ != mint.id@ {
        Err(TokenError::MintMismatch)
    } else {
        Ok(LedgerAccount { frozen: true, ..account })
    }
}

/// Freezes `account`, blocking debiting operations until it is thawed.
pub fn freeze_account(
    mint: &MintState,
    account: &mut LedgerAccount,
    freeze_authority: &Identity,
) -> (r: Result<AccountFrozen, TokenError>)
    ensures
        match r {
            Ok(ev) => {
                &&& spec_freeze_account(*mint, *old(account), *freeze_authority) == Ok::<
                    LedgerAccount,
                    TokenError,
                >(*final(account))
                &&& ev.mint@ == mint.id@
                &&& ev.account@ == old(account).id@
            },
            Err(e) => {
                &&& spec_freeze_account(*mint, *old(account), *freeze_authority) == Err::<
                    LedgerAccount,
                    TokenError,
                >(e)
                &&& *final(account) == *old(account)
            },
        },
{
    let authorized = match &mint.freeze_authority {
        AuthoritySlot::Present(a) => *a == *freeze_authority,
        AuthoritySlot::Revoked => false,
    };
    if !authorized {
        return Err(TokenError::Unauthorized);
    }
    if !(account.mint == mint.id) {
        return Err(TokenError::MintMismatch);
    }
    account.frozen = true;
    Ok(AccountFrozen { mint: mint.id, account: account.id })
}

/// Outcome of thawing: the signer must hold the freeze authority and the
/// account must belong to the mint; on success the frozen flag is cleared.
pub open spec fn spec_thaw_account(
    mint: MintState,
    account: LedgerAccount,
    signer: Identity,
) -> Result<LedgerAccount, TokenError> {
    if !authority_matches(mint.freeze_authority, signer) {
        Err(TokenError::Unauthorized)
    } else if account.mint@ != mint.id@ {
        Err(TokenError::MintMismatch)
    } else {
        Ok(LedgerAccount { frozen: false, ..account })
    }
}

/// Thaws `account`, re-admitting debiting operations.
pub fn thaw_account(
    mint: &MintState,
    account: &mut LedgerAccount,
    freeze_authority: &Identity,
) -> (r: Result<AccountThawed, TokenError>)
    ensures
        match r {
            Ok(ev) => {
                &&& spec_thaw_account(*mint, *old(account), *freeze_authority) == Ok::<
                    LedgerAccount,
                    TokenError,
                >(*final(account))
                &&& ev.mint@ == mint.id@
                &&& ev.account@ == old(account).id@
            },
            Err(e) => {
                &&& spec_thaw_account(*mint, *old(account), *freeze_authority) == Err::<
                    LedgerAccount,
                    TokenError,
                >(e)
                &&& *final(account) == *old(account)
            },
        },
{
    let authorized = match &mint.freeze_authority {
        AuthoritySlot::Present(a) => *a == *freeze_authority,
        AuthoritySlot::Revoked => false,
    };
    if !authorized {
        return Err(TokenError::Unauthorized);
    }
    if !(account.mint == mint.id) {
        return Err(TokenError::MintMismatch);
    }
    account.frozen = false;
    Ok(AccountThawed { mint: mint.id, account: account.id })
}

/// Outcome of closure validation: the account must be empty and the signer
/// must own it.
pub open spec fn spec_close_account(account: LedgerAccount, signer: Identity) -> Result<
    (),
    TokenError,
> {
    if account.balance != 0 {
        Err(TokenError::AccountNotEmpty)
    } else if account.owner@ != signer@ {
        Err(TokenError::InvalidOwner)
    } else {
        Ok(())
    }
}

/// Admits the closure of `account`: only an empty account may be closed, and
/// only by its owner. The destruction itself, and the return of any
/// reclaimable residual value to the caller's destination, is the ledger
/// engine's business once this gate admits the operation.
pub fn close_account(account: &LedgerAccount, owner: &Identity) -> (r: Result<(), TokenError>)
    ensures
        r == spec_close_account(*account, *owner),
{
    if account.balance != 0 {
        return Err(TokenError::AccountNotEmpty);
    }
    if !(account.owner == *owner) {
        return Err(TokenError::InvalidOwner);
    }
    Ok(())
}

} // verus!
