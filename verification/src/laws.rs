use vstd::prelude::*;
use crate::errors::TokenError;
use crate::handlers::{spec_burn_tokens, spec_freeze_account, spec_mint_tokens,
    spec_set_freeze_authority, spec_set_mint_authority, spec_thaw_account, spec_transfer_tokens};
use crate::state::{authority_matches, AuthoritySlot, Identity, LedgerAccount, MintState};

verus! {

/// Signed supply deltas of a run of operations, summed in order.
pub open spec fn sum_deltas(deltas: Seq<int>) -> int
    decreases deltas.len(),
{
    if deltas.len() == 0 {
        0
    } else {
        sum_deltas(deltas.drop_last()) + deltas.last()
    }
}

/// One step of a mint's supply history: the supply moves by exactly `delta`.
/// A successful issue contributes its amount, a successful burn the negated
/// amount, and a rejected operation contributes zero, the handlers leaving
/// the mint untouched on rejection.
pub open spec fn supply_step(pre: MintState, post: MintState, delta: int) -> bool {
    post.supply == pre.supply + delta
}

/// Law: over any chain of mint states whose steps each move the supply by a
/// known delta, the final supply equals the initial supply plus the sum of
/// the applied deltas.
pub proof fn lemma_supply_accounting(states: Seq<MintState>, deltas: Seq<int>)
    requires
        states.len() == deltas.len() + 1,
        forall|i: int| 0 <= i < deltas.len() ==> supply_step(states[i], states[i + 1], deltas[i]),
    ensures
        states.last().supply == states[0].supply + sum_deltas(deltas),
    decreases deltas.len(),
{
    if deltas.len() > 0 {
        let n = deltas.len() as int;
        assert(forall|i: int|
            0 <= i < n - 1 ==> supply_step(
                states.drop_last()[i],
                states.drop_last()[i + 1],
                deltas.drop_last()[i],
            ));
        lemma_supply_accounting(states.drop_last(), deltas.drop_last());
        assert(supply_step(states[n - 1], states[n], deltas[n - 1]));
        assert(states.drop_last().last() == states[n - 1]);
    }
}

/// Law: a successful issue moves the supply by exactly the issued amount,
/// and a successful burn by exactly the negated burnt amount, so each run of
/// operations feeds [`lemma_supply_accounting`] with its own amounts.
pub proof fn lemma_issue_burn_supply_delta(
    mint: MintState,
    destination: LedgerAccount,
    account: LedgerAccount,
    signer: Identity,
    amount: u64,
)
    requires
        account.mint@ == mint.id@ ==> account.balance <= mint.supply,
    ensures
        spec_mint_tokens(mint, destination, signer, amount) matches Ok(p) ==> supply_step(
            mint,
            p.0,
            amount as int,
        ),
        spec_burn_tokens(mint, account, signer, amount) matches Ok(p) ==> supply_step(
            mint,
            p.0,
            -(amount as int),
        ),
{
}

/// Law: an issue that would push the supply past the largest representable
/// value is rejected with `SupplyOverflow`; the handler then leaves the mint
/// and the destination untouched.
pub proof fn lemma_supply_overflow_rejected(
    mint: MintState,
    destination: LedgerAccount,
    signer: Identity,
    amount: u64,
)
    requires
        amount > 0,
        authority_matches(mint.mint_authority, signer),
        mint.supply + amount > u64::MAX,
    ensures
        spec_mint_tokens(mint, destination, signer, amount) == Err::<
            (MintState, LedgerAccount),
            TokenError,
        >(TokenError::SupplyOverflow),
{
}

/// Law: a debit that the source balance does not cover is rejected — with
/// `InsufficientFunds` for a transfer and `BurnAmountExceedsBalance` for a
/// burn — and the handlers then change no balance on either side. Balances
/// are machine naturals throughout, so none is ever negative.
pub proof fn lemma_overdraft_rejected(
    mint: MintState,
    from: LedgerAccount,
    to: LedgerAccount,
    signer: Identity,
    amount: u64,
)
    requires
        amount > 0,
        from.balance < amount,
    ensures
        spec_transfer_tokens(from, to, signer, amount) == Err::<
            (LedgerAccount, LedgerAccount),
            TokenError,
        >(TokenError::InsufficientFunds),
        spec_burn_tokens(mint, from, signer, amount) == Err::<
            (MintState, LedgerAccount),
            TokenError,
        >(TokenError::BurnAmountExceedsBalance),
{
}

/// Law: with every other transfer check passing, a frozen source is rejected
/// with `AccountFrozen`, and once the freeze authority thaws it, the very
/// same transfer succeeds.
pub proof fn lemma_thaw_restores_transfer(
    mint: MintState,
    from: LedgerAccount,
    to: LedgerAccount,
    freezer: Identity,
    signer: Identity,
    amount: u64,
)
    requires
        0 < amount <= from.balance,
        from.owner@ == signer@,
        from.mint@ == to.mint@,
        from.id@ != to.id@,
        from.frozen,
        authority_matches(mint.freeze_authority, freezer),
        from.mint@ == mint.id@,
    ensures
        spec_transfer_tokens(from, to, signer, amount) == Err::<
            (LedgerAccount, LedgerAccount),
            TokenError,
        >(TokenError::AccountFrozen),
        spec_thaw_account(mint, from, freezer) matches Ok(thawed) && spec_transfer_tokens(
            thawed,
            to,
            signer,
            amount,
        ) is Ok,
{
}

/// Law: with every other burn check passing, a frozen account is rejected
/// with `AccountFrozen`, and once the freeze authority thaws it, the very
/// same burn succeeds.
pub proof fn lemma_thaw_restores_burn(
    mint: MintState,
    account: LedgerAccount,
    freezer: Identity,
    signer: Identity,
    amount: u64,
)
    requires
        0 < amount <= account.balance,
        account.owner@ == signer@,
        account.mint@ == mint.id@,
        account.balance <= mint.supply,
        account.frozen,
        authority_matches(mint.freeze_authority, freezer),
    ensures
        spec_burn_tokens(mint, account, signer, amount) == Err::<
            (MintState, LedgerAccount),
            TokenError,
        >(TokenError::AccountFrozen),
        spec_thaw_account(mint, account, freezer) matches Ok(thawed) && spec_burn_tokens(
            mint,
            thawed,
            signer,
            amount,
        ) is Ok,
{
}

/// Law: revocation of the issuance slot is terminal. Once the slot is
/// `Revoked`, every issuance attempt with a positive amount fails
/// `Unauthorized`, whoever signs, and so does every further rotation of the
/// slot — no operation of this gate revives it. (A zero amount is reported
/// as `InvalidAmount` before the authority is consulted.)
pub proof fn lemma_issuance_revocation_terminal(
    mint: MintState,
    destination: LedgerAccount,
    signer: Identity,
    new_authority: AuthoritySlot,
    amount: u64,
)
    requires
        mint.mint_authority is Revoked,
        amount > 0,
    ensures
        spec_mint_tokens(mint, destination, signer, amount) == Err::<
            (MintState, LedgerAccount),
            TokenError,
        >(TokenError::Unauthorized),
        spec_set_mint_authority(mint, signer, new_authority) == Err::<MintState, TokenError>(
            TokenError::Unauthorized,
        ),
{
}

/// Law: revocation of the freeze slot is terminal. Once the slot is
/// `Revoked`, freezing, thawing and every further rotation of the slot fail
/// `Unauthorized`, whoever signs.
pub proof fn lemma_freeze_revocation_terminal(
    mint: MintState,
    account: LedgerAccount,
    signer: Identity,
    new_authority: AuthoritySlot,
)
    requires
        mint.freeze_authority is Revoked,
    ensures
        spec_freeze_account(mint, account, signer) == Err::<LedgerAccount, TokenError>(
            TokenError::Unauthorized,
        ),
        spec_thaw_account(mint, account, signer) == Err::<LedgerAccount, TokenError>(
            TokenError::Unauthorized,
        ),
        spec_set_freeze_authority(mint, signer, new_authority) == Err::<MintState, TokenError>(
            TokenError::Unauthorized,
        ),
{
}

/// Law: a transfer whose source and destination are the same account is
/// rejected with `InvalidTransfer`, whatever the balance involved, provided
/// the earlier checks of the fail-fast chain pass: the amount is positive
/// and covered, and the signer owns the account. (An amount the balance does
/// not cover is reported as `InsufficientFunds` first.)
pub proof fn lemma_self_transfer_rejected(
    from: LedgerAccount,
    to: LedgerAccount,
    signer: Identity,
    amount: u64,
)
    requires
        0 < amount <= from.balance,
        from.owner@ == signer@,
        from.mint@ == to.mint@,
        from.id@ == to.id@,
    ensures
        spec_transfer_tokens(from, to, signer, amount) == Err::<
            (LedgerAccount, LedgerAccount),
            TokenError,
        >(TokenError::InvalidTransfer),
{
}

} // verus!
