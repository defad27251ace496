use vstd::prelude::*;
use crate::errors::TokenError;
use crate::state::{authority_matches, AuthoritySlot, Identity, MintDestination, MintState,
    MAX_BATCH_SIZE};

verus! {

/// Checks that `authority` currently holds the issuance-authority slot of
/// `mint`; fails `Unauthorized` when the slot is revoked or names someone else.
pub fn validate_mint_authority(mint: &MintState, authority: &Identity) -> (r: Result<
    (),
    TokenError,
>)
    ensures
        authority_matches(mint.mint_authority, *authority) ==> r == Ok::<(), TokenError>(()),
        !authority_matches(mint.mint_authority, *authority) ==> r == Err::<(), TokenError>(
            TokenError::Unauthorized,
        ),
{
    match &mint.mint_authority {
        AuthoritySlot::Present(a) => {
            if a == authority {
                Ok(())
            } else {
                Err(TokenError::Unauthorized)
            }
        },
        AuthoritySlot::Revoked => Err(TokenError::Unauthorized),
    }
}

/// Checks that `authority` currently holds the freeze-authority slot of
/// `mint`; fails `Unauthorized` when the slot is revoked or names someone else.
pub fn validate_freeze_authority(mint: &MintState, authority: &Identity) -> (r: Result<
    (),
    TokenError,
>)
    ensures
        authority_matches(mint.freeze_authority, *authority) ==> r == Ok::<(), TokenError>(()),
        !authority_matches(mint.freeze_authority, *authority) ==> r == Err::<(), TokenError>(
            TokenError::Unauthorized,
        ),
{
    match &mint.freeze_authority {
        AuthoritySlot::Present(a) => {
            if a == authority {
                Ok(())
            } else {
                Err(TokenError::Unauthorized)
            }
        },
        AuthoritySlot::Revoked => Err(TokenError::Unauthorized),
    }
}

/// The supply a mint would have after issuing `mint_amount` on top of
/// `current_supply`; fails `SupplyOverflow` instead of wrapping when the sum
/// does not fit in 64 bits.
pub fn calculate_total_supply_after_mint(current_supply: u64, mint_amount: u64) -> (r: Result<
    u64,
    TokenError,
>)
    ensures
        current_supply + mint_amount <= u64::MAX ==> r == Ok::<u64, TokenError>(
            (current_supply + mint_amount) as u64,
        ),
        current_supply + mint_amount > u64::MAX ==> r == Err::<u64, TokenError>(
            TokenError::SupplyOverflow,
        ),
{
    match current_supply.checked_add(mint_amount) {
        Some(total) => Ok(total),
        None => Err(TokenError::SupplyOverflow),
    }
}

/// Sum of the entry amounts of a batch.
pub open spec fn sum_amounts(ds: Seq<MintDestination>) -> int
    decreases ds.len(),
{
    if ds.len() == 0 {
        0
    } else {
        sum_amounts(ds.drop_last()) + ds.last().amount
    }
}

/// Outcome of the batch-bounds check: an empty batch is `InvalidAmount`, one
/// with more than [`MAX_BATCH_SIZE`] entries is `BatchLimitExceeded`, and any
/// zero entry amount is `InvalidAmount`.
pub open spec fn spec_validate_batch_destinations(ds: Seq<MintDestination>) -> Result<
    (),
    TokenError,
> {
    if ds.len() == 0 {
        Err(TokenError::InvalidAmount)
    } else if ds.len() > MAX_BATCH_SIZE {
        Err(TokenError::BatchLimitExceeded)
    } else if exists|i: int| 0 <= i < ds.len() && ds[i].amount == 0 {
        Err(TokenError::InvalidAmount)
    } else {
        Ok(())
    }
}

/// Checks the cardinality bounds of a batch and that every entry carries a
/// positive amount.
pub fn validate_batch_destinations(destinations: &[MintDestination]) -> (r: Result<
    (),
    TokenError,
>)
    ensures
        r == spec_validate_batch_destinations(destinations@),
{
    if destinations.len() == 0 {
        return Err(TokenError::InvalidAmount);
    }
    if destinations.len() > MAX_BATCH_SIZE {
        return Err(TokenError::BatchLimitExceeded);
    }
    let n = destinations.len();
    let mut i: usize = 0;
    while i < n
        invariant
            n == destinations@.len(),
            0 <= i <= n,
            n <= MAX_BATCH_SIZE,
            forall|j: int| 0 <= j < i ==> destinations@[j].amount > 0,
        decreases n - i,
    {
        match destinations[i].validate() {
            Ok(_) => {},
            Err(e) => {
                return Err(e);
            },
        }
        i = i + 1;
    }
    Ok(())
}

/// Ten to the power `d`.
pub open spec fn pow10(d: nat) -> nat
    decreases d,
{
    if d == 0 {
        1nat
    } else {
        10 * pow10((d - 1) as nat)
    }
}

/// `pow10` never exceeds `pow10` of a larger exponent.
proof fn lemma_pow10_increases(a: nat, b: nat)
    requires
        a <= b,
    ensures
        0 < pow10(a) <= pow10(b),
    decreases b,
{
    if b > 0 {
        if a == b {
            lemma_pow10_increases((a - 1) as nat, (b - 1) as nat);
        } else {
            lemma_pow10_increases(a, (b - 1) as nat);
        }
    }
}

/// Cost in lamports of issuing `amount` base units at the given precision:
/// a flat base cost plus one lamport per whole token.
pub fn calculate_mint_cost(amount: u64, decimals: u8) -> (r: u64)
    requires
        decimals <= 9,
        1000 + amount as int / pow10(decimals as nat) as int <= u64::MAX,
    ensures
        r == 1000 + amount as int / pow10(decimals as nat) as int,
{
    let base_cost: u64 = 1000;
    let mut divisor: u64 = 1;
    let mut d: u8 = 0;
    proof {
        reveal_with_fuel(pow10, 11);
        assert(pow10(9) == 1000000000);
    }
    while d < decimals
        invariant
            d <= decimals <= 9,
            divisor == pow10(d as nat),
            pow10(9) == 1000000000,
        decreases decimals - d,
    {
        proof {
            lemma_pow10_increases(d as nat, 8);
            reveal_with_fuel(pow10, 11);
        }
        divisor = divisor * 10;
        d = d + 1;
    }
    proof {
        lemma_pow10_increases(0, decimals as nat);
    }
    let amount_factor = amount / divisor;
    base_cost + amount_factor
}

} // verus!
