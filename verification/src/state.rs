use vstd::prelude::*;
use crate::errors::TokenError;

verus! {

broadcast use vstd::array::group_array_axioms;

/// Maximum number of entries a batch issuance may carry.
pub const MAX_BATCH_SIZE: usize = 10;

/// Maximum byte length of a metadata URI.
pub const MAX_URI_LENGTH: usize = 200;

/// Maximum byte length of a metadata name.
pub const MAX_NAME_LENGTH: usize = 32;

/// Maximum byte length of a metadata symbol.
pub const MAX_SYMBOL_LENGTH: usize = 10;

/// Approximate rent-exempt balance of a token account, in lamports.
pub const MIN_RENT_EXEMPT_BALANCE: u64 = 2039280;

/// A 32-byte ledger address: a signer, a mint, or a token account.
///
/// Identities are only ever compared for equality; the view is the byte
/// sequence, and all contracts speak of that view.
#[derive(Clone, Copy, Debug)]
pub struct Identity {
    pub bytes: [u8; 32],
}

impl View for Identity {
    type V = Seq<u8>;

    open spec fn view(&self) -> Seq<u8> {
        self.bytes@
    }
}

impl Identity {
    pub fn new(bytes: [u8; 32]) -> (r: Identity)
        ensures
            r@ == bytes@,
    {
        Identity { bytes }
    }
}

impl PartialEq for Identity {
    fn eq(&self, other: &Identity) -> (r: bool) {
        let mut i: usize = 0;
        while i < 32
            invariant
                0 <= i <= 32,
                forall|j: int| 0 <= j < i ==> self.bytes@[j] == other.bytes@[j],
            decreases 32 - i,
        {
            if self.bytes[i] != other.bytes[i] {
                assert(self@[i as int] != other@[i as int]);
                return false;
            }
            i = i + 1;
        }
        proof {
            assert(self@ =~= other@);
        }
        true
    }
}

impl vstd::std_specs::cmp::PartialEqSpecImpl for Identity {
    open spec fn obeys_eq_spec() -> bool {
        true
    }

    open spec fn eq_spec(&self, other: &Identity) -> bool {
        self@ == other@
    }
}

impl Default for Identity {
    /// The all-zero identity.
    fn default() -> (r: Identity)
        ensures
            forall|i: int| 0 <= i < 32 ==> r@[i] == 0u8,
    {
        Identity { bytes: [0u8; 32] }
    }
}

/// One authority slot of a mint. `Revoked` is a first-class, terminal state:
/// no operation of this gate moves a slot away from `Revoked`.
#[derive(Clone, Copy, Debug)]
pub enum AuthoritySlot {
    /// A live authority that may sign for the slot's privileged action.
    Present(Identity),
    /// The slot has been permanently revoked; nobody may sign for it.
    Revoked,
}

/// True when `signer` holds the slot: the slot is live and names `signer`.
pub open spec fn authority_matches(slot: AuthoritySlot, signer: Identity) -> bool {
    slot matches AuthoritySlot::Present(a) && a@ == signer@
}

/// One fungible-asset type: its address, fixed decimal precision, current
/// total supply, and the two independently rotatable authority slots.
#[derive(Clone, Copy, Debug)]
pub struct MintState {
    /// Address of the mint itself.
    pub id: Identity,
    /// Decimal precision, fixed at creation; always between 0 and 9.
    pub decimals: u8,
    /// Current total supply.
    pub supply: u64,
    /// Slot of the identity permitted to issue supply.
    pub mint_authority: AuthoritySlot,
    /// Slot of the identity permitted to freeze and thaw accounts.
    pub freeze_authority: AuthoritySlot,
}

/// One holder's balance record for one mint.
#[derive(Clone, Copy, Debug)]
pub struct LedgerAccount {
    /// Address of the account itself.
    pub id: Identity,
    /// The identity that owns (may debit and close) the account.
    pub owner: Identity,
    /// Address of the mint this balance belongs to.
    pub mint: Identity,
    /// Current balance; never negative by construction.
    pub balance: u64,
    /// While set, the account accepts no debiting operation.
    pub frozen: bool,
}

/// Read-only summary of a mint, as returned by the mint-info query.
#[derive(Clone, Copy, Debug)]
pub struct MintInfo {
    pub supply: u64,
    pub decimals: u8,
    pub mint_authority: AuthoritySlot,
    pub freeze_authority: AuthoritySlot,
}

/// Bookkeeping record kept beside a mint: who created it, how much has been
/// issued through it, and when.
#[derive(Clone, Copy, Debug)]
pub struct TokenMintState {
    pub mint: Identity,
    pub mint_authority: Identity,
    pub total_minted: u64,
    pub created_at: i64,
    pub bump: u8,
}

impl TokenMintState {
    /// Serialized size: discriminator, mint, authority, total, timestamp, bump.
    pub const LEN: usize = 8 + 32 + 32 + 8 + 8 + 1;
}

/// One (recipient, amount) pair of a batch issuance.
#[derive(Clone, Copy, Debug)]
pub struct MintDestination {
    pub recipient: Identity,
    pub amount: u64,
}

impl MintDestination {
    pub fn new(recipient: Identity, amount: u64) -> (r: MintDestination)
        ensures
            r.recipient@ == recipient@,
            r.amount == amount,
    {
        MintDestination { recipient, amount }
    }

    /// A single entry is valid when its amount is positive.
    pub fn validate(&self) -> (r: Result<(), TokenError>)
        ensures
            self.amount > 0 ==> r == Ok::<(), TokenError>(()),
            self.amount == 0 ==> r == Err::<(), TokenError>(TokenError::InvalidAmount),
    {
        if self.amount > 0 {
            Ok(())
        } else {
            Err(TokenError::InvalidAmount)
        }
    }
}

} // verus!
