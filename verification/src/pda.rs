use vstd::prelude::*;
use crate::state::Identity;

verus! {

/// The associated token account address that the token program derives for a
/// wallet and a mint. The derivation is deterministic in the two addresses
/// alone; its value is the result of the program-derived-address search and
/// is left uninterpreted.
pub uninterp spec fn associated_token_address_of(wallet: Seq<u8>, mint: Seq<u8>) -> Seq<u8>;

/// The metadata account address, with its bump seed, that the metadata
/// program derives for a mint. Deterministic in the mint address alone and
/// left uninterpreted, like [`associated_token_address_of`].
pub uninterp spec fn metadata_address_of(mint: Seq<u8>) -> (Seq<u8>, u8);

/// Relies on `anchor_spl::associated_token::get_associated_token_address`:
/// the associated token account address is a pure derivation from the wallet
/// and mint addresses.
#[verifier::external_body]
pub fn get_associated_token_address(wallet: &Identity, mint: &Identity) -> (r: Identity)
    ensures
        r@ == associated_token_address_of(wallet@, mint@),
{
    let w = anchor_lang::prelude::Pubkey::new_from_array(wallet.bytes);
    let m = anchor_lang::prelude::Pubkey::new_from_array(mint.bytes);
    let derived = anchor_spl::associated_token::get_associated_token_address(&w, &m);
    Identity { bytes: derived.to_bytes() }
}

/// Relies on `Pubkey::find_program_address` over the metadata-program seeds
/// (the literal prefix, the metadata program id, and the mint address): the
/// derived address and bump seed are a pure derivation from the mint address.
#[verifier::external_body]
pub fn get_metadata_address(mint: &Identity) -> (r: (Identity, u8))
    ensures
        (r.0@, r.1) == metadata_address_of(mint@),
{
    let program = anchor_lang::prelude::Pubkey::new_from_array(mpl_token_metadata::ID.to_bytes());
    let m = anchor_lang::prelude::Pubkey::new_from_array(mint.bytes);
    let (address, bump) = anchor_lang::prelude::Pubkey::find_program_address(
        &["metadata".as_bytes(), &program.to_bytes(), m.as_ref()],
        &program,
    );
    (Identity { bytes: address.to_bytes() }, bump)
}

} // verus!
