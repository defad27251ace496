use vstd::prelude::*;
use vstd::bytes::{spec_u16_to_le_bytes, spec_u64_to_le_bytes, u16_to_le_bytes, u64_to_le_bytes};
use vstd::string::StringSliceAdditionalSpecFns;
use vstd::utf8::encode_utf8;
use crate::errors::TokenError;
use crate::state::{Identity, MAX_URI_LENGTH};

verus! {

/// Descriptive fields attached to a token at creation time: a name, a ticker
/// symbol, a URI pointing at off-ledger data, and a royalty fee in basis
/// points. Validated once at creation and not mutable thereafter.
#[derive(Clone, Debug)]
pub struct TokenMetadata {
    pub name: String,
    pub symbol: String,
    pub uri: String,
    pub seller_fee_basis_points: u16,
}

impl TokenMetadata {
    /// Outcome of descriptor validation: the first violated field rule wins,
    /// checked in the order name, symbol, URI, fee.
    pub open spec fn spec_validate(&self) -> Result<(), TokenError> {
        if self.name@.len() == 0 {
            Err(TokenError::InvalidName)
        } else if self.symbol@.len() == 0 {
            Err(TokenError::InvalidSymbol)
        } else if encode_utf8(self.uri@).len() > MAX_URI_LENGTH {
            Err(TokenError::UriTooLong)
        } else if self.seller_fee_basis_points > 10000 {
            Err(TokenError::InvalidMintConfig)
        } else {
            Ok(())
        }
    }

    /// Checks the descriptor: non-empty name and symbol, URI of at most
    /// [`MAX_URI_LENGTH`] bytes, fee of at most 10000 basis points.
    pub fn validate(&self) -> (r: Result<(), TokenError>)
        ensures
            r == self.spec_validate(),
    {
        if self.name.as_str().is_empty() {
            return Err(TokenError::InvalidName);
        }
        if self.symbol.as_str().is_empty() {
            return Err(TokenError::InvalidSymbol);
        }
        let uri_bytes: &[u8] = self.uri.as_str().as_bytes();
        if uri_bytes.len() > MAX_URI_LENGTH {
            return Err(TokenError::UriTooLong);
        }
        if self.seller_fee_basis_points > 10000 {
            return Err(TokenError::InvalidMintConfig);
        }
        Ok(())
    }
}

/// The byte layout of a metadata-registration instruction: a one-byte
/// discriminator, then each text field as a little-endian 64-bit byte length
/// followed by its UTF-8 bytes, the fee, a single verified creator entry for
/// the payer with a 100% share, and empty collection and uses sections.
pub open spec fn spec_metadata_instruction_data(
    payer: Identity,
    name: Seq<char>,
    symbol: Seq<char>,
    uri: Seq<char>,
    seller_fee_basis_points: u16,
) -> Seq<u8> {
    seq![33u8] + spec_u64_to_le_bytes(encode_utf8(name).len() as u64) + encode_utf8(name)
        + spec_u64_to_le_bytes(encode_utf8(symbol).len() as u64) + encode_utf8(symbol)
        + spec_u64_to_le_bytes(encode_utf8(uri).len() as u64) + encode_utf8(uri)
        + spec_u16_to_le_bytes(seller_fee_basis_points) + seq![1u8] + payer@ + seq![1u8, 100u8]
        + seq![0u8, 0u8]
}

/// Encodes the registration instruction for the metadata collaborator,
/// byte for byte as [`spec_metadata_instruction_data`] lays it out.
pub fn create_metadata_instruction_data(
    payer: &Identity,
    name: &str,
    symbol: &str,
    uri: &str,
    seller_fee_basis_points: u16,
) -> (data: Vec<u8>)
    ensures
        data@ == spec_metadata_instruction_data(
            *payer,
            name@,
            symbol@,
            uri@,
            seller_fee_basis_points,
        ),
{
    let mut data: Vec<u8> = Vec::new();
    data.push(33);
    let ghost s1 = data@;
    let name_bytes: &[u8] = name.as_bytes();
    let name_len_le: Vec<u8> = u64_to_le_bytes(name_bytes.len() as u64);
    data.extend_from_slice(name_len_le.as_slice());
    assert(data@ =~= s1 + name_len_le@);
    let ghost s2 = data@;
    data.extend_from_slice(name_bytes);
    assert(data@ =~= s2 + name_bytes@);
    let ghost s3 = data@;
    let symbol_bytes: &[u8] = symbol.as_bytes();
    let symbol_len_le: Vec<u8> = u64_to_le_bytes(symbol_bytes.len() as u64);
    data.extend_from_slice(symbol_len_le.as_slice());
    assert(data@ =~= s3 + symbol_len_le@);
    let ghost s4 = data@;
    data.extend_from_slice(symbol_bytes);
    assert(data@ =~= s4 + symbol_bytes@);
    let ghost s5 = data@;
    let uri_bytes: &[u8] = uri.as_bytes();
    let uri_len_le: Vec<u8> = u64_to_le_bytes(uri_bytes.len() as u64);
    data.extend_from_slice(uri_len_le.as_slice());
    assert(data@ =~= s5 + uri_len_le@);
    let ghost s6 = data@;
    data.extend_from_slice(uri_bytes);
    assert(data@ =~= s6 + uri_bytes@);
    let ghost s7 = data@;
    let fee_le: Vec<u8> = u16_to_le_bytes(seller_fee_basis_points);
    data.extend_from_slice(fee_le.as_slice());
    assert(data@ =~= s7 + fee_le@);
    data.push(1);
    let ghost s8 = data@;
    data.extend_from_slice(payer.bytes.as_slice());
    assert(data@ =~= s8 + payer@);
    data.push(1);
    data.push(100);
    data.push(0);
    data.push(0);
    assert(data@ =~= spec_metadata_instruction_data(
        *payer,
        name@,
        symbol@,
        uri@,
        seller_fee_basis_points,
    ));
    data
}

} // verus!
