//! The calls into the Solana crates. Nothing in this file is proved: each
//! contract states what the crate's source shows of the function it names.

use vstd::prelude::*;
use anchor_lang::prelude::Pubkey;
use anchor_lang::solana_program::program_pack::Pack;
use mpl_token_metadata::state::{Metadata, TokenMetadataAccount};

verus! {

/// What the logic reads of a token account.
#[derive(Clone, Copy, Debug, PartialEq, Eq)]
pub struct TokenAccount {
    pub mint: [u8; 32],
    pub owner: [u8; 32],
    pub amount: u64,
    /// 0 while the account is not initialized, 1 once it is, 2 when frozen.
    pub state: u8,
}

impl TokenAccount {
    pub open spec fn spec_is_initialized(&self) -> bool {
        self.state != 0
    }

    #[verifier::when_used_as_spec(spec_is_initialized)]
    pub fn is_initialized(&self) -> (yes: bool)
        ensures
            yes == self.spec_is_initialized(),
    {
        self.state != 0
    }
}

/// What the logic reads of an item's metadata record.
#[derive(Clone, Copy, Debug, PartialEq, Eq)]
pub struct MetadataRecord {
    /// The collection the item declares, if any.
    pub collection: Option<[u8; 32]>,
}

/// The Keccak-256 digest of `data`, 32 bytes.
pub uninterp spec fn spec_keccak256(data: Seq<u8>) -> Seq<u8>;

/// The program address that `seeds` derive under `program_id`, with its bump
/// seed, if one exists.
pub uninterp spec fn spec_program_address(seeds: Seq<Seq<u8>>, program_id: Seq<u8>) -> Option<
    (Seq<u8>, u8),
>;

/// The token account that `data` unpacks to, if it is one.
pub uninterp spec fn spec_unpack_token_account(data: Seq<u8>) -> Option<TokenAccount>;

/// The metadata record that `data` deserializes to, if it is one.
pub uninterp spec fn spec_metadata_record(data: Seq<u8>) -> Option<MetadataRecord>;

/// The address of the token program.
pub open spec fn spec_token_program_id() -> Seq<u8> {
    seq![
        6u8, 221u8, 246u8, 225u8, 215u8, 101u8, 161u8, 147u8, 217u8, 203u8, 225u8, 70u8, 206u8,
        235u8, 121u8, 172u8, 28u8, 180u8, 133u8, 237u8, 95u8, 91u8, 55u8, 145u8, 58u8, 140u8,
        245u8, 133u8, 126u8, 255u8, 0u8, 169u8,
    ]
}

/// The address of the associated-token-account program.
pub open spec fn spec_associated_token_program_id() -> Seq<u8> {
    seq![
        140u8, 151u8, 37u8, 143u8, 78u8, 36u8, 137u8, 241u8, 187u8, 61u8, 16u8, 41u8, 20u8,
        142u8, 13u8, 131u8, 11u8, 90u8, 19u8, 153u8, 218u8, 255u8, 16u8, 132u8, 4u8, 142u8,
        123u8, 216u8, 219u8, 233u8, 248u8, 89u8,
    ]
}

/// The address of the token-metadata program.
pub open spec fn spec_metadata_program_id() -> Seq<u8> {
    seq![
        11u8, 112u8, 101u8, 177u8, 227u8, 209u8, 124u8, 69u8, 56u8, 157u8, 82u8, 127u8, 107u8,
        4u8, 195u8, 205u8, 88u8, 184u8, 108u8, 115u8, 26u8, 160u8, 253u8, 181u8, 73u8, 182u8,
        209u8, 188u8, 3u8, 248u8, 41u8, 70u8,
    ]
}

/// The first seed of every metadata address: the bytes of the word "metadata".
pub open spec fn spec_metadata_seed_prefix() -> Seq<u8> {
    seq![109u8, 101u8, 116u8, 97u8, 100u8, 97u8, 116u8, 97u8]
}

/// `solana_program::keccak::hashv` on the two slices `left` and `right`. The
/// hasher takes the slices one after the other, so the digest is that of their
/// concatenation.
#[verifier::external_body]
pub(crate) fn keccak_hashv(left: &[u8], right: &[u8]) -> (digest: [u8; 32])
    ensures
        digest@ == spec_keccak256(left@ + right@),
{
    anchor_lang::solana_program::keccak::hashv(&[left, right]).0
}

/// `Pubkey::try_find_program_address` on three seeds. It searches the bump
/// seeds from 255 down and gives the first address off the curve, or `None`
/// when there is none; it depends on its arguments alone.
#[verifier::external_body]
pub(crate) fn try_find_program_address(
    first: &[u8],
    second: &[u8],
    third: &[u8],
    program_id: &[u8; 32],
) -> (found: Option<([u8; 32], u8)>)
    ensures
        match found {
            Some((address, bump)) => spec_program_address(
                seq![first@, second@, third@],
                program_id@,
            ) == Some((address@, bump)),
            None => spec_program_address(seq![first@, second@, third@], program_id@) is None,
        },
{
    let id = Pubkey::new_from_array(*program_id);
    match Pubkey::try_find_program_address(&[first, second, third], &id) {
        Some((address, bump)) => Some((address.to_bytes(), bump)),
        None => None,
    }
}

/// `spl_token::state::Account::unpack_unchecked`: the account that the bytes
/// hold, `None` where it reports an error.
#[verifier::external_body]
pub(crate) fn unpack_token_account(data: &[u8]) -> (account: Option<TokenAccount>)
    ensures
        account == spec_unpack_token_account(data@),
{
    match spl_token::state::Account::unpack_unchecked(data) {
        Ok(a) => Some(
            TokenAccount {
                mint: a.mint.to_bytes(),
                owner: a.owner.to_bytes(),
                amount: a.amount,
                state: a.state as u8,
            },
        ),
        Err(_) => None,
    }
}

/// `Metadata::safe_deserialize` of the token-metadata crate: the record that
/// the bytes hold, `None` where it reports an error.
#[verifier::external_body]
pub(crate) fn deserialize_metadata(data: &[u8]) -> (record: Option<MetadataRecord>)
    ensures
        record == spec_metadata_record(data@),
{
    match Metadata::safe_deserialize(data) {
        Ok(metadata) => Some(
            MetadataRecord { collection: metadata.collection.map(|c| c.key.to_bytes()) },
        ),
        Err(_) => None,
    }
}

/// `spl_token::id`.
#[verifier::external_body]
pub(crate) fn token_program_id() -> (id: [u8; 32])
    ensures
        id@ == spec_token_program_id(),
{
    spl_token::id().to_bytes()
}

/// `spl_associated_token_account::id`.
#[verifier::external_body]
pub(crate) fn associated_token_program_id() -> (id: [u8; 32])
    ensures
        id@ == spec_associated_token_program_id(),
{
    spl_associated_token_account::id().to_bytes()
}

/// `mpl_token_metadata::id`.
#[verifier::external_body]
pub(crate) fn metadata_program_id() -> (id: [u8; 32])
    ensures
        id@ == spec_metadata_program_id(),
{
    mpl_token_metadata::id().to_bytes()
}

/// `mpl_token_metadata::state::PREFIX`, as bytes.
#[verifier::external_body]
pub(crate) fn metadata_seed_prefix() -> (prefix: &'static [u8])
    ensures
        prefix@ == spec_metadata_seed_prefix(),
{
    mpl_token_metadata::state::PREFIX.as_bytes()
}

} // verus!
