use vstd::prelude::*;
use crate::error::{ErrorCode, PoolError};
use crate::ledger::{
    associated_token_program_id, deserialize_metadata, keccak_hashv, metadata_program_id,
    metadata_seed_prefix, spec_associated_token_program_id, spec_keccak256,
    spec_metadata_program_id, spec_metadata_record, spec_metadata_seed_prefix,
    spec_program_address, spec_token_program_id, spec_unpack_token_account, token_program_id,
    try_find_program_address, unpack_token_account, MetadataRecord, TokenAccount,
};
use crate::state::{delta_fits, AccountSnapshot, Pool, CURVE_TYPE_EXPONENTIAL, POOL_TYPE_TRADE};

verus! {

/// The lexicographic order on byte strings: the first byte in which two strings
/// differ decides, and a prefix comes before what extends it.
pub open spec fn lex_le(a: Seq<u8>, b: Seq<u8>) -> bool
    decreases a.len(),
{
    if a.len() == 0 {
        true
    } else if b.len() == 0 {
        false
    } else if a[0] != b[0] {
        a[0] < b[0]
    } else {
        lex_le(a.drop_first(), b.drop_first())
    }
}

/// Whether `a` comes before `b`, or equals it, in lexicographic order.
pub fn bytes_le(a: &[u8; 32], b: &[u8; 32]) -> (le: bool)
    ensures
        le == lex_le(a@, b@),
{
    let mut i: usize = 0;
    assert(a@.skip(0) == a@ && b@.skip(0) == b@);
    while i < 32
        invariant
            i <= 32,
            lex_le(a@, b@) == lex_le(a@.skip(i as int), b@.skip(i as int)),
        decreases 32 - i,
    {
        proof {
            assert(a@.skip(i as int).drop_first() == a@.skip(i + 1));
            assert(b@.skip(i as int).drop_first() == b@.skip(i + 1));
        }
        if a[i] != b[i] {
            return a[i] < b[i];
        }
        i += 1;
    }
    true
}

/// Whether two keys hold the same bytes.
pub fn keys_equal(key1: &[u8; 32], key2: &[u8; 32]) -> (same: bool)
    ensures
        same == (key1@ == key2@),
{
    let mut i: usize = 0;
    while i < 32
        invariant
            i <= 32,
            forall|j: int| 0 <= j < i ==> key1@[j] == key2@[j],
        decreases 32 - i,
    {
        if key1[i] != key2[i] {
            return false;
        }
        i += 1;
    }
    assert(key1@ =~= key2@);
    true
}

pub fn assert_keys_equal(key1: [u8; 32], key2: [u8; 32]) -> (r: Result<(), PoolError>)
    ensures
        r == (if key1@ == key2@ {
            Ok::<(), PoolError>(())
        } else {
            Err(PoolError::Code(ErrorCode::PublicKeyMismatch))
        }),
{
    if keys_equal(&key1, &key2) {
        Ok(())
    } else {
        Err(PoolError::Code(ErrorCode::PublicKeyMismatch))
    }
}

/// What is left of an unpacked token account once it is asked to be in use.
pub open spec fn initialized_spec(unpacked: Option<TokenAccount>) -> Result<
    TokenAccount,
    PoolError,
> {
    match unpacked {
        None => Err(PoolError::InvalidAccountData),
        Some(account) => if account.state == 0 {
            Err(PoolError::Code(ErrorCode::NotInitialized))
        } else {
            Ok(account)
        },
    }
}

/// Accepts an unpacked token account that is in use.
pub fn check_initialized(unpacked: Option<TokenAccount>) -> (r: Result<TokenAccount, PoolError>)
    ensures
        r == initialized_spec(unpacked),
{
    match unpacked {
        None => Err(PoolError::InvalidAccountData),
        Some(account) => {
            if !account.is_initialized() {
                Err(PoolError::Code(ErrorCode::NotInitialized))
            } else {
                Ok(account)
            }
        },
    }
}

/// Unpacks the token account that `account_info` holds and accepts it if it is
/// in use.
pub fn assert_initialized(account_info: &AccountSnapshot) -> (r: Result<TokenAccount, PoolError>)
    ensures
        r == initialized_spec(spec_unpack_token_account(account_info.data@)),
{
    check_initialized(unpack_token_account(account_info.data.as_slice()))
}

pub fn assert_owned_by(account: &AccountSnapshot, owner: &[u8; 32]) -> (r: Result<(), PoolError>)
    ensures
        r == (if account.owner@ == owner@ {
            Ok::<(), PoolError>(())
        } else {
            Err(PoolError::Code(ErrorCode::IncorrectOwner))
        }),
{
    if !keys_equal(&account.owner, owner) {
        Err(PoolError::Code(ErrorCode::IncorrectOwner))
    } else {
        Ok(())
    }
}

/// The address of the token account that goes with `wallet` and `mint`: the
/// program address of the three seeds wallet, token program and mint under the
/// associated-token-account program.
pub open spec fn associated_token_address_spec(wallet: Seq<u8>, mint: Seq<u8>) -> Option<Seq<u8>> {
    match spec_program_address(
        seq![wallet, spec_token_program_id(), mint],
        spec_associated_token_program_id(),
    ) {
        Some((address, _)) => Some(address),
        None => None,
    }
}

pub fn get_associated_token_address(wallet: &[u8; 32], mint: &[u8; 32]) -> (address: Option<
    [u8; 32],
>)
    ensures
        match address {
            Some(a) => associated_token_address_spec(wallet@, mint@) == Some(a@),
            None => associated_token_address_spec(wallet@, mint@) is None,
        },
{
    let token_program = token_program_id();
    let program = associated_token_program_id();
    match try_find_program_address(
        wallet.as_slice(),
        token_program.as_slice(),
        mint.as_slice(),
        &program,
    ) {
        Some((address, _)) => Some(address),
        None => None,
    }
}

/// What `assert_is_ata` answers, given what the account unpacks to and the
/// address that goes with wallet and mint.
pub open spec fn ata_spec(
    ata: AccountSnapshot,
    wallet: Seq<u8>,
    unpacked: Option<TokenAccount>,
    expected: Option<Seq<u8>>,
) -> Result<TokenAccount, PoolError> {
    if ata.owner@ != spec_token_program_id() {
        Err(PoolError::Code(ErrorCode::IncorrectOwner))
    } else {
        match initialized_spec(unpacked) {
            Err(e) => Err(e),
            Ok(account) => if account.owner@ != wallet {
                Err(PoolError::Code(ErrorCode::PublicKeyMismatch))
            } else if expected != Some(ata.key@) {
                Err(PoolError::Code(ErrorCode::PublicKeyMismatch))
            } else {
                Ok(account)
            },
        }
    }
}

/// What `assert_is_ata` answers.
pub open spec fn assert_is_ata_spec(ata: AccountSnapshot, wallet: Seq<u8>, mint: Seq<u8>) -> Result<
    TokenAccount,
    PoolError,
> {
    ata_spec(
        ata,
        wallet,
        spec_unpack_token_account(ata.data@),
        associated_token_address_spec(wallet, mint),
    )
}

/// Accepts `ata` as the token account of `wallet`, given what its bytes unpack
/// to and the address, if any, that goes with the wallet and the mint: the token
/// program owns it, it is in use, the wallet holds it, and it lies at that
/// address.
pub fn check_ata(
    ata: &AccountSnapshot,
    wallet: &[u8; 32],
    unpacked: Option<TokenAccount>,
    expected: Option<[u8; 32]>,
) -> (r: Result<TokenAccount, PoolError>)
    ensures
        r == ata_spec(
            *ata,
            wallet@,
            unpacked,
            match expected {
                Some(a) => Some(a@),
                None => None,
            },
        ),
{
    let token_program = token_program_id();
    match assert_owned_by(ata, &token_program) {
        Err(e) => {
            return Err(e);
        },
        Ok(_) => {},
    }
    let account = match check_initialized(unpacked) {
        Err(e) => {
            return Err(e);
        },
        Ok(account) => account,
    };
    match assert_keys_equal(account.owner, *wallet) {
        Err(e) => {
            return Err(e);
        },
        Ok(_) => {},
    }
    match expected {
        None => Err(PoolError::Code(ErrorCode::PublicKeyMismatch)),
        Some(address) => match assert_keys_equal(address, ata.key) {
            Err(e) => Err(e),
            Ok(_) => Ok(account),
        },
    }
}

pub fn assert_is_ata(ata: &AccountSnapshot, wallet: &[u8; 32], mint: &[u8; 32]) -> (r: Result<
    TokenAccount,
    PoolError,
>)
    ensures
        r == assert_is_ata_spec(*ata, wallet@, mint@),
{
    let unpacked = unpack_token_account(ata.data.as_slice());
    let expected = get_associated_token_address(wallet, mint);
    check_ata(ata, wallet, unpacked, expected)
}

/// The address at which the metadata of the item `mint` lies: the program
/// address of the three seeds prefix, metadata program and mint under the
/// metadata program.
pub open spec fn metadata_address_spec(mint: Seq<u8>) -> Option<Seq<u8>> {
    match spec_program_address(
        seq![spec_metadata_seed_prefix(), spec_metadata_program_id(), mint],
        spec_metadata_program_id(),
    ) {
        Some((address, _)) => Some(address),
        None => None,
    }
}

/// Whether an item belongs to `vault_collection`, given the address at which
/// its metadata must lie and the record that the account there holds: the
/// account lies at that address, the metadata program owns it, its bytes are a
/// record, and the record names the collection.
pub open spec fn collection_proved(
    mint_metadata: AccountSnapshot,
    expected: Option<Seq<u8>>,
    record: Option<MetadataRecord>,
    vault_collection: Seq<u8>,
) -> bool {
    &&& expected == Some(mint_metadata.key@)
    &&& mint_metadata.owner@ == spec_metadata_program_id()
    &&& record matches Some(metadata)
    &&& metadata.collection matches Some(collection)
    &&& collection@ == vault_collection
}

/// Whether the item `nft_mint` belongs to `vault_collection` by the metadata
/// account `mint_metadata`.
pub open spec fn asset_collection_spec(
    nft_mint: AccountSnapshot,
    mint_metadata: AccountSnapshot,
    vault_collection: Seq<u8>,
) -> bool {
    collection_proved(
        mint_metadata,
        metadata_address_spec(nft_mint.key@),
        spec_metadata_record(mint_metadata.data@),
        vault_collection,
    )
}

/// Decides the collection check from the address at which the item's metadata
/// must lie and the record that `mint_metadata` holds.
pub fn check_collection(
    mint_metadata: &AccountSnapshot,
    expected: Option<[u8; 32]>,
    record: Option<MetadataRecord>,
    vault_collection: [u8; 32],
) -> (r: Result<bool, PoolError>)
    ensures
        r == (if collection_proved(
            *mint_metadata,
            match expected {
                Some(a) => Some(a@),
                None => None,
            },
            record,
            vault_collection@,
        ) {
            Ok::<bool, PoolError>(true)
        } else {
            Err(PoolError::Code(ErrorCode::InvalidMetadataAccount))
        }),
{
    let at_address = match expected {
        Some(address) => keys_equal(&address, &mint_metadata.key),
        None => false,
    };
    if !at_address {
        return Err(PoolError::Code(ErrorCode::InvalidMetadataAccount));
    }
    let program = metadata_program_id();
    if !keys_equal(&mint_metadata.owner, &program) {
        return Err(PoolError::Code(ErrorCode::InvalidMetadataAccount));
    }
    let metadata = match record {
        None => {
            return Err(PoolError::Code(ErrorCode::InvalidMetadataAccount));
        },
        Some(metadata) => metadata,
    };
    match metadata.collection {
        None => Err(PoolError::Code(ErrorCode::InvalidMetadataAccount)),
        Some(collection) => {
            if !keys_equal(&collection, &vault_collection) {
                Err(PoolError::Code(ErrorCode::InvalidMetadataAccount))
            } else {
                Ok(true)
            }
        },
    }
}

/// The collection check: `Ok(true)` where the item's metadata, at the address
/// that the item's own key derives, names `vault_collection`; a missing,
/// malformed or mismatched record is refused.
pub fn asset_collection(
    nft_mint: &AccountSnapshot,
    mint_metadata: &AccountSnapshot,
    vault_collection: [u8; 32],
) -> (r: Result<bool, PoolError>)
    ensures
        r == (if asset_collection_spec(*nft_mint, *mint_metadata, vault_collection@) {
            Ok::<bool, PoolError>(true)
        } else {
            Err(PoolError::Code(ErrorCode::InvalidMetadataAccount))
        }),
{
    let program = metadata_program_id();
    let expected = match try_find_program_address(
        metadata_seed_prefix(),
        program.as_slice(),
        nft_mint.key.as_slice(),
        &program,
    ) {
        Some((address, _)) => Some(address),
        None => None,
    };
    let record = deserialize_metadata(mint_metadata.data.as_slice());
    check_collection(mint_metadata, expected, record, vault_collection)
}

/// The node above `node` and `sibling` in a Merkle tree whose pairs are hashed
/// smaller first.
pub open spec fn merkle_parent(node: Seq<u8>, sibling: Seq<u8>) -> Seq<u8> {
    if lex_le(node, sibling) {
        spec_keccak256(node + sibling)
    } else {
        spec_keccak256(sibling + node)
    }
}

/// The root that `proof` leads to from `leaf`: each element of the proof in
/// turn is the sibling of the node reached so far.
pub open spec fn merkle_fold(leaf: Seq<u8>, proof: Seq<[u8; 32]>) -> Seq<u8>
    decreases proof.len(),
{
    if proof.len() == 0 {
        leaf
    } else {
        merkle_parent(merkle_fold(leaf, proof.drop_last()), proof.last()@)
    }
}

/// The leaf that stands for the item `mint` in an allow-list.
pub open spec fn merkle_leaf(mint: Seq<u8>) -> Seq<u8> {
    spec_keccak256(mint)
}

/// One step up the tree.
pub fn hash_pair(node: &[u8; 32], sibling: &[u8; 32]) -> (parent: [u8; 32])
    ensures
        parent@ == merkle_parent(node@, sibling@),
{
    if bytes_le(node, sibling) {
        keccak_hashv(node.as_slice(), sibling.as_slice())
    } else {
        keccak_hashv(sibling.as_slice(), node.as_slice())
    }
}

/// Whether `proof` leads from `leaf` to `root`.
pub fn verify(proof: Vec<[u8; 32]>, root: [u8; 32], leaf: [u8; 32]) -> (ok: bool)
    ensures
        ok == (merkle_fold(leaf@, proof@) == root@),
{
    let mut computed_hash: [u8; 32] = leaf;
    let mut i: usize = 0;
    while i < proof.len()
        invariant
            i <= proof.len(),
            computed_hash@ == merkle_fold(leaf@, proof@.take(i as int)),
        decreases proof.len() - i,
    {
        proof {
            assert(proof@.take(i + 1).drop_last() == proof@.take(i as int));
            assert(proof@.take(i + 1).last() == proof@[i as int]);
        }
        computed_hash = hash_pair(&computed_hash, &proof[i]);
        i += 1;
    }
    assert(proof@.take(i as int) == proof@);
    keys_equal(&computed_hash, &root)
}

/// The allow-list check: `Ok(true)` where `proof` leads from the leaf of `mint`
/// to `root`, and a refusal otherwise.
pub fn asset_merkle(mint: [u8; 32], root: [u8; 32], proof: Vec<[u8; 32]>) -> (r: Result<
    bool,
    PoolError,
>)
    ensures
        r == (if merkle_fold(merkle_leaf(mint@), proof@) == root@ {
            Ok::<bool, PoolError>(true)
        } else {
            Err(PoolError::Code(ErrorCode::InvalidProof))
        }),
{
    let nothing: Vec<u8> = Vec::new();
    let node = keccak_hashv(mint.as_slice(), nothing.as_slice());
    if verify(proof, root, node) {
        Ok(true)
    } else {
        Err(PoolError::Code(ErrorCode::InvalidProof))
    }
}

/// What the provenance gate answers for an item that is about to enter `pool`:
/// the collection check where the pool names a collection, then the allow-list
/// check where it names a root. A pool that names neither lets every item in.
pub open spec fn provenance_spec(
    pool: Pool,
    nft_mint: AccountSnapshot,
    mint_metadata: AccountSnapshot,
    merkle_proof: Seq<[u8; 32]>,
) -> Result<(), PoolError> {
    if pool.collection matches Some(collection) && !asset_collection_spec(
        nft_mint,
        mint_metadata,
        collection@,
    ) {
        Err(PoolError::Code(ErrorCode::InvalidMetadataAccount))
    } else if pool.merkle_root matches Some(root) && merkle_fold(
        merkle_leaf(nft_mint.key@),
        merkle_proof,
    ) != root@ {
        Err(PoolError::Code(ErrorCode::InvalidProof))
    } else {
        Ok(())
    }
}

/// The provenance gate.
pub fn provenance_gate(
    pool: &Pool,
    nft_mint: &AccountSnapshot,
    mint_metadata: &AccountSnapshot,
    merkle_proof: Vec<[u8; 32]>,
) -> (r: Result<(), PoolError>)
    ensures
        r == provenance_spec(*pool, *nft_mint, *mint_metadata, merkle_proof@),
{
    match pool.collection {
        Some(collection) => {
            match asset_collection(nft_mint, mint_metadata, collection) {
                Err(e) => {
                    return Err(e);
                },
                Ok(_) => {},
            }
        },
        None => {},
    }
    match pool.merkle_root {
        Some(root) => {
            match asset_merkle(nft_mint.key, root, merkle_proof) {
                Err(e) => {
                    return Err(e);
                },
                Ok(_) => {},
            }
        },
        None => {},
    }
    Ok(())
}

/// An empty proof leads nowhere: it is accepted only where the leaf is the
/// root itself.
pub proof fn law_empty_proof(leaf: Seq<u8>, root: Seq<u8>)
    ensures
        (merkle_fold(leaf, Seq::<[u8; 32]>::empty()) == root) <==> leaf == root,
{
}

pub fn assert_curve_type(curve_type: u8) -> (r: Result<(), PoolError>)
    ensures
        r == (if curve_type <= CURVE_TYPE_EXPONENTIAL {
            Ok::<(), PoolError>(())
        } else {
            Err(PoolError::Code(ErrorCode::InvalidCurveType))
        }),
{
    if !(curve_type == 0 || curve_type == 1) {
        Err(PoolError::Code(ErrorCode::InvalidCurveType))
    } else {
        Ok(())
    }
}

pub fn asset_pool_type(pool_type: u8) -> (r: Result<(), PoolError>)
    ensures
        r == (if pool_type <= POOL_TYPE_TRADE {
            Ok::<(), PoolError>(())
        } else {
            Err(PoolError::Code(ErrorCode::InvalidPoolType))
        }),
{
    if !(pool_type == 0 || pool_type == 1 || pool_type == 2) {
        Err(PoolError::Code(ErrorCode::InvalidPoolType))
    } else {
        Ok(())
    }
}

pub fn assert_delta(delta: i64, spot_price: u64) -> (r: Result<(), PoolError>)
    ensures
        r == (if delta_fits(delta as int, spot_price as int) {
            Ok::<(), PoolError>(())
        } else {
            Err(PoolError::Code(ErrorCode::InvalidDelta))
        }),
{
    let fits = if delta >= 0 {
        delta as u64 <= spot_price
    } else if delta == i64::MIN {
        spot_price >= 0x8000_0000_0000_0000u64
    } else {
        (-delta) as u64 <= spot_price
    };
    if !fits {
        Err(PoolError::Code(ErrorCode::InvalidDelta))
    } else {
        Ok(())
    }
}

} // verus!
