use anchor_lang::prelude::Pubkey;
use anchor_lang::solana_program::keccak::hashv;
use anchor_lang::solana_program::program_pack::Pack;
use anchor_lang::AnchorSerialize;
use arc_pool::curve::Direction;
use arc_pool::error::{ErrorCode, PoolError};
use arc_pool::instructions::edit::{edit_delta, edit_spot_price, EditDelta, EditSpotPrice};
use arc_pool::instructions::init_pool::{handler, is_unset, InitializePool};
use arc_pool::instructions::liquidity::{
    add_nft, add_token_liquidity, record_nft_added, record_nft_removed, record_token_balance,
    remove_nft, remove_token_liquidity, update_pool_state, AddNFTLiquidity, AddTokenLiquidity,
    RemoveNFTLiquidity, RemoveTokenLiquidity,
};
use arc_pool::instructions::swap::{
    quote, record_trade, swap_for_nft, swap_for_token, SwapForNFT, SwapForToken, Trade,
};
use arc_pool::state::{
    AccountSnapshot, Pool, CURVE_TYPE_EXPONENTIAL, CURVE_TYPE_LINEAR, POOL_TYPE_NFT,
    POOL_TYPE_TOKEN, POOL_TYPE_TRADE,
};
use arc_pool::utils::{assert_curve_type, assert_delta, asset_pool_type};
use mpl_token_metadata::state::{Collection, Data, Key, Metadata, MAX_METADATA_LEN};
use spl_token::state::{Account, AccountState};

const OWNER: u8 = 2;
const TRADER: u8 = 5;
const TOKEN_MINT: u8 = 1;
const ITEM: u8 = 6;

fn key(tag: u8) -> [u8; 32] {
    let mut k = [0u8; 32];
    for (i, b) in k.iter_mut().enumerate() {
        *b = tag.wrapping_mul(31).wrapping_add(i as u8);
    }
    k
}

fn accounts() -> InitializePool {
    InitializePool {
        collection: [0u8; 32],
        mint: key(TOKEN_MINT),
        curator: key(3),
        owner: key(OWNER),
        system_program: [0u8; 32],
    }
}

fn trade_pool() -> Pool {
    handler(&accounts(), 7, 0, 10, 100, 2, 200, 50, [0u8; 32]).unwrap()
}

fn token_account_bytes(mint: [u8; 32], owner: [u8; 32], amount: u64) -> Vec<u8> {
    let mut account = Account::default();
    account.mint = Pubkey::new_from_array(mint);
    account.owner = Pubkey::new_from_array(owner);
    account.amount = amount;
    account.state = AccountState::Initialized;
    let mut bytes = vec![0u8; Account::LEN];
    Account::pack(account, &mut bytes).unwrap();
    bytes
}

fn ata(wallet: [u8; 32], mint: [u8; 32], amount: u64) -> AccountSnapshot {
    let address = spl_associated_token_account::get_associated_token_address(
        &Pubkey::new_from_array(wallet),
        &Pubkey::new_from_array(mint),
    );
    AccountSnapshot {
        key: address.to_bytes(),
        owner: spl_token::id().to_bytes(),
        data: token_account_bytes(mint, wallet, amount),
    }
}

fn metadata(mint: [u8; 32], collection: Option<[u8; 32]>) -> AccountSnapshot {
    let record = Metadata {
        key: Key::MetadataV1,
        update_authority: Pubkey::new_from_array(key(200)),
        mint: Pubkey::new_from_array(mint),
        data: Data {
            name: String::from("item"),
            symbol: String::from("IT"),
            uri: String::from("https://example.org/item.json"),
            seller_fee_basis_points: 0,
            creators: None,
        },
        primary_sale_happened: false,
        is_mutable: true,
        edition_nonce: None,
        token_standard: None,
        collection: collection.map(|c| Collection { verified: true, key: Pubkey::new_from_array(c) }),
        uses: None,
        collection_details: None,
    };
    let mut data = record.try_to_vec().unwrap();
    data.resize(MAX_METADATA_LEN, 0);
    let (address, _) = mpl_token_metadata::pda::find_metadata_account(&Pubkey::new_from_array(mint));
    AccountSnapshot { key: address.to_bytes(), owner: mpl_token_metadata::id().to_bytes(), data }
}

fn item_mint() -> AccountSnapshot {
    AccountSnapshot { key: key(ITEM), owner: spl_token::id().to_bytes(), data: vec![1u8; 82] }
}

fn nothing() -> AccountSnapshot {
    AccountSnapshot { key: key(250), owner: key(251), data: Vec::new() }
}

fn buy(pool: Pool) -> SwapForNFT {
    SwapForNFT {
        pool,
        nft_mint: key(ITEM),
        authority_token_ata: ata(key(TRADER), pool.mint, 5000),
        authority_nft_ata: ata(key(TRADER), key(ITEM), 0),
        authority: key(TRADER),
    }
}

fn sell(pool: Pool) -> SwapForToken {
    SwapForToken {
        pool,
        nft_mint: item_mint(),
        nft_mint_metadata: nothing(),
        authority_token_ata: ata(key(TRADER), pool.mint, 5000),
        authority_nft_ata: ata(key(TRADER), key(ITEM), 1),
        authority: key(TRADER),
    }
}

fn deposit(pool: Pool) -> AddNFTLiquidity {
    AddNFTLiquidity {
        pool,
        nft_mint: item_mint(),
        mint_metadata: nothing(),
        owner_ata: ata(key(OWNER), key(ITEM), 1),
        owner: key(OWNER),
    }
}

#[test]
fn kinds_and_step_are_checked() {
    assert_eq!(assert_curve_type(0), Ok(()));
    assert_eq!(assert_curve_type(1), Ok(()));
    assert_eq!(assert_curve_type(2), Err(PoolError::Code(ErrorCode::InvalidCurveType)));
    assert_eq!(assert_curve_type(255), Err(PoolError::Code(ErrorCode::InvalidCurveType)));
    assert_eq!(asset_pool_type(0), Ok(()));
    assert_eq!(asset_pool_type(1), Ok(()));
    assert_eq!(asset_pool_type(2), Ok(()));
    assert_eq!(asset_pool_type(3), Err(PoolError::Code(ErrorCode::InvalidPoolType)));
    assert_eq!(assert_delta(10, 100), Ok(()));
    assert_eq!(assert_delta(100, 100), Ok(()));
    assert_eq!(assert_delta(-100, 100), Ok(()));
    assert_eq!(assert_delta(0, 0), Ok(()));
    assert_eq!(assert_delta(101, 100), Err(PoolError::Code(ErrorCode::InvalidDelta)));
    assert_eq!(assert_delta(-101, 100), Err(PoolError::Code(ErrorCode::InvalidDelta)));
    assert_eq!(assert_delta(1, 0), Err(PoolError::Code(ErrorCode::InvalidDelta)));
    assert_eq!(assert_delta(i64::MIN, 1 << 63), Ok(()));
    assert_eq!(assert_delta(i64::MIN, (1 << 63) - 1), Err(PoolError::Code(ErrorCode::InvalidDelta)));
    assert_eq!(assert_delta(i64::MAX, (1 << 63) - 1), Ok(()));
    assert_eq!(assert_delta(i64::MIN + 1, (1 << 63) - 1), Ok(()));
    assert_eq!(assert_delta(i64::MAX, u64::MAX), Ok(()));
}

#[test]
fn creation_stores_what_it_is_given() {
    let pool = handler(&accounts(), 7, 1, -10, 100, 2, 200, 50, [0u8; 32]).unwrap();
    assert_eq!(
        pool,
        Pool {
            collection: None,
            merkle_root: None,
            n_nft: 0,
            n_token: 0,
            mint: key(TOKEN_MINT),
            owner: key(OWNER),
            owner_nonce: 7,
            fee_bps: 200,
            curator: key(3),
            curator_fee_bps: 50,
            curve_type: CURVE_TYPE_EXPONENTIAL,
            pool_type: POOL_TYPE_TRADE,
            delta: -10,
            spot_price: 100,
            valid: true,
        }
    );
}

#[test]
fn creation_sets_the_filters_only_where_given() {
    let named = InitializePool { collection: key(9), ..accounts() };
    let mut root = [0u8; 32];
    root[31] = 1;
    let pool = handler(&named, 0, 0, 0, 1, 1, 0, 0, root).unwrap();
    assert_eq!(pool.collection, Some(key(9)));
    assert_eq!(pool.merkle_root, Some(root));
    let pool = handler(&accounts(), 0, 0, 0, 1, 1, 0, 0, [0u8; 32]).unwrap();
    assert_eq!(pool.collection, None);
    assert_eq!(pool.merkle_root, None);
    assert!(is_unset(&[0u8; 32]));
    assert!(!is_unset(&root));
    let mut first = [0u8; 32];
    first[0] = 200;
    assert!(!is_unset(&first));
}

#[test]
fn creation_with_too_large_a_step_creates_nothing() {
    let refused = Err(PoolError::Code(ErrorCode::InvalidDelta));
    assert_eq!(handler(&accounts(), 0, 0, 101, 100, 2, 200, 50, [0u8; 32]), refused);
    assert_eq!(handler(&accounts(), 0, 0, -101, 100, 2, 200, 50, [0u8; 32]), refused);
    assert_eq!(handler(&accounts(), 0, 1, 1, 0, 0, 0, 0, [0u8; 32]), refused);
    assert_eq!(handler(&accounts(), 0, 1, i64::MIN, u64::MAX >> 1, 0, 0, 0, [0u8; 32]), refused);
}

#[test]
fn creation_names_the_first_check_that_fails() {
    assert_eq!(
        handler(&accounts(), 0, 2, 101, 100, 3, 0, 0, [0u8; 32]),
        Err(PoolError::Code(ErrorCode::InvalidCurveType))
    );
    assert_eq!(
        handler(&accounts(), 0, 1, 101, 100, 3, 0, 0, [0u8; 32]),
        Err(PoolError::Code(ErrorCode::InvalidDelta))
    );
    assert_eq!(
        handler(&accounts(), 0, 1, 100, 100, 3, 0, 0, [0u8; 32]),
        Err(PoolError::Code(ErrorCode::InvalidPoolType))
    );
}

#[test]
fn step_goes_with_the_price_after_creation_and_edits() {
    let fits = |pool: &Pool| (pool.delta as i128).abs() <= pool.spot_price as i128;
    let pool = trade_pool();
    assert!(fits(&pool));
    let mut change = EditDelta { pool, owner: key(OWNER) };
    assert_eq!(edit_delta(&mut change, -100), Ok(()));
    assert_eq!(change.pool, Pool { delta: -100, ..pool });
    assert!(fits(&change.pool));
    assert_eq!(edit_delta(&mut change, 101), Err(PoolError::Code(ErrorCode::InvalidDelta)));
    assert_eq!(change.pool, Pool { delta: -100, ..pool });
    let mut price = EditSpotPrice { pool: change.pool, owner: key(OWNER) };
    assert_eq!(edit_spot_price(&mut price, 99), Err(PoolError::Code(ErrorCode::InvalidDelta)));
    assert_eq!(price.pool, change.pool);
    assert_eq!(edit_spot_price(&mut price, 5000), Ok(()));
    assert_eq!(price.pool, Pool { spot_price: 5000, ..change.pool });
    assert!(fits(&price.pool));
}

#[test]
fn edits_are_for_the_owner_alone() {
    let pool = trade_pool();
    let mut change = EditDelta { pool, owner: key(TRADER) };
    assert_eq!(edit_delta(&mut change, 1), Err(PoolError::Code(ErrorCode::PublicKeyMismatch)));
    assert_eq!(change.pool, pool);
    // the owner is checked before the step
    assert_eq!(edit_delta(&mut change, 1000), Err(PoolError::Code(ErrorCode::PublicKeyMismatch)));
    let mut price = EditSpotPrice { pool, owner: key(TRADER) };
    assert_eq!(
        edit_spot_price(&mut price, 1000),
        Err(PoolError::Code(ErrorCode::PublicKeyMismatch))
    );
    assert_eq!(price.pool, pool);
}

#[test]
fn solvency_of_a_two_sided_pool() {
    let base = Pool { valid: false, ..trade_pool() };
    // too few tokens for the items
    let mut pool = Pool { n_nft: 2, n_token: 199, valid: true, ..base };
    assert_eq!(update_pool_state(&mut pool), Ok(()));
    assert_eq!(pool, Pool { n_nft: 2, n_token: 199, valid: false, ..base });
    // the relation flips back, and the flag with it
    pool.n_token = 200;
    assert_eq!(update_pool_state(&mut pool), Ok(()));
    assert!(pool.valid);
    pool.n_token = 299;
    assert_eq!(update_pool_state(&mut pool), Ok(()));
    assert!(pool.valid);
    // too few items for the tokens
    pool.n_token = 300;
    assert_eq!(update_pool_state(&mut pool), Ok(()));
    assert!(!pool.valid);
    let mut empty = base;
    assert_eq!(update_pool_state(&mut empty), Ok(()));
    assert!(empty.valid);
}

#[test]
fn solvency_compares_without_wrapping() {
    let mut pool = Pool { spot_price: 1 << 40, n_nft: 1 << 40, n_token: 5, ..trade_pool() };
    assert_eq!(update_pool_state(&mut pool), Ok(()));
    assert!(!pool.valid);
}

#[test]
fn solvency_is_left_alone_in_one_sided_pools() {
    for kind in [POOL_TYPE_TOKEN, POOL_TYPE_NFT] {
        for flag in [true, false] {
            let before =
                Pool { pool_type: kind, n_nft: 9, n_token: 1, valid: flag, ..trade_pool() };
            let mut pool = before;
            assert_eq!(update_pool_state(&mut pool), Ok(()));
            assert_eq!(pool, before);
        }
    }
    let mut free = Pool { pool_type: POOL_TYPE_NFT, spot_price: 0, delta: 0, ..trade_pool() };
    assert_eq!(update_pool_state(&mut free), Ok(()));
}

#[test]
fn solvency_with_a_price_of_zero_is_an_error() {
    let before = Pool { spot_price: 0, delta: 0, n_token: 10, ..trade_pool() };
    let mut pool = before;
    assert_eq!(update_pool_state(&mut pool), Err(PoolError::Code(ErrorCode::InvalidSpotPrice)));
    assert_eq!(pool, before);
    assert_eq!(
        record_token_balance(&mut pool, 77),
        Err(PoolError::Code(ErrorCode::InvalidSpotPrice))
    );
    assert_eq!(pool, before);
    assert_eq!(record_nft_added(&mut pool), Err(PoolError::Code(ErrorCode::InvalidSpotPrice)));
    assert_eq!(pool, before);
}

#[test]
fn deposits_and_withdrawals_are_booked() {
    let start = trade_pool();
    let mut pool = start;
    assert_eq!(record_token_balance(&mut pool, 150), Ok(()));
    assert_eq!(pool, Pool { n_token: 150, valid: false, ..start });
    assert_eq!(record_nft_added(&mut pool), Ok(()));
    assert_eq!(pool, Pool { n_token: 150, n_nft: 1, valid: true, ..start });
    assert_eq!(record_nft_added(&mut pool), Ok(()));
    assert_eq!(pool, Pool { n_token: 150, n_nft: 2, valid: false, ..start });
    assert_eq!(record_nft_removed(&mut pool), Ok(()));
    assert_eq!(pool, Pool { n_token: 150, n_nft: 1, valid: true, ..start });
    // the balance is what the vault reports, whatever was asked for
    assert_eq!(record_token_balance(&mut pool, 3), Ok(()));
    assert_eq!(pool, Pool { n_token: 3, n_nft: 1, valid: false, ..start });
}

#[test]
fn item_count_stays_in_range() {
    let empty = trade_pool();
    let mut pool = empty;
    assert_eq!(record_nft_removed(&mut pool), Err(PoolError::ArithmeticOverflow));
    assert_eq!(pool, empty);
    let full = Pool { n_nft: u64::MAX, ..trade_pool() };
    let mut pool = full;
    assert_eq!(record_nft_added(&mut pool), Err(PoolError::ArithmeticOverflow));
    assert_eq!(pool, full);
}

#[test]
fn item_deposit_is_authorised() {
    let pool = trade_pool();
    assert_eq!(add_nft(&deposit(pool), Vec::new()), Ok(1));
    let item_only = Pool { pool_type: POOL_TYPE_NFT, ..pool };
    assert_eq!(add_nft(&deposit(item_only), Vec::new()), Ok(1));
    // of the item's own account only the key is read
    let bare = AddNFTLiquidity {
        nft_mint: AccountSnapshot { key: key(ITEM), owner: key(0), data: Vec::new() },
        ..deposit(pool)
    };
    assert_eq!(add_nft(&bare, Vec::new()), Ok(1));
}

#[test]
fn item_deposit_is_refused_in_order() {
    let pool = trade_pool();
    let token_only = Pool { pool_type: POOL_TYPE_TOKEN, ..pool };
    let stranger = AddNFTLiquidity { owner: key(TRADER), ..deposit(token_only) };
    assert_eq!(add_nft(&stranger, Vec::new()), Err(PoolError::Code(ErrorCode::PublicKeyMismatch)));
    let no_account = AddNFTLiquidity { owner_ata: nothing(), ..deposit(token_only) };
    assert_eq!(add_nft(&no_account, Vec::new()), Err(PoolError::Code(ErrorCode::InvalidPoolType)));
    assert_eq!(
        add_nft(&deposit(token_only), Vec::new()),
        Err(PoolError::Code(ErrorCode::InvalidPoolType))
    );
    let listed = Pool { merkle_root: Some(key(90)), ..pool };
    let no_account = AddNFTLiquidity { owner_ata: nothing(), ..deposit(listed) };
    assert_eq!(add_nft(&no_account, Vec::new()), Err(PoolError::Code(ErrorCode::InvalidProof)));
    let collected = Pool { collection: Some(key(91)), ..listed };
    assert_eq!(
        add_nft(&deposit(collected), Vec::new()),
        Err(PoolError::Code(ErrorCode::InvalidMetadataAccount))
    );
    // the account that the item comes from
    let no_account = AddNFTLiquidity { owner_ata: nothing(), ..deposit(pool) };
    assert_eq!(add_nft(&no_account, Vec::new()), Err(PoolError::Code(ErrorCode::IncorrectOwner)));
    let a_mint = AddNFTLiquidity { owner_ata: item_mint(), ..deposit(pool) };
    assert_eq!(add_nft(&a_mint, Vec::new()), Err(PoolError::InvalidAccountData));
    let of_another = AddNFTLiquidity { owner_ata: ata(key(TRADER), key(ITEM), 1), ..deposit(pool) };
    assert_eq!(add_nft(&of_another, Vec::new()), Err(PoolError::Code(ErrorCode::PublicKeyMismatch)));
    let of_the_token =
        AddNFTLiquidity { owner_ata: ata(key(OWNER), key(TOKEN_MINT), 1), ..deposit(pool) };
    assert_eq!(
        add_nft(&of_the_token, Vec::new()),
        Err(PoolError::Code(ErrorCode::PublicKeyMismatch))
    );
}

#[test]
fn item_deposit_passes_the_gate_with_a_proof() {
    let pool = trade_pool();
    let sibling = key(92);
    let leaf = hashv(&[&key(ITEM)]).0;
    let root = if leaf <= sibling { hashv(&[&leaf, &sibling]).0 } else { hashv(&[&sibling, &leaf]).0 };
    let ctx = AddNFTLiquidity {
        mint_metadata: metadata(key(ITEM), Some(key(93))),
        ..deposit(Pool { merkle_root: Some(root), collection: Some(key(93)), ..pool })
    };
    assert_eq!(add_nft(&ctx, vec![sibling]), Ok(1));
    assert_eq!(add_nft(&ctx, vec![key(94)]), Err(PoolError::Code(ErrorCode::InvalidProof)));
    assert_eq!(add_nft(&ctx, Vec::new()), Err(PoolError::Code(ErrorCode::InvalidProof)));
}

#[test]
fn item_deposit_is_booked_after_it_is_authorised() {
    let start = Pool { n_token: 100, ..trade_pool() };
    assert_eq!(add_nft(&deposit(start), Vec::new()), Ok(1));
    let mut pool = start;
    assert_eq!(record_nft_added(&mut pool), Ok(()));
    assert_eq!(pool, Pool { n_nft: 1, valid: true, ..start });
}

#[test]
fn item_withdrawal_is_authorised() {
    let pool = trade_pool();
    let good = RemoveNFTLiquidity {
        pool,
        nft_vault_amount: 1,
        nft_mint: key(ITEM),
        owner_ata: ata(key(OWNER), key(ITEM), 0),
        owner: key(OWNER),
    };
    assert_eq!(remove_nft(&good), Ok(1));
    let stranger = RemoveNFTLiquidity { owner: key(TRADER), ..good.clone() };
    assert_eq!(remove_nft(&stranger), Err(PoolError::Code(ErrorCode::PublicKeyMismatch)));
    let token_only =
        RemoveNFTLiquidity { pool: Pool { pool_type: POOL_TYPE_TOKEN, ..pool }, ..good.clone() };
    assert_eq!(remove_nft(&token_only), Err(PoolError::Code(ErrorCode::InvalidPoolType)));
    let other_item = RemoveNFTLiquidity { nft_mint: key(95), ..good.clone() };
    assert_eq!(remove_nft(&other_item), Err(PoolError::Code(ErrorCode::PublicKeyMismatch)));
    let empty_vault = RemoveNFTLiquidity { nft_vault_amount: 0, ..good.clone() };
    assert_eq!(remove_nft(&empty_vault), Err(PoolError::Code(ErrorCode::NotEnoughBalance)));
}

#[test]
fn token_deposit_is_authorised() {
    let pool = trade_pool();
    let good =
        AddTokenLiquidity { pool, owner_ata: ata(key(OWNER), key(TOKEN_MINT), 900), owner: key(OWNER) };
    assert_eq!(add_token_liquidity(&good, 150), Ok(150));
    assert_eq!(add_token_liquidity(&good, 0), Ok(0));
    assert_eq!(add_token_liquidity(&good, u64::MAX), Ok(u64::MAX));
    let token_only =
        AddTokenLiquidity { pool: Pool { pool_type: POOL_TYPE_TOKEN, ..pool }, ..good.clone() };
    assert_eq!(add_token_liquidity(&token_only, 150), Ok(150));
    let item_only =
        AddTokenLiquidity { pool: Pool { pool_type: POOL_TYPE_NFT, ..pool }, ..good.clone() };
    assert_eq!(
        add_token_liquidity(&item_only, 150),
        Err(PoolError::Code(ErrorCode::InvalidPoolType))
    );
    let stranger = AddTokenLiquidity { owner: key(TRADER), ..item_only.clone() };
    assert_eq!(
        add_token_liquidity(&stranger, 150),
        Err(PoolError::Code(ErrorCode::PublicKeyMismatch))
    );
    let unused = AddTokenLiquidity {
        owner_ata: AccountSnapshot {
            data: vec![0u8; Account::LEN],
            ..ata(key(OWNER), key(TOKEN_MINT), 0)
        },
        ..good.clone()
    };
    assert_eq!(add_token_liquidity(&unused, 150), Err(PoolError::Code(ErrorCode::NotInitialized)));
    // an account of the owner, but for another token
    let of_the_item =
        AddTokenLiquidity { owner_ata: ata(key(OWNER), key(ITEM), 1), ..good.clone() };
    assert_eq!(
        add_token_liquidity(&of_the_item, 150),
        Err(PoolError::Code(ErrorCode::PublicKeyMismatch))
    );
    let a_mint = AddTokenLiquidity {
        owner_ata: AccountSnapshot {
            key: key(TOKEN_MINT),
            owner: spl_token::id().to_bytes(),
            data: vec![1u8; 82],
        },
        ..good.clone()
    };
    assert_eq!(add_token_liquidity(&a_mint, 150), Err(PoolError::InvalidAccountData));
}

#[test]
fn token_withdrawal_is_authorised() {
    let pool = trade_pool();
    let good = RemoveTokenLiquidity {
        pool,
        token_vault_amount: 500,
        token_mint: key(TOKEN_MINT),
        owner_ata: ata(key(OWNER), key(TOKEN_MINT), 0),
        owner: key(OWNER),
    };
    assert_eq!(remove_token_liquidity(&good, 500), Ok(500));
    assert_eq!(remove_token_liquidity(&good, 1), Ok(1));
    // no partial withdrawal
    assert_eq!(
        remove_token_liquidity(&good, 501),
        Err(PoolError::Code(ErrorCode::NotEnoughBalance))
    );
    let item_only =
        RemoveTokenLiquidity { pool: Pool { pool_type: POOL_TYPE_NFT, ..pool }, ..good.clone() };
    assert_eq!(
        remove_token_liquidity(&item_only, 1),
        Err(PoolError::Code(ErrorCode::InvalidPoolType))
    );
    let stranger = RemoveTokenLiquidity { owner: key(TRADER), ..good.clone() };
    assert_eq!(
        remove_token_liquidity(&stranger, 1),
        Err(PoolError::Code(ErrorCode::PublicKeyMismatch))
    );
    let foreign = RemoveTokenLiquidity {
        owner_ata: AccountSnapshot { owner: key(96), ..ata(key(OWNER), key(TOKEN_MINT), 0) },
        ..good.clone()
    };
    assert_eq!(
        remove_token_liquidity(&foreign, 1),
        Err(PoolError::Code(ErrorCode::IncorrectOwner))
    );
}

#[test]
fn trade_out_of_a_two_sided_pool() {
    let created = trade_pool();
    let mut pool = created;
    assert_eq!(record_token_balance(&mut pool, 150), Ok(()));
    assert_eq!(record_nft_added(&mut pool), Ok(()));
    assert!(pool.valid);
    let trade = swap_for_nft(&buy(pool)).unwrap();
    assert_eq!(
        trade,
        Trade {
            direction: Direction::Up,
            item_quantity: 1,
            principal: 100,
            pool_fee: Some(2),
            curator_fee: 0,
            new_spot_price: 110,
        }
    );
    assert_eq!(record_trade(&mut pool, &trade, 1000), Ok(()));
    assert_eq!(pool, Pool { spot_price: 110, n_nft: 0, n_token: 1000, valid: true, ..created });
    // the flag is recomputed only by liquidity accounting: 1000 < 0 is false,
    // 0 < 1000 / 110 = 9 is true
    assert_eq!(update_pool_state(&mut pool), Ok(()));
    assert_eq!(pool, Pool { spot_price: 110, n_nft: 0, n_token: 1000, valid: false, ..created });
    assert_eq!(swap_for_nft(&buy(pool)), Err(PoolError::PoolNotValid));
}

#[test]
fn trade_into_the_pool() {
    let pool = Pool { n_nft: 3, n_token: 350, ..trade_pool() };
    let trade = swap_for_token(&sell(pool), Vec::new()).unwrap();
    assert_eq!(
        trade,
        Trade {
            direction: Direction::Down,
            item_quantity: 1,
            principal: 100,
            pool_fee: Some(2),
            curator_fee: 0,
            new_spot_price: 90,
        }
    );
    let mut after = pool;
    assert_eq!(record_trade(&mut after, &trade, 252), Ok(()));
    assert_eq!(after, Pool { spot_price: 90, n_nft: 4, n_token: 252, ..pool });
}

#[test]
fn one_sided_pool_pays_no_pool_fee() {
    let pool = Pool { pool_type: POOL_TYPE_NFT, curator_fee_bps: 5000, ..trade_pool() };
    let trade = swap_for_nft(&buy(pool)).unwrap();
    assert_eq!(trade.pool_fee, None);
    assert_eq!(trade.curator_fee, 50);
    assert_eq!(trade.principal, 100);
    assert_eq!(quote(&pool, Direction::Down).unwrap().pool_fee, None);
    let free = Pool { fee_bps: 0, ..trade_pool() };
    assert_eq!(quote(&free, Direction::Up).unwrap().pool_fee, Some(0));
}

#[test]
fn trade_follows_the_pool_s_curve() {
    let linear = Pool { curve_type: CURVE_TYPE_LINEAR, delta: 25, spot_price: 1000, ..trade_pool() };
    assert_eq!(quote(&linear, Direction::Up).unwrap().new_spot_price, 1025);
    assert_eq!(quote(&linear, Direction::Down).unwrap().new_spot_price, 975);
    let exponential = Pool { curve_type: CURVE_TYPE_EXPONENTIAL, ..linear };
    assert_eq!(quote(&exponential, Direction::Up).unwrap().new_spot_price, 1250);
    assert_eq!(quote(&exponential, Direction::Down).unwrap().new_spot_price, 750);
}

#[test]
fn swaps_round_trip_on_the_linear_curve_only() {
    let start = Pool { fee_bps: 0, curator_fee_bps: 0, n_nft: 1, n_token: 100, ..trade_pool() };
    let mut pool = start;
    let out = swap_for_nft(&buy(pool)).unwrap();
    assert_eq!(record_trade(&mut pool, &out, 200), Ok(()));
    assert_eq!(pool.spot_price, 110);
    let back = swap_for_token(&sell(pool), Vec::new()).unwrap();
    assert_eq!(record_trade(&mut pool, &back, 90), Ok(()));
    assert_eq!(pool.spot_price, start.spot_price);
    assert_eq!(pool.n_nft, start.n_nft);

    let start = Pool { curve_type: CURVE_TYPE_EXPONENTIAL, spot_price: 10, ..start };
    let mut pool = start;
    let out = swap_for_nft(&buy(pool)).unwrap();
    assert_eq!(record_trade(&mut pool, &out, 110), Ok(()));
    assert_eq!(pool.spot_price, 11);
    let back = swap_for_token(&sell(pool), Vec::new()).unwrap();
    assert_eq!(record_trade(&mut pool, &back, 99), Ok(()));
    assert_eq!(pool.spot_price, 9);
}

#[test]
fn trade_is_refused_in_order() {
    let pool = Pool { n_nft: 1, n_token: 100, ..trade_pool() };
    let down = Pool { valid: false, ..pool };
    let token_only = Pool { pool_type: POOL_TYPE_TOKEN, valid: false, ..pool };
    assert_eq!(swap_for_nft(&buy(token_only)), Err(PoolError::Code(ErrorCode::InvalidPoolType)));
    assert_eq!(
        swap_for_token(&sell(token_only), Vec::new()),
        Err(PoolError::Code(ErrorCode::InvalidPoolType))
    );
    let stranger = SwapForNFT { authority: key(97), ..buy(down) };
    assert_eq!(swap_for_nft(&stranger), Err(PoolError::PoolNotValid));
    assert_eq!(swap_for_token(&sell(down), Vec::new()), Err(PoolError::PoolNotValid));
    let stranger = SwapForNFT { authority: key(97), ..buy(pool) };
    assert_eq!(swap_for_nft(&stranger), Err(PoolError::Code(ErrorCode::PublicKeyMismatch)));
    let no_item_account = SwapForNFT { authority_nft_ata: nothing(), ..buy(pool) };
    assert_eq!(swap_for_nft(&no_item_account), Err(PoolError::Code(ErrorCode::IncorrectOwner)));
    let other_item = SwapForNFT { nft_mint: key(98), ..buy(pool) };
    assert_eq!(swap_for_nft(&other_item), Err(PoolError::Code(ErrorCode::PublicKeyMismatch)));
    let no_token_account = SwapForToken {
        authority_token_ata: AccountSnapshot { data: vec![0u8; 3], ..ata(key(TRADER), pool.mint, 0) },
        ..sell(pool)
    };
    assert_eq!(
        swap_for_token(&no_token_account, Vec::new()),
        Err(PoolError::InvalidAccountData)
    );
}

#[test]
fn item_that_enters_passes_the_gate() {
    let pool = Pool { n_nft: 1, n_token: 100, ..trade_pool() };
    let sibling = key(99);
    let leaf = hashv(&[&key(ITEM)]).0;
    let root = if leaf <= sibling { hashv(&[&leaf, &sibling]).0 } else { hashv(&[&sibling, &leaf]).0 };
    let listed = Pool { merkle_root: Some(root), ..pool };
    assert_eq!(swap_for_token(&sell(listed), vec![sibling]).unwrap().new_spot_price, 90);
    assert_eq!(
        swap_for_token(&sell(listed), Vec::new()),
        Err(PoolError::Code(ErrorCode::InvalidProof))
    );
    let collected = Pool { collection: Some(key(100)), ..listed };
    assert_eq!(
        swap_for_token(&sell(collected), vec![sibling]),
        Err(PoolError::Code(ErrorCode::InvalidMetadataAccount))
    );
    let proved = SwapForToken {
        nft_mint_metadata: metadata(key(ITEM), Some(key(100))),
        ..sell(collected)
    };
    assert_eq!(swap_for_token(&proved, vec![sibling]).unwrap().principal, 100);
    // provenance is checked before the accounts of the trader
    let stranger = SwapForToken { authority: key(101), ..sell(listed) };
    assert_eq!(
        swap_for_token(&stranger, Vec::new()),
        Err(PoolError::Code(ErrorCode::InvalidProof))
    );
    assert_eq!(
        swap_for_token(&stranger, vec![sibling]),
        Err(PoolError::Code(ErrorCode::PublicKeyMismatch))
    );
    // the direction in which the item leaves asks for no proof
    assert_eq!(swap_for_nft(&buy(collected)).unwrap().new_spot_price, 110);
}

#[test]
fn trade_that_cannot_be_priced_is_refused() {
    let cheap = Pool { spot_price: 5, delta: 5, n_nft: 1, n_token: 5, ..trade_pool() };
    assert_eq!(swap_for_token(&sell(cheap), Vec::new()).unwrap().new_spot_price, 0);
    let after = Pool { spot_price: 0, ..cheap };
    assert_eq!(
        swap_for_token(&sell(after), Vec::new()),
        Err(PoolError::Code(ErrorCode::InvalidSpotPrice))
    );
    let dear = Pool { spot_price: u64::MAX, fee_bps: 2, ..trade_pool() };
    assert_eq!(swap_for_nft(&buy(dear)), Err(PoolError::ArithmeticOverflow));
    let curated = Pool { fee_bps: 1, curator_fee_bps: 2, ..dear };
    assert_eq!(swap_for_nft(&buy(curated)), Err(PoolError::ArithmeticOverflow));
    let unpriced = Pool { fee_bps: 1, curator_fee_bps: 1, ..dear };
    assert_eq!(swap_for_nft(&buy(unpriced)), Err(PoolError::ArithmeticOverflow));
}

#[test]
fn trade_is_booked_with_the_vault_s_balance() {
    let pool = Pool { n_nft: 2, n_token: 250, ..trade_pool() };
    let trade = quote(&pool, Direction::Up).unwrap();
    let mut after = pool;
    assert_eq!(record_trade(&mut after, &trade, 7), Ok(()));
    assert_eq!(after, Pool { n_nft: 1, n_token: 7, spot_price: 110, ..pool });
    let empty = Pool { n_nft: 0, ..pool };
    let mut after = empty;
    assert_eq!(record_trade(&mut after, &trade, 7), Err(PoolError::ArithmeticOverflow));
    assert_eq!(after, empty);
    let full = Pool { n_nft: u64::MAX, ..pool };
    let mut after = full;
    let into = quote(&pool, Direction::Down).unwrap();
    assert_eq!(record_trade(&mut after, &into, 7), Err(PoolError::ArithmeticOverflow));
    assert_eq!(after, full);
}

#[test]
fn rejections_have_their_texts() {
    let all = [
        (ErrorCode::NotEnoughBalance, "Src Balance < LP Deposit Amount."),
        (ErrorCode::NoPoolMintOutput, "Pool Mint Amount < 0 on LP Deposit"),
        (ErrorCode::BurnTooMuch, "Trying to burn too much"),
        (ErrorCode::NotEnoughOut, "Not enough out"),
        (ErrorCode::PublicKeyMismatch, "Public key mismatch"),
        (ErrorCode::NotInitialized, "Not initialized"),
        (ErrorCode::IncorrectOwner, "Incorrect owner"),
        (ErrorCode::InvalidMetadataAccount, "Not a metadata account"),
        (ErrorCode::InvalidPoolType, "Invalid pool type"),
        (ErrorCode::InvalidSpotPrice, "Invalid spot price"),
        (ErrorCode::InvalidCurveType, "Invalid curve type"),
        (ErrorCode::InvalidDelta, "Invalid delta"),
        (ErrorCode::InvalidProof, "Invalid proof"),
    ];
    for (code, text) in all {
        assert_eq!(code.message(), text);
    }
}
