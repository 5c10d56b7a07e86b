use nft_marketplace::address::Address;
use nft_marketplace::creation::{create_collection_nfts, CreationStep};
use nft_marketplace::factory::{ProvisionError, RejectCode};
use nft_marketplace::market::{
    get_collections, get_nfts, insert_nft_record, pending_purchases, Marketplace,
    PendingPurchase, PurchaseStage,
};
use nft_marketplace::pricing::{apply_discount, compute_effective_price, get_discount};
use nft_marketplace::purchase::{
    abandon_purchase, begin_purchase, check_balance, payment_ledger, resume_delivery, settle,
    transfer_nft, Delivered, Funded, Paid,
};
use nft_marketplace::query::{
    get_all_collections, get_all_nfts, get_collection_ids, get_collection_viability,
    get_collections_info_by_caller,
};
use nft_marketplace::types::{
    Account, Arg, CanisterArg, CollectionInfo, DiscountWindowArg, Errors, NftMetadata,
    PurchaseError, TransferArgs, TransferError,
};

fn address(bytes: &[u8]) -> Address {
    Address::from_bytes(bytes.to_vec()).expect("at most 29 bytes")
}

fn creator() -> Address {
    address(&[1, 2, 3])
}

fn buyer() -> Address {
    address(&[9, 9])
}

fn registry_a() -> Address {
    address(&[0, 0, 0, 0, 0, 0, 0, 7, 1, 1])
}

fn registry_b() -> Address {
    address(&[0, 0, 0, 0, 0, 0, 0, 8, 1, 1])
}

fn config(supply_cap: u128) -> CanisterArg {
    CanisterArg {
        icrc7_symbol: "TKT".to_string(),
        icrc7_name: "Tickets".to_string(),
        icrc7_description: Some("concert tickets".to_string()),
        icrc7_logo: None,
        icrc7_supply_cap: supply_cap,
        icrc7_max_query_batch_size: None,
        icrc7_max_update_batch_size: None,
        icrc7_max_take_value: None,
        icrc7_default_take_value: None,
        icrc7_max_memo_size: None,
        icrc7_atomic_batch_transfers: None,
        tx_window: None,
        permitted_drift: None,
    }
}

fn kind(name: &str, quantity: u64, price: u32) -> NftMetadata {
    NftMetadata {
        token_name: name.to_string(),
        token_privilege_code: 1,
        token_description: format!("{name} seat"),
        quantity,
        token_logo: "logo".to_string(),
        price,
    }
}

fn window(expire_date: u64, discount_percentage: u8) -> DiscountWindowArg {
    DiscountWindowArg { expire_date, discount_percentage }
}

fn request(kinds: Vec<NftMetadata>, supply_cap: u128, windows: Vec<DiscountWindowArg>) -> Arg {
    Arg { canister_arg: config(supply_cap), nfts: kinds, expire_date: 1_000, discount_windows: windows }
}

fn info(owner: Address, expire_date: u64, windows: Vec<DiscountWindowArg>) -> CollectionInfo {
    CollectionInfo { owner, expire_date, discount_windows: windows, nfts: Vec::new() }
}

/// Runs a creation to its end against a registry that mints every token.
fn create(market: &mut Marketplace, arg: Arg, registry: &Address, now: u64) -> Vec<u128> {
    let (creation, _config) = create_collection_nfts(arg, creator(), now).expect("accepted");
    let mut step = creation.provisioned(market, Ok(registry.to_text()));
    let mut ids = Vec::new();
    loop {
        match step {
            CreationStep::Mint(state) => {
                let arg = state.request();
                ids.push(arg.token_id);
                step = state.minted(market, Ok(arg.token_id));
            }
            CreationStep::Created(text) => {
                assert_eq!(text, registry.to_text());
                return ids;
            }
            CreationStep::Failed(error) => panic!("creation failed: {error:?}"),
        }
    }
}

fn validation_message(result: Result<(nft_marketplace::creation::Provisioning, CanisterArg), Errors>) -> String {
    match result {
        Err(Errors::GenericError { message, error_code }) => {
            assert_eq!(error_code, 400);
            message
        }
        Err(other) => panic!("unexpected error {other:?}"),
        Ok(_) => panic!("the request was accepted"),
    }
}

#[test]
fn address_text_round_trip() {
    let management = Address::from_text("aaaaa-aa").expect("management canister");
    assert_eq!(management.to_bytes(), Vec::<u8>::new());
    assert_eq!(management.to_text(), "aaaaa-aa");
    let anonymous = Address::anonymous();
    assert_eq!(anonymous.to_bytes(), vec![4]);
    assert_eq!(anonymous.to_text(), "2vxsx-fae");
    assert!(anonymous.is_anonymous());
    assert!(!management.is_anonymous());
    let some = Address::from_text("2chl6-4hpzw-vqaaa-aaaaa-c").expect("valid text");
    assert_eq!(some.to_bytes(), vec![0xef, 0xcd, 0xab, 0, 0, 0, 0, 0, 1]);
    assert_eq!(Address::from_text(&some.to_text()), Some(some));
}

#[test]
fn address_rejects_bad_text_and_long_bytes() {
    assert_eq!(Address::from_text("not a principal"), None);
    assert_eq!(Address::from_text("aaaaa-ab"), None);
    assert!(Address::from_bytes(vec![0; 29]).is_some());
    assert!(Address::from_bytes(vec![0; 30]).is_none());
}

#[test]
fn address_same_compares_bytes() {
    assert!(creator().same(&address(&[1, 2, 3])));
    assert!(!creator().same(&address(&[1, 2, 4])));
    assert!(!creator().same(&address(&[1, 2])));
}

#[test]
fn payment_ledger_is_the_mainnet_ledger() {
    assert_eq!(payment_ledger().to_text(), "ryjl3-tyaaa-aaaaa-aaaba-cai");
}

#[test]
fn discount_of_twenty_percent() {
    assert_eq!(apply_discount(100, 20), 80);
    assert_eq!(apply_discount(99, 50), 50);
    assert_eq!(apply_discount(100, 0), 100);
    assert_eq!(apply_discount(100, 100), 0);
    assert_eq!(apply_discount(100, 255), 0);
    assert_eq!(apply_discount(u32::MAX, 1), 4_252_017_623);
}

#[test]
fn effective_price_for_creator_with_active_window() {
    let collection = info(creator(), 1_000, vec![window(500, 20)]);
    assert_eq!(compute_effective_price(100, &collection, &creator(), 100), Ok(80));
}

#[test]
fn effective_price_without_active_window() {
    let none = info(creator(), 1_000, Vec::new());
    assert_eq!(compute_effective_price(100, &none, &creator(), 100), Ok(100));
    let closed = info(creator(), 1_000, vec![window(500, 20)]);
    assert_eq!(compute_effective_price(100, &closed, &creator(), 500), Ok(100));
    assert_eq!(compute_effective_price(100, &closed, &creator(), 499), Ok(80));
}

#[test]
fn effective_price_for_resale_is_the_listed_price() {
    let collection = info(creator(), 1_000, vec![window(500, 20), window(600, 90)]);
    assert_eq!(compute_effective_price(100, &collection, &buyer(), 100), Ok(100));
    assert_eq!(compute_effective_price(100, &collection, &buyer(), 5_000), Ok(100));
}

#[test]
fn effective_price_after_expiry_is_an_error() {
    let collection = info(creator(), 1_000, vec![window(500, 20)]);
    assert_eq!(
        compute_effective_price(100, &collection, &creator(), 1_001),
        Err(PurchaseError::CollectionExpired)
    );
    assert_eq!(compute_effective_price(100, &collection, &creator(), 1_000), Ok(100));
}

#[test]
fn nearest_window_wins() {
    let early_first = info(creator(), 1_000, vec![window(300, 10), window(600, 50)]);
    assert_eq!(compute_effective_price(100, &early_first, &creator(), 100), Ok(90));
    let early_last = info(creator(), 1_000, vec![window(600, 50), window(300, 10)]);
    assert_eq!(compute_effective_price(100, &early_last, &creator(), 100), Ok(90));
    assert_eq!(compute_effective_price(100, &early_last, &creator(), 300), Ok(50));
    let tie = info(creator(), 1_000, vec![window(300, 10), window(300, 40)]);
    assert_eq!(compute_effective_price(100, &tie, &creator(), 100), Ok(90));
}

#[test]
fn balance_that_covers_price_and_fee() {
    assert_eq!(settle(80, 150, 10), Ok(90));
    assert_eq!(settle(80, 90, 10), Ok(90));
}

#[test]
fn balance_that_does_not_cover() {
    assert_eq!(settle(80, 50, 10), Err(PurchaseError::InsufficientBalance));
    assert_eq!(settle(80, 89, 10), Err(PurchaseError::InsufficientBalance));
    assert_eq!(settle(80, u128::MAX, u128::MAX), Err(PurchaseError::InsufficientBalance));
}

#[test]
fn creation_rejects_expiry_in_the_past() {
    let arg = request(vec![kind("vip", 2, 100)], 2, Vec::new());
    assert_eq!(
        validation_message(create_collection_nfts(arg, creator(), 1_000)),
        "Error: Expiration date cannot be in the past"
    );
    let arg = request(vec![kind("vip", 2, 100)], 2, Vec::new());
    assert!(create_collection_nfts(arg, creator(), 999).is_ok());
}

#[test]
fn creation_rejects_window_out_of_range() {
    let message =
        "Error: discount windows date cannot be in the past or it cannot be after the expire date";
    let late = request(vec![kind("vip", 2, 100)], 2, vec![window(1_000, 10)]);
    assert_eq!(validation_message(create_collection_nfts(late, creator(), 10)), message);
    let early = request(vec![kind("vip", 2, 100)], 2, vec![window(500, 10), window(10, 10)]);
    assert_eq!(validation_message(create_collection_nfts(early, creator(), 10)), message);
    let fine = request(vec![kind("vip", 2, 100)], 2, vec![window(11, 10), window(999, 10)]);
    assert!(create_collection_nfts(fine, creator(), 10).is_ok());
}

#[test]
fn creation_rejects_supply_mismatch() {
    let arg = request(vec![kind("vip", 2, 100), kind("std", 3, 10)], 6, Vec::new());
    assert_eq!(
        validation_message(create_collection_nfts(arg, creator(), 10)),
        "number of NFTs to create does not match the supply cap"
    );
    let arg = request(Vec::new(), 1, Vec::new());
    assert_eq!(
        validation_message(create_collection_nfts(arg, creator(), 10)),
        "number of NFTs to create does not match the supply cap"
    );
}

#[test]
fn creation_rejects_more_tokens_than_ids() {
    let arg = request(vec![kind("a", u64::MAX, 1), kind("b", 1, 1)], u64::MAX as u128 + 1, Vec::new());
    assert_eq!(
        validation_message(create_collection_nfts(arg, creator(), 10)),
        "number of NFTs to create exceeds the range of token ids"
    );
}

#[test]
fn creation_mints_ids_from_one_across_kinds() {
    let mut market = Marketplace::new();
    let arg = request(
        vec![kind("vip", 2, 100), kind("none", 0, 5), kind("std", 3, 10)],
        5,
        vec![window(500, 20)],
    );
    let ids = create(&mut market, arg, &registry_a(), 10);
    assert_eq!(ids, vec![1, 2, 3, 4, 5]);

    let collections = get_collections(&market);
    assert_eq!(collections.len(), 1);
    let (registry, record) = &collections[0];
    assert_eq!(registry, &registry_a());
    assert_eq!(record.owner, creator());
    assert_eq!(record.expire_date, 1_000);
    assert_eq!(record.discount_windows, vec![window(500, 20)]);
    assert_eq!(record.nfts.len(), 3);
    assert_eq!(record.nfts[0].nft, kind("vip", 2, 100));
    assert_eq!(record.nfts[0].tkn_ids, vec![1, 2]);
    assert_eq!(record.nfts[1].tkn_ids, Vec::<u64>::new());
    assert_eq!(record.nfts[2].nft, kind("std", 3, 10));
    assert_eq!(record.nfts[2].tkn_ids, vec![3, 4, 5]);

    let sales = get_nfts(&market);
    assert_eq!(sales.len(), 5);
    for (position, (key, sale)) in sales.iter().enumerate() {
        assert_eq!(key.collection_id, registry_a());
        assert_eq!(key.tkn_id, position as u64 + 1);
        assert_eq!(sale.owner, creator());
        assert!(sale.on_sale);
        assert_eq!(sale.price, Some(if position < 2 { 100 } else { 10 }));
    }
}

#[test]
fn creation_mint_request_carries_the_kind() {
    let mut market = Marketplace::new();
    let arg = request(vec![kind("vip", 1, 100), kind("std", 1, 10)], 2, Vec::new());
    let (creation, config) = create_collection_nfts(arg, creator(), 10).expect("accepted");
    assert_eq!(config, self::config(2));
    let step = creation.provisioned(&mut market, Ok(registry_a().to_text()));
    let CreationStep::Mint(first) = step else { panic!("a token is left to mint") };
    assert_eq!(first.registry(), registry_a());
    assert_eq!(first.creator(), creator());
    let arg = first.request();
    assert_eq!(arg.to, Account { owner: creator(), subaccount: None });
    assert_eq!(arg.token_id, 1);
    assert_eq!(arg.memo, None);
    assert_eq!(arg.from_subaccount, None);
    assert_eq!(arg.token_name, Some("vip".to_string()));
    assert_eq!(arg.token_description, Some("vip seat".to_string()));
    assert_eq!(arg.token_logo, Some("logo".to_string()));
    assert_eq!(arg.token_privilege_code, Some(1));
    let CreationStep::Mint(second) = first.minted(&mut market, Ok(1)) else {
        panic!("a token is left to mint")
    };
    let arg = second.request();
    assert_eq!(arg.token_id, 2);
    assert_eq!(arg.token_name, Some("std".to_string()));
}

#[test]
fn creation_of_an_empty_collection_needs_no_mint() {
    let mut market = Marketplace::new();
    let arg = request(vec![kind("none", 0, 5)], 0, Vec::new());
    let ids = create(&mut market, arg, &registry_a(), 10);
    assert!(ids.is_empty());
    assert_eq!(get_collections(&market).len(), 1);
    assert!(get_nfts(&market).is_empty());
}

#[test]
fn creation_stops_on_failed_provisioning() {
    let mut market = Marketplace::new();
    let arg = request(vec![kind("vip", 1, 100)], 1, Vec::new());
    let (creation, _) = create_collection_nfts(arg, creator(), 10).expect("accepted");
    let failure = ProvisionError::ResourceAllocation {
        code: RejectCode::CanisterError,
        message: "out of cycles".to_string(),
    };
    let step = creation.provisioned(&mut market, Err(failure));
    let CreationStep::Failed(error) = step else { panic!("the creation went on") };
    assert_eq!(
        error,
        Errors::GenericError {
            message: "Rejection Code: CanisterError, Message: out of cycles".to_string(),
            error_code: 400
        }
    );
    assert!(get_collections(&market).is_empty());
}

#[test]
fn creation_stops_on_unreadable_registry() {
    let mut market = Marketplace::new();
    let arg = request(vec![kind("vip", 1, 100)], 1, Vec::new());
    let (creation, _) = create_collection_nfts(arg, creator(), 10).expect("accepted");
    let step = creation.provisioned(&mut market, Ok("nonsense".to_string()));
    let CreationStep::Failed(error) = step else { panic!("the creation went on") };
    assert_eq!(
        error,
        Errors::GenericError {
            message: "unable to tranform string to Principal".to_string(),
            error_code: 400
        }
    );
}

#[test]
fn creation_stops_on_refused_mint_and_keeps_what_was_minted() {
    let mut market = Marketplace::new();
    let arg = request(vec![kind("vip", 2, 100)], 2, Vec::new());
    let (creation, _) = create_collection_nfts(arg, creator(), 10).expect("accepted");
    let CreationStep::Mint(first) = creation.provisioned(&mut market, Ok(registry_a().to_text()))
    else {
        panic!("a token is left to mint")
    };
    let CreationStep::Mint(second) = first.minted(&mut market, Ok(1)) else {
        panic!("a token is left to mint")
    };
    let step = second.minted(&mut market, Err(Errors::SupplyCapReached));
    let CreationStep::Failed(error) = step else { panic!("the creation went on") };
    assert_eq!(error, Errors::SupplyCapReached);
    assert_eq!(get_nfts(&market).len(), 1);
    assert!(get_collections(&market).is_empty());
}

#[test]
fn viability_follows_the_expiry() {
    let mut market = Marketplace::new();
    create(&mut market, request(vec![kind("vip", 1, 100)], 1, Vec::new()), &registry_a(), 10);
    assert_eq!(get_collection_viability(&market, &registry_a(), 999), Ok(true));
    assert_eq!(get_collection_viability(&market, &registry_a(), 1_000), Ok(false));
    assert_eq!(
        get_collection_viability(&market, &registry_b(), 10),
        Err("collection does not exists".to_string())
    );
}

#[test]
fn viability_is_repeatable() {
    let mut market = Marketplace::new();
    create(&mut market, request(vec![kind("vip", 1, 100)], 1, Vec::new()), &registry_a(), 10);
    let first = get_collection_viability(&market, &registry_a(), 500);
    let second = get_collection_viability(&market, &registry_a(), 500);
    assert_eq!(first, second);
    assert_eq!(first, Ok(true));
}

#[test]
fn listing_pages_are_prefixes() {
    let mut market = Marketplace::new();
    for tag in [5u8, 3, 9, 1] {
        create(&mut market, request(vec![kind("vip", 1, 100)], 1, Vec::new()), &address(&[tag, 0]), 10);
    }
    let two = get_all_collections(&market, 0, 2, 10).expect("two collections");
    let ten = get_all_collections(&market, 0, 10, 10).expect("four collections");
    assert_eq!(two.len(), 2);
    assert_eq!(ten.len(), 4);
    assert_eq!(&ten[..2], &two[..]);
    let order: Vec<Vec<u8>> = ten.iter().map(|c| c.canister_id.to_bytes()).collect();
    assert_eq!(order, vec![vec![1, 0], vec![3, 0], vec![5, 0], vec![9, 0]]);
    assert!(ten.iter().all(|c| c.available && c.owner == creator()));
}

#[test]
fn listing_orders_shorter_addresses_first() {
    let mut market = Marketplace::new();
    for bytes in [vec![2u8, 0], vec![9], vec![1, 0, 0], vec![1, 5]] {
        create(&mut market, request(vec![kind("vip", 1, 100)], 1, Vec::new()), &address(&bytes), 10);
    }
    let all = get_all_collections(&market, 0, 10, 10).expect("four collections");
    let order: Vec<Vec<u8>> = all.iter().map(|c| c.canister_id.to_bytes()).collect();
    assert_eq!(order, vec![vec![9], vec![1, 5], vec![2, 0], vec![1, 0, 0]]);
}

#[test]
fn listing_offsets_and_limits() {
    let mut market = Marketplace::new();
    assert_eq!(get_all_collections(&market, 0, 10, 10), Err("no collections present".to_string()));
    assert_eq!(get_all_nfts(&market, 0, 10), Err("no collections present".to_string()));
    create(&mut market, request(vec![kind("vip", 3, 100)], 3, Vec::new()), &registry_a(), 10);
    create(&mut market, request(vec![kind("std", 2, 10)], 2, Vec::new()), &registry_b(), 10);
    let page = get_all_collections(&market, 1, 5, 2_000).expect("one collection");
    assert_eq!(page.len(), 1);
    assert_eq!(page[0].canister_id, registry_b());
    assert!(!page[0].available);
    assert_eq!(get_all_collections(&market, 2, 5, 10), Err("no collections present".to_string()));
    assert_eq!(get_all_collections(&market, 0, 0, 10), Err("no collections present".to_string()));
    let sales = get_all_nfts(&market, 2, 2).expect("two records");
    assert_eq!(sales.len(), 2);
    assert_eq!((sales[0].0.collection_id.clone(), sales[0].0.tkn_id), (registry_a(), 3));
    assert_eq!((sales[1].0.collection_id.clone(), sales[1].0.tkn_id), (registry_b(), 1));
    assert_eq!(get_all_nfts(&market, 5, 2), Err("no collections present".to_string()));
}

#[test]
fn listing_by_owner() {
    let mut market = Marketplace::new();
    create(&mut market, request(vec![kind("vip", 1, 100)], 1, Vec::new()), &registry_a(), 10);
    create(&mut market, request(vec![kind("vip", 1, 100)], 1, Vec::new()), &registry_b(), 10);
    let ids = get_collection_ids(&market, None, creator(), 0, 10).expect("two collections");
    assert_eq!(ids, vec![registry_a().to_text(), registry_b().to_text()]);
    let ids = get_collection_ids(&market, Some(creator().to_text()), buyer(), 1, 10).expect("one");
    assert_eq!(ids, vec![registry_b().to_text()]);
    assert_eq!(
        get_collection_ids(&market, None, buyer(), 0, 10),
        Err("this caller does not own any collection".to_string())
    );
    assert_eq!(
        get_collection_ids(&market, Some("nonsense".to_string()), creator(), 0, 10),
        Err("Not able to convert string to principal".to_string())
    );
    let mine = get_collections_info_by_caller(&market, None, creator(), 0, 1, 10).expect("ok");
    assert_eq!(mine.len(), 1);
    assert_eq!(mine[0].canister_id, registry_a());
    assert_eq!(mine[0].nfts.len(), 1);
    assert_eq!(mine[0].nfts[0].tkn_ids, vec![1]);
    let theirs = get_collections_info_by_caller(&market, None, buyer(), 0, 10, 10).expect("ok");
    assert!(theirs.is_empty());
    assert_eq!(
        get_collections_info_by_caller(&market, Some("??".to_string()), buyer(), 0, 10, 10),
        Err("Not able to convert string to principal".to_string())
    );
}

#[test]
fn sale_record_is_replaced_by_a_later_write() {
    let mut market = Marketplace::new();
    insert_nft_record(&mut market, &registry_a(), 7, &creator(), Some(5), true);
    insert_nft_record(&mut market, &registry_a(), 7, &buyer(), None, false);
    let sales = get_nfts(&market);
    assert_eq!(sales.len(), 1);
    assert_eq!(sales[0].1.owner, buyer());
    assert_eq!(sales[0].1.price, None);
    assert!(!sales[0].1.on_sale);
    assert_eq!(market.find_sale(&registry_a(), 7).map(|r| r.owner), Some(buyer()));
    assert_eq!(market.find_sale(&registry_a(), 8), None);
}

#[test]
fn discount_needs_the_collection() {
    let mut market = Marketplace::new();
    assert_eq!(
        get_discount(&market, 100, &registry_a(), &creator(), 10),
        Err(PurchaseError::CollectionNotFound)
    );
    create(
        &mut market,
        request(vec![kind("vip", 1, 100)], 1, vec![window(500, 20)]),
        &registry_a(),
        10,
    );
    assert_eq!(get_discount(&market, 100, &registry_a(), &creator(), 10), Ok(80));
    assert_eq!(get_discount(&market, 100, &registry_a(), &buyer(), 10), Ok(100));
}

#[test]
fn check_balance_quotes_the_discounted_price() {
    let mut market = Marketplace::new();
    create(
        &mut market,
        request(vec![kind("vip", 1, 100)], 1, vec![window(500, 20)]),
        &registry_a(),
        10,
    );
    let text = registry_a().to_text();
    let quote = check_balance(&market, None, 1, &text, buyer(), 100).expect("on sale");
    assert_eq!(quote.buyer, buyer());
    assert_eq!(quote.seller, creator());
    assert_eq!(quote.price, 80);
    assert_eq!(settle(quote.price, 150, 10), Ok(90));
    let named = check_balance(&market, Some(creator().to_text()), 1, &text, buyer(), 100);
    assert_eq!(named.expect("on sale").buyer, creator());
    assert_eq!(check_balance(&market, None, 2, &text, buyer(), 100), Err(PurchaseError::NotFound));
    assert_eq!(
        check_balance(&market, None, 1, "nonsense", buyer(), 100),
        Err(PurchaseError::InvalidAddress)
    );
    assert_eq!(
        check_balance(&market, Some("nonsense".to_string()), 1, &text, buyer(), 100),
        Err(PurchaseError::InvalidAddress)
    );
    assert_eq!(
        check_balance(&market, None, 1, &text, buyer(), 1_001),
        Err(PurchaseError::CollectionExpired)
    );
}

#[test]
fn purchase_with_enough_balance_proceeds_to_payment() {
    let mut market = Marketplace::new();
    create(
        &mut market,
        request(vec![kind("vip", 1, 100)], 1, vec![window(500, 20)]),
        &registry_a(),
        10,
    );
    let funding = begin_purchase(&mut market, &registry_a(), 1, buyer(), 100).expect("on sale");
    assert_eq!(funding.buyer(), Account { owner: buyer(), subaccount: None });
    let Funded::Pay(paying) = funding.funded(&mut market, Ok((150, 10))) else {
        panic!("the balance covers the price")
    };
    let payment = paying.request();
    assert_eq!(payment.amount, 80);
    assert_eq!(payment.from, Account { owner: buyer(), subaccount: None });
    assert_eq!(payment.to, Account { owner: creator(), subaccount: None });
    let Paid::Deliver(delivering) = paying.paid(&mut market, Ok(42)) else {
        panic!("the payment was made")
    };
    assert_eq!(delivering.registry(), registry_a());
    assert_eq!(delivering.seller(), creator());
    let transfer = delivering.request();
    assert_eq!(transfer.token_id, 1);
    assert_eq!(transfer.to, Account { owner: buyer(), subaccount: None });
    assert_eq!(transfer.from_subaccount, None);
    assert_eq!(transfer.created_at_time, None);
    let step = delivering.delivered(&mut market, Ok(vec![Some(Ok(3))]));
    let Delivered::Completed(receipt) = step else { panic!("the token was handed over") };
    assert_eq!((receipt.token, receipt.seller, receipt.buyer), (1, creator(), buyer()));
    let record = market.find_sale(&registry_a(), 1).expect("record");
    assert_eq!(record.owner, buyer());
    assert_eq!(record.price, None);
    assert!(!record.on_sale);
    assert_eq!(
        begin_purchase(&mut market, &registry_a(), 1, creator(), 100).err(),
        Some(PurchaseError::NotOnSale)
    );
}

#[test]
fn purchase_with_low_balance_aborts_without_change() {
    let mut market = Marketplace::new();
    create(
        &mut market,
        request(vec![kind("vip", 1, 100)], 1, vec![window(500, 20)]),
        &registry_a(),
        10,
    );
    let before = get_nfts(&market);
    let funding = begin_purchase(&mut market, &registry_a(), 1, buyer(), 100).expect("on sale");
    let step = funding.funded(&mut market, Ok((50, 10)));
    let Funded::Aborted(error) = step else { panic!("the balance is too low") };
    assert_eq!(error, PurchaseError::InsufficientBalance);
    assert_eq!(get_nfts(&market), before);
    assert!(!market.holds_reserved(&registry_a(), 1));
    assert!(begin_purchase(&mut market, &registry_a(), 1, buyer(), 100).is_ok());
}

#[test]
fn purchase_reserves_the_token() {
    let mut market = Marketplace::new();
    create(&mut market, request(vec![kind("vip", 2, 100)], 2, Vec::new()), &registry_a(), 10);
    let first = begin_purchase(&mut market, &registry_a(), 1, buyer(), 100).expect("on sale");
    assert!(market.holds_reserved(&registry_a(), 1));
    assert_eq!(
        begin_purchase(&mut market, &registry_a(), 1, creator(), 100).err(),
        Some(PurchaseError::Reserved)
    );
    assert!(begin_purchase(&mut market, &registry_a(), 2, creator(), 100).is_ok());
    let Funded::Aborted(error) = first.funded(&mut market, Err("timeout".to_string())) else {
        panic!("the ledger gave no answer")
    };
    assert_eq!(error, PurchaseError::LedgerUnreachable { message: "timeout".to_string() });
    assert!(!market.holds_reserved(&registry_a(), 1));
    assert!(market.holds_reserved(&registry_a(), 2));
}

#[test]
fn purchase_refused_payment_aborts() {
    let mut market = Marketplace::new();
    create(&mut market, request(vec![kind("vip", 1, 100)], 1, Vec::new()), &registry_a(), 10);
    let funding = begin_purchase(&mut market, &registry_a(), 1, buyer(), 100).expect("on sale");
    let Funded::Pay(paying) = funding.funded(&mut market, Ok((1_000, 10))) else {
        panic!("the balance covers the price")
    };
    let step = paying.paid(&mut market, Err("InsufficientAllowance".to_string()));
    let Paid::Aborted(error) = step else { panic!("the payment was refused") };
    assert_eq!(error, PurchaseError::PaymentRefused { message: "InsufficientAllowance".to_string() });
    assert!(!market.holds_reserved(&registry_a(), 1));
    assert_eq!(market.find_sale(&registry_a(), 1).map(|r| r.on_sale), Some(true));
}

#[test]
fn purchase_failed_delivery_leaves_a_refund_due() {
    let mut market = Marketplace::new();
    create(&mut market, request(vec![kind("vip", 1, 100)], 1, Vec::new()), &registry_a(), 10);
    let outcomes: Vec<(Result<Vec<Option<Result<u128, TransferError>>>, String>, PurchaseError)> = vec![
        (
            Ok(vec![Some(Err(TransferError::Unauthorized))]),
            PurchaseError::TransferRefused { error: TransferError::Unauthorized },
        ),
        (
            Ok(vec![None]),
            PurchaseError::TransferRefused {
                error: TransferError::GenericError {
                    error_code: 400,
                    message: "error in transfering NFT".to_string(),
                },
            },
        ),
        (
            Ok(Vec::new()),
            PurchaseError::TransferRefused {
                error: TransferError::GenericError {
                    error_code: 400,
                    message: "error in transfering NFT".to_string(),
                },
            },
        ),
        (
            Err("unreachable".to_string()),
            PurchaseError::RegistryUnreachable { message: "unreachable".to_string() },
        ),
    ];
    for (answer, expected) in outcomes {
        let funding = begin_purchase(&mut market, &registry_a(), 1, buyer(), 100).expect("on sale");
        let Funded::Pay(paying) = funding.funded(&mut market, Ok((1_000, 10))) else {
            panic!("the balance covers the price")
        };
        let Paid::Deliver(delivering) = paying.paid(&mut market, Ok(1)) else {
            panic!("the payment was made")
        };
        let Delivered::RefundDue(error) = delivering.delivered(&mut market, answer) else {
            panic!("the token was not handed over")
        };
        assert_eq!(error, expected);
        let record = market.find_sale(&registry_a(), 1).expect("record");
        assert_eq!(record.owner, creator());
        assert!(record.on_sale);
        assert!(market.holds_reserved(&registry_a(), 1));
        assert_eq!(
            begin_purchase(&mut market, &registry_a(), 1, creator(), 100).err(),
            Some(PurchaseError::Reserved)
        );
        let kept = PendingPurchase {
            buyer: buyer(),
            seller: creator(),
            price: 100,
            stage: PurchaseStage::RefundPending,
        };
        assert_eq!(market.find_pending(&registry_a(), 1), Some(kept));
        let dropped = abandon_purchase(&mut market, &registry_a(), 1).expect("a record");
        assert_eq!(dropped.stage, PurchaseStage::RefundPending);
        assert!(!market.holds_reserved(&registry_a(), 1));
    }
}

#[test]
fn purchase_records_its_stage() {
    let mut market = Marketplace::new();
    create(&mut market, request(vec![kind("vip", 2, 100)], 2, Vec::new()), &registry_a(), 10);
    assert!(pending_purchases(&market).is_empty());
    assert_eq!(market.find_pending(&registry_a(), 1), None);
    let funding = begin_purchase(&mut market, &registry_a(), 2, buyer(), 100).expect("on sale");
    let stage = |market: &Marketplace| market.find_pending(&registry_a(), 2).map(|p| p.stage);
    assert_eq!(stage(&market), Some(PurchaseStage::Initiated));
    let Funded::Pay(paying) = funding.funded(&mut market, Ok((1_000, 10))) else {
        panic!("the balance covers the price")
    };
    assert_eq!(stage(&market), Some(PurchaseStage::Initiated));
    let Paid::Deliver(delivering) = paying.paid(&mut market, Ok(1)) else {
        panic!("the payment was made")
    };
    assert_eq!(stage(&market), Some(PurchaseStage::Paid));
    let pending = pending_purchases(&market);
    assert_eq!(pending.len(), 1);
    assert_eq!(pending[0].0.collection_id, registry_a());
    assert_eq!(pending[0].0.tkn_id, 2);
    assert_eq!(
        pending[0].1,
        PendingPurchase { buyer: buyer(), seller: creator(), price: 100, stage: PurchaseStage::Paid }
    );
    let step = delivering.delivered(&mut market, Ok(vec![Some(Ok(5))]));
    assert!(matches!(step, Delivered::Completed(_)));
    assert_eq!(stage(&market), None);
    assert!(pending_purchases(&market).is_empty());
}

#[test]
fn purchase_is_resumed_after_the_payment() {
    let mut market = Marketplace::new();
    create(&mut market, request(vec![kind("vip", 1, 100)], 1, Vec::new()), &registry_a(), 10);
    assert!(resume_delivery(&mut market, &registry_a(), 1).is_none());
    let funding = begin_purchase(&mut market, &registry_a(), 1, buyer(), 100).expect("on sale");
    assert!(resume_delivery(&mut market, &registry_a(), 1).is_none());
    let Funded::Pay(paying) = funding.funded(&mut market, Ok((1_000, 10))) else {
        panic!("the balance covers the price")
    };
    let Paid::Deliver(delivering) = paying.paid(&mut market, Ok(1)) else {
        panic!("the payment was made")
    };
    let step = delivering.delivered(&mut market, Err("timeout".to_string()));
    assert!(matches!(step, Delivered::RefundDue(_)));
    let again = resume_delivery(&mut market, &registry_a(), 1).expect("the payment was made");
    assert_eq!(market.find_pending(&registry_a(), 1).map(|p| p.stage), Some(PurchaseStage::Paid));
    assert_eq!(again.registry(), registry_a());
    assert_eq!(again.seller(), creator());
    assert_eq!(again.request().token_id, 1);
    let step = again.delivered(&mut market, Ok(vec![Some(Ok(9))]));
    let Delivered::Completed(receipt) = step else { panic!("the token was handed over") };
    assert_eq!(receipt.buyer, buyer());
    assert_eq!(market.find_sale(&registry_a(), 1).map(|r| r.owner), Some(buyer()));
    assert!(!market.holds_reserved(&registry_a(), 1));
    assert_eq!(abandon_purchase(&mut market, &registry_a(), 1), None);
}

#[test]
fn purchase_lookup_errors() {
    let mut market = Marketplace::new();
    insert_nft_record(&mut market, &registry_a(), 1, &creator(), None, false);
    insert_nft_record(&mut market, &registry_a(), 2, &creator(), None, true);
    insert_nft_record(&mut market, &registry_a(), 3, &creator(), Some(10), true);
    let error = |market: &mut Marketplace, token: u64| {
        begin_purchase(market, &registry_a(), token, buyer(), 100).err()
    };
    assert_eq!(error(&mut market, 1), Some(PurchaseError::NotOnSale));
    assert_eq!(error(&mut market, 2), Some(PurchaseError::PriceMissing));
    assert_eq!(error(&mut market, 3), Some(PurchaseError::CollectionNotFound));
    assert_eq!(error(&mut market, 4), Some(PurchaseError::NotFound));
    assert!(!market.holds_reserved(&registry_a(), 3));
}

#[test]
fn transfer_nft_reads_the_request() {
    let mut market = Marketplace::new();
    create(&mut market, request(vec![kind("vip", 1, 100)], 1, Vec::new()), &registry_a(), 10);
    let bad_text = TransferArgs { tkn_id: 1, collection_id: "nonsense".to_string() };
    assert_eq!(
        transfer_nft(&mut market, &bad_text, buyer(), 100).err(),
        Some(PurchaseError::InvalidAddress)
    );
    let huge = TransferArgs { tkn_id: u64::MAX as u128 + 2, collection_id: registry_a().to_text() };
    assert_eq!(transfer_nft(&mut market, &huge, buyer(), 100).err(), Some(PurchaseError::NotFound));
    let good = TransferArgs { tkn_id: 1, collection_id: registry_a().to_text() };
    let funding = transfer_nft(&mut market, &good, buyer(), 100).expect("on sale");
    let Funded::Pay(paying) = funding.funded(&mut market, Ok((100, 0))) else {
        panic!("the balance covers the price")
    };
    assert_eq!(paying.request().amount, 100);
}

#[test]
fn loaded_marketplace_sees_nothing_of_another_memory() {
    let mut market = Marketplace::new();
    create(&mut market, request(vec![kind("vip", 1, 100)], 1, Vec::new()), &registry_a(), 10);
    let other = Marketplace::load();
    assert!(get_collections(&other).is_empty());
    assert!(get_nfts(&other).is_empty());
    assert_eq!(get_collections(&market).len(), 1);
}

#[test]
fn purchase_errors_are_described() {
    let texts = vec![
        (PurchaseError::InvalidAddress, "unable to parse string to principal"),
        (PurchaseError::NotFound, "Nft does not exists"),
        (PurchaseError::NotOnSale, "NFT not on sale"),
        (PurchaseError::PriceMissing, "NFT price not present"),
        (PurchaseError::CollectionNotFound, "collection does not exists"),
        (PurchaseError::CollectionExpired, "collection Expired"),
        (PurchaseError::Reserved, "NFT is being purchased"),
        (PurchaseError::InsufficientBalance, "Low balance"),
        (
            PurchaseError::LedgerUnreachable { message: "timeout".to_string() },
            "failed to call ledger: timeout",
        ),
        (
            PurchaseError::PaymentRefused { message: "no allowance".to_string() },
            "Error in transfering tokens: no allowance",
        ),
        (
            PurchaseError::RegistryUnreachable { message: "timeout".to_string() },
            "failed to call ledger: timeout",
        ),
        (
            PurchaseError::TransferRefused { error: TransferError::TooOld },
            "Error in transfering NFT TooOld",
        ),
    ];
    for (error, text) in texts {
        assert_eq!(error.describe(), text);
    }
    let names = vec![
        (TransferError::NonExistingTokenId, "NonExistingTokenId"),
        (TransferError::InvalidRecipient, "InvalidRecipient"),
        (TransferError::Unauthorized, "Unauthorized"),
        (TransferError::TooOld, "TooOld"),
        (TransferError::CreatedInFuture { ledger_time: 1 }, "CreatedInFuture"),
        (TransferError::Duplicate { duplicate_of: 1 }, "Duplicate"),
        (TransferError::GenericError { error_code: 1, message: String::new() }, "GenericError"),
        (
            TransferError::GenericBatchError { error_code: 1, message: String::new() },
            "GenericBatchError",
        ),
    ];
    for (error, name) in names {
        assert_eq!(error.name(), name);
    }
}

#[test]
fn stores_keep_their_entries_apart() {
    let mut market = Marketplace::new();
    create(&mut market, request(vec![kind("vip", 1, 100)], 1, Vec::new()), &registry_a(), 10);
    let _funding = begin_purchase(&mut market, &registry_a(), 1, buyer(), 100).expect("on sale");
    assert_eq!(get_collections(&market).len(), 1);
    assert_eq!(get_nfts(&market).len(), 1);
    assert_eq!(pending_purchases(&market).len(), 1);
    assert_eq!(market.find_collection(&registry_a()).map(|c| c.owner), Some(creator()));
    assert_eq!(market.find_collection(&registry_b()), None);
}
