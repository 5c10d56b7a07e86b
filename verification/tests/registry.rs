use nft_marketplace::address::Address;
use nft_marketplace::factory::{
    mint_collection_canister, Directory, ProvisionError, Reject, RejectCode, PROVISION_BUDGET,
};
use nft_marketplace::guards::{authenticated_guard, caller_is_auth, owner_guard};
use nft_marketplace::registry::{
    icrc1_minting_authority, icrc7_atomic_batch_transfers, icrc7_balance_of, icrc7_burn,
    icrc7_default_take_value, icrc7_description, icrc7_logo, icrc7_max_memo_size,
    icrc7_max_query_batch_size, icrc7_max_take_value, icrc7_max_update_batch_size, icrc7_mint,
    icrc7_name, icrc7_owner_of, icrc7_set_minting_authority, icrc7_supply_cap,
    icrc7_supported_standards, icrc7_symbol, icrc7_token_metadata, icrc7_tokens,
    icrc7_tokens_of, icrc7_total_supply, icrc7_transfer, icrc7_txn_logs, BurnArg,
    Icrc7TokenMetadata, Registry, TransactionKind, DEFAULT_PERMITTED_DRIFT, DEFAULT_TAKE_VALUE,
    DEFAULT_TX_WINDOW,
};
use nft_marketplace::types::{
    Account, CanisterArg, Errors, IcrcTransferArg, InitArg, MintArg, TransferError,
};

fn addr(bytes: &[u8]) -> Address {
    Address::from_bytes(bytes.to_vec()).expect("at most 29 bytes")
}

fn deployer() -> Address {
    addr(&[7])
}

fn minter() -> Address {
    addr(&[1, 1])
}

fn alice() -> Address {
    addr(&[2, 2])
}

fn bob() -> Address {
    addr(&[3, 3])
}

fn account(owner: Address) -> Account {
    Account { owner, subaccount: None }
}

fn choices(supply_cap: u128) -> CanisterArg {
    CanisterArg {
        icrc7_symbol: "TKT".to_string(),
        icrc7_name: "Tickets".to_string(),
        icrc7_description: Some("concert tickets".to_string()),
        icrc7_logo: Some("logo.png".to_string()),
        icrc7_supply_cap: supply_cap,
        icrc7_max_query_batch_size: Some(70_000),
        icrc7_max_update_batch_size: Some(3),
        icrc7_max_take_value: Some(4),
        icrc7_default_take_value: Some(2),
        icrc7_max_memo_size: Some(5_000_000_000),
        icrc7_atomic_batch_transfers: None,
        tx_window: None,
        permitted_drift: None,
    }
}

fn registry_with(supply_cap: u128, atomic: Option<bool>) -> Registry {
    let mut init = InitArg::from((account(minter()), choices(supply_cap)));
    init.icrc7_atomic_batch_transfers = atomic;
    Registry::new(deployer(), init)
}

fn mint_arg(token_id: u128, to: Address) -> MintArg {
    MintArg {
        to: account(to),
        token_id,
        memo: Some(vec![1, 2]),
        from_subaccount: None,
        token_description: Some("a seat".to_string()),
        token_logo: None,
        token_name: Some(format!("seat {token_id}")),
        token_privilege_code: Some(3),
    }
}

fn transfer_arg(token_id: u128, to: Address) -> IcrcTransferArg {
    IcrcTransferArg { from_subaccount: None, to: account(to), token_id, memo: None, created_at_time: None }
}

fn minted(ids: &[u128], to: Address) -> Registry {
    let mut registry = registry_with(100, None);
    for id in ids {
        assert_eq!(icrc7_mint(&mut registry, mint_arg(*id, to.clone()), Some(minter()), alice(), 10), Ok(*id));
    }
    registry
}

#[test]
fn init_arg_takes_over_the_choices() {
    let init = InitArg::from((account(minter()), choices(9)));
    assert_eq!(init.minting_account, Some(account(minter())));
    assert_eq!(init.icrc7_symbol, "TKT");
    assert_eq!(init.icrc7_name, "Tickets");
    assert_eq!(init.icrc7_description, Some("concert tickets".to_string()));
    assert_eq!(init.icrc7_logo, Some("logo.png".to_string()));
    assert_eq!(init.icrc7_supply_cap, Some(9));
    assert_eq!(init.icrc7_max_query_batch_size, Some(70_000));
    assert_eq!(init.icrc7_max_update_batch_size, Some(3));
    assert_eq!(init.icrc7_max_take_value, Some(4));
    assert_eq!(init.icrc7_default_take_value, Some(2));
    assert_eq!(init.icrc7_max_memo_size, Some(5_000_000_000));
    assert_eq!(init.icrc7_atomic_batch_transfers, None);
    assert_eq!(init.tx_window, None);
    assert_eq!(init.permitted_drift, None);
}

#[test]
fn registry_reports_its_configuration() {
    let registry = registry_with(9, Some(true));
    assert_eq!(icrc7_symbol(&registry), "TKT");
    assert_eq!(icrc7_name(&registry), "Tickets");
    assert_eq!(icrc7_description(&registry), Some("concert tickets".to_string()));
    assert_eq!(icrc7_logo(&registry), Some("logo.png".to_string()));
    assert_eq!(icrc7_total_supply(&registry), 0);
    assert_eq!(icrc7_supply_cap(&registry), Some(9));
    assert_eq!(icrc1_minting_authority(&registry), Some(account(minter())));
    assert_eq!(icrc7_max_query_batch_size(&registry), Some(u16::MAX));
    assert_eq!(icrc7_max_update_batch_size(&registry), Some(3));
    assert_eq!(icrc7_default_take_value(&registry), Some(2));
    assert_eq!(icrc7_max_take_value(&registry), Some(4));
    assert_eq!(icrc7_max_memo_size(&registry), Some(u32::MAX));
    assert_eq!(icrc7_atomic_batch_transfers(&registry), Some(true));
}

#[test]
fn supported_standards_are_fixed() {
    let standards = icrc7_supported_standards();
    let names: Vec<&str> = standards.iter().map(|s| s.name.as_str()).collect();
    assert_eq!(names, vec!["ICRC-7", "ICRC-10", "ICRC-37", "ICRC-3"]);
    for standard in &standards {
        assert_eq!(
            standard.url,
            format!("https://github.com/dfinity/ICRC/tree/main/ICRCs/{}", standard.name)
        );
    }
}

#[test]
fn mint_gives_the_token_and_logs_it() {
    let mut registry = registry_with(2, None);
    assert_eq!(icrc7_mint(&mut registry, mint_arg(1, alice()), Some(minter()), bob(), 10), Ok(1));
    assert_eq!(icrc7_total_supply(&registry), 1);
    assert_eq!(icrc7_owner_of(&registry, &vec![1, 2]), vec![Some(account(alice())), None]);
    assert_eq!(
        icrc7_token_metadata(&registry, &vec![2, 1]),
        vec![
            None,
            Some(Icrc7TokenMetadata {
                name: Some("seat 1".to_string()),
                description: Some("a seat".to_string()),
                logo: None,
                privilege_code: Some(3),
            })
        ]
    );
    let log = icrc7_txn_logs(&registry, 0, 10);
    assert_eq!(log.len(), 1);
    assert_eq!(log[0].kind, TransactionKind::Mint);
    assert_eq!(log[0].token_id, 1);
    assert_eq!(log[0].from, None);
    assert_eq!(log[0].to, Some(account(alice())));
    assert_eq!(log[0].timestamp, 10);
    assert_eq!(log[0].memo, Some(vec![1, 2]));
}

#[test]
fn mint_refusals() {
    let mut registry = registry_with(2, None);
    assert_eq!(
        icrc7_mint(&mut registry, mint_arg(1, alice()), Some(Address::anonymous()), minter(), 10),
        Err(Errors::GenericBatchError { message: "Anonymous Identity".to_string(), error_code: 100 })
    );
    assert_eq!(
        icrc7_mint(&mut registry, mint_arg(1, alice()), Some(alice()), minter(), 10),
        Err(Errors::Unauthorized)
    );
    assert_eq!(
        icrc7_mint(&mut registry, mint_arg(0, alice()), None, minter(), 10),
        Err(Errors::TokenIdMinimumLimit)
    );
    assert_eq!(icrc7_mint(&mut registry, mint_arg(5, alice()), None, minter(), 10), Ok(5));
    assert_eq!(
        icrc7_mint(&mut registry, mint_arg(5, bob()), None, minter(), 10),
        Err(Errors::TokenIdAlreadyExist)
    );
    assert_eq!(icrc7_mint(&mut registry, mint_arg(3, alice()), None, minter(), 10), Ok(3));
    assert_eq!(
        icrc7_mint(&mut registry, mint_arg(4, alice()), None, minter(), 10),
        Err(Errors::SupplyCapReached)
    );
    assert_eq!(icrc7_total_supply(&registry), 2);
    assert_eq!(icrc7_txn_logs(&registry, 0, 10).len(), 2);
}

#[test]
fn mint_without_authority_is_unauthorized() {
    let mut init = InitArg::from((account(minter()), choices(5)));
    init.minting_account = None;
    let mut registry = Registry::new(deployer(), init);
    assert_eq!(
        icrc7_mint(&mut registry, mint_arg(1, alice()), None, minter(), 10),
        Err(Errors::Unauthorized)
    );
}

#[test]
fn tokens_are_listed_in_ascending_order() {
    let registry = minted(&[5, 1, 9, 3, 7], alice());
    assert_eq!(icrc7_tokens(&registry, None, Some(10)), vec![1, 3, 5, 7]);
    assert_eq!(icrc7_tokens(&registry, None, None), vec![1, 3]);
    assert_eq!(icrc7_tokens(&registry, Some(3), None), vec![5, 7]);
    assert_eq!(icrc7_tokens(&registry, Some(3), Some(1)), vec![5]);
    assert_eq!(icrc7_tokens(&registry, Some(7), Some(4)), vec![9]);
    assert_eq!(icrc7_tokens(&registry, Some(9), Some(4)), Vec::<u128>::new());
    assert_eq!(icrc7_tokens(&registry, None, Some(0)), Vec::<u128>::new());
}

#[test]
fn tokens_of_an_account_and_balances() {
    let mut registry = minted(&[1, 2, 3], alice());
    let reports = icrc7_transfer(&mut registry, vec![transfer_arg(2, bob())], None, alice(), 20);
    assert_eq!(reports, vec![Some(Ok(3))]);
    assert_eq!(icrc7_tokens_of(&registry, account(alice()), None, None), vec![1, 3]);
    assert_eq!(icrc7_tokens_of(&registry, account(alice()), Some(1), None), vec![3]);
    assert_eq!(icrc7_tokens_of(&registry, account(bob()), None, Some(1)), vec![2]);
    assert_eq!(icrc7_tokens_of(&registry, account(minter()), None, None), Vec::<u128>::new());
    assert_eq!(
        icrc7_balance_of(&registry, &vec![account(alice()), account(bob()), account(minter())]),
        vec![2, 1, 0]
    );
    let sub = Account { owner: alice(), subaccount: Some([1; 32]) };
    assert_eq!(icrc7_balance_of(&registry, &vec![sub]), vec![0]);
}

#[test]
fn transfer_moves_ownership_and_logs() {
    let mut registry = minted(&[1], alice());
    let reports = icrc7_transfer(&mut registry, vec![transfer_arg(1, bob())], Some(alice()), minter(), 20);
    assert_eq!(reports, vec![Some(Ok(1))]);
    assert_eq!(icrc7_owner_of(&registry, &vec![1]), vec![Some(account(bob()))]);
    let log = icrc7_txn_logs(&registry, 0, 10);
    assert_eq!(log.len(), 2);
    assert_eq!(log[1].kind, TransactionKind::Transfer);
    assert_eq!(log[1].from, Some(account(alice())));
    assert_eq!(log[1].to, Some(account(bob())));
    assert_eq!(log[1].timestamp, 20);
    assert_eq!(
        icrc7_token_metadata(&registry, &vec![1])[0].as_ref().and_then(|m| m.name.clone()),
        Some("seat 1".to_string())
    );
}

#[test]
fn transfer_refusals() {
    let mut registry = minted(&[1], alice());
    let run = |registry: &mut Registry, arg: IcrcTransferArg, acting: Address, now: u64| {
        icrc7_transfer(registry, vec![arg], None, acting, now).remove(0)
    };
    assert_eq!(
        run(&mut registry, transfer_arg(2, bob()), alice(), 20),
        Some(Err(TransferError::NonExistingTokenId))
    );
    assert_eq!(
        run(&mut registry, transfer_arg(1, alice()), alice(), 20),
        Some(Err(TransferError::InvalidRecipient))
    );
    assert_eq!(
        run(&mut registry, transfer_arg(1, alice()), bob(), 20),
        Some(Err(TransferError::Unauthorized))
    );
    let mut sub = transfer_arg(1, bob());
    sub.from_subaccount = Some([1; 32]);
    assert_eq!(run(&mut registry, sub, alice(), 20), Some(Err(TransferError::Unauthorized)));
    let mut to_self = transfer_arg(1, alice());
    to_self.to.subaccount = Some([0; 32]);
    assert_eq!(run(&mut registry, to_self, alice(), 20), Some(Err(TransferError::InvalidRecipient)));
    assert_eq!(
        run(&mut registry, transfer_arg(1, bob()), Address::anonymous(), 20),
        Some(Err(TransferError::GenericBatchError {
            error_code: 100,
            message: "Anonymous Identity".to_string()
        }))
    );
    assert_eq!(icrc7_owner_of(&registry, &vec![1]), vec![Some(account(alice()))]);
    assert_eq!(icrc7_txn_logs(&registry, 0, 10).len(), 1);
}

#[test]
fn accounts_without_subaccount_are_the_default_subaccount() {
    let plain = account(alice());
    let zeros = Account { owner: alice(), subaccount: Some([0; 32]) };
    let other = Account { owner: alice(), subaccount: Some([1; 32]) };
    assert!(plain.same(&zeros));
    assert!(zeros.same(&plain));
    assert!(!plain.same(&other));
    assert!(!plain.same(&account(bob())));
    assert_eq!(plain, zeros);
    assert_ne!(plain, other);
    assert_eq!(zeros.normalize().subaccount, None);
    assert_eq!(other.normalize().subaccount, Some([1; 32]));

    let mut registry = registry_with(100, None);
    let mut arg = mint_arg(1, alice());
    arg.to.subaccount = Some([0; 32]);
    assert_eq!(icrc7_mint(&mut registry, arg, None, minter(), 10), Ok(1));
    assert_eq!(icrc7_owner_of(&registry, &vec![1])[0].as_ref().map(|a| a.subaccount), Some(None));
    let mut from_zeros = transfer_arg(1, bob());
    from_zeros.from_subaccount = Some([0; 32]);
    assert_eq!(
        icrc7_transfer(&mut registry, vec![from_zeros], None, alice(), 20),
        vec![Some(Ok(1))]
    );
    let zeros_bob = Account { owner: bob(), subaccount: Some([0; 32]) };
    assert_eq!(icrc7_balance_of(&registry, &vec![zeros_bob]), vec![1]);
}

#[test]
fn transfer_checks_the_time_of_creation() {
    let now = DEFAULT_TX_WINDOW + DEFAULT_PERMITTED_DRIFT + 1_000;
    let mut registry = minted(&[1, 2], alice());
    let stamped = |token_id: u128, created: u64| {
        let mut arg = transfer_arg(token_id, bob());
        arg.created_at_time = Some(created);
        arg
    };
    let reports = icrc7_transfer(
        &mut registry,
        vec![stamped(1, 999), stamped(1, now + DEFAULT_PERMITTED_DRIFT + 1), stamped(1, 1_000)],
        None,
        alice(),
        now,
    );
    assert_eq!(
        reports,
        vec![
            Some(Err(TransferError::TooOld)),
            Some(Err(TransferError::CreatedInFuture { ledger_time: now })),
            Some(Ok(2)),
        ]
    );
    assert_eq!(icrc7_txn_logs(&registry, 0, 10)[2].timestamp, 1_000);
    let reports = icrc7_transfer(&mut registry, vec![stamped(2, now + DEFAULT_PERMITTED_DRIFT)], None, alice(), now);
    assert_eq!(reports, vec![Some(Ok(3))]);
}

#[test]
fn transfer_detects_duplicates() {
    let mut registry = minted(&[1], alice());
    let mut arg = transfer_arg(1, bob());
    arg.created_at_time = Some(50);
    arg.memo = Some(vec![9]);
    let again = IcrcTransferArg { memo: Some(vec![9]), ..transfer_arg(1, bob()) };
    let again = IcrcTransferArg { created_at_time: Some(50), ..again };
    assert_eq!(icrc7_transfer(&mut registry, vec![arg], None, alice(), 60), vec![Some(Ok(1))]);
    assert_eq!(
        icrc7_transfer(&mut registry, vec![again], None, alice(), 70),
        vec![Some(Err(TransferError::Duplicate { duplicate_of: 1 }))]
    );
    let mut other_memo = transfer_arg(1, bob());
    other_memo.created_at_time = Some(50);
    assert_eq!(
        icrc7_transfer(&mut registry, vec![other_memo], None, alice(), 70),
        vec![Some(Err(TransferError::Unauthorized))]
    );
}

#[test]
fn transfer_batch_items_fail_independently() {
    let mut registry = minted(&[1, 2], alice());
    let reports = icrc7_transfer(
        &mut registry,
        vec![transfer_arg(1, bob()), transfer_arg(7, bob()), transfer_arg(2, bob())],
        None,
        alice(),
        20,
    );
    assert_eq!(
        reports,
        vec![Some(Ok(2)), Some(Err(TransferError::NonExistingTokenId)), Some(Ok(3))]
    );
    assert_eq!(
        icrc7_owner_of(&registry, &vec![1, 2]),
        vec![Some(account(bob())), Some(account(bob()))]
    );
}

#[test]
fn transfer_atomic_batch_is_all_or_nothing() {
    let mut registry = registry_with(100, Some(true));
    for id in [1, 2] {
        assert_eq!(icrc7_mint(&mut registry, mint_arg(id, alice()), None, minter(), 10), Ok(id));
    }
    let reports = icrc7_transfer(
        &mut registry,
        vec![transfer_arg(1, bob()), transfer_arg(7, bob()), transfer_arg(2, bob())],
        None,
        alice(),
        20,
    );
    assert_eq!(reports, vec![None, Some(Err(TransferError::NonExistingTokenId)), None]);
    assert_eq!(
        icrc7_owner_of(&registry, &vec![1, 2]),
        vec![Some(account(alice())), Some(account(alice()))]
    );
    assert_eq!(icrc7_txn_logs(&registry, 0, 10).len(), 2);
    let reports = icrc7_transfer(
        &mut registry,
        vec![transfer_arg(1, bob()), transfer_arg(2, bob())],
        None,
        alice(),
        20,
    );
    assert_eq!(reports, vec![Some(Ok(2)), Some(Ok(3))]);
    assert_eq!(icrc7_balance_of(&registry, &vec![account(bob())]), vec![2]);
}

#[test]
fn transfer_batch_limits() {
    let mut registry = minted(&[1], alice());
    assert_eq!(icrc7_transfer(&mut registry, Vec::new(), None, alice(), 20), Vec::new());
    let too_many: Vec<IcrcTransferArg> = (0..4).map(|_| transfer_arg(1, bob())).collect();
    let oversized = Some(Err(TransferError::GenericBatchError {
        error_code: 2,
        message: "Exceed Max allowed Update Batch Size".to_string(),
    }));
    assert_eq!(
        icrc7_transfer(&mut registry, too_many, None, alice(), 20),
        vec![oversized.clone(), oversized.clone(), oversized.clone(), oversized]
    );
    assert_eq!(icrc7_owner_of(&registry, &vec![1]), vec![Some(account(alice()))]);
}

#[test]
fn burn_removes_the_token() {
    let mut registry = minted(&[1, 2, 3], alice());
    let reports = icrc7_burn(
        &mut registry,
        vec![
            BurnArg { token_id: 2, memo: Some(vec![7]) },
            BurnArg { token_id: 2, memo: None },
            BurnArg { token_id: 9, memo: None },
        ],
        alice(),
        30,
    );
    assert_eq!(
        reports,
        vec![
            Some(Ok(3)),
            Some(Err(TransferError::NonExistingTokenId)),
            Some(Err(TransferError::NonExistingTokenId)),
        ]
    );
    assert_eq!(icrc7_total_supply(&registry), 2);
    assert_eq!(icrc7_tokens(&registry, None, Some(4)), vec![1, 3]);
    assert_eq!(icrc7_owner_of(&registry, &vec![2]), vec![None]);
    let log = icrc7_txn_logs(&registry, 0, 10);
    assert_eq!(log[3].kind, TransactionKind::Burn);
    assert_eq!(log[3].from, Some(account(alice())));
    assert_eq!(log[3].to, None);
    assert_eq!(log[3].memo, Some(vec![7]));
    assert_eq!(log[3].timestamp, 30);
    assert_eq!(
        icrc7_burn(&mut registry, vec![BurnArg { token_id: 1, memo: None }], bob(), 30),
        vec![Some(Err(TransferError::Unauthorized))]
    );
    assert_eq!(
        icrc7_burn(&mut registry, vec![BurnArg { token_id: 1, memo: None }], Address::anonymous(), 30),
        vec![Some(Err(TransferError::GenericBatchError {
            error_code: 100,
            message: "Anonymous Identity".to_string()
        }))]
    );
    assert_eq!(icrc7_mint(&mut registry, mint_arg(2, bob()), None, minter(), 40), Ok(2));
    assert_eq!(icrc7_tokens(&registry, None, Some(4)), vec![1, 2, 3]);
}

#[test]
fn log_pages() {
    let registry = minted(&[1, 2, 3, 4, 5], alice());
    let ids = |page_number: u32, page_size: u32| -> Vec<u128> {
        icrc7_txn_logs(&registry, page_number, page_size).iter().map(|t| t.token_id).collect()
    };
    assert_eq!(ids(0, 2), vec![1, 2]);
    assert_eq!(ids(1, 2), vec![3, 4]);
    assert_eq!(ids(2, 2), vec![5]);
    assert_eq!(ids(3, 2), Vec::<u128>::new());
    assert_eq!(ids(0, 0), Vec::<u128>::new());
    assert_eq!(ids(u32::MAX, u32::MAX), Vec::<u128>::new());
    assert_eq!(ids(0, u32::MAX), vec![1, 2, 3, 4, 5]);
}

#[test]
fn minting_authority_is_set_at_most_once() {
    let mut init = InitArg::from((account(minter()), choices(5)));
    init.minting_account = None;
    let mut registry = Registry::new(deployer(), init);
    assert!(!icrc7_set_minting_authority(&mut registry, account(alice()), &alice()));
    assert_eq!(icrc1_minting_authority(&registry), None);
    assert!(icrc7_set_minting_authority(&mut registry, account(alice()), &deployer()));
    assert_eq!(icrc1_minting_authority(&registry), Some(account(alice())));
    assert!(!icrc7_set_minting_authority(&mut registry, account(bob()), &deployer()));
    assert_eq!(icrc1_minting_authority(&registry), Some(account(alice())));
    assert_eq!(icrc7_mint(&mut registry, mint_arg(1, bob()), None, alice(), 10), Ok(1));
}

#[test]
fn guards_let_the_right_callers_pass() {
    assert_eq!(caller_is_auth(&alice()), Ok(()));
    assert_eq!(caller_is_auth(&Address::anonymous()), Err("Anonymous Caller".to_string()));
    assert_eq!(owner_guard(&Some(account(alice())), &alice()), Ok(()));
    assert_eq!(
        owner_guard(&Some(account(alice())), &bob()),
        Err("The caller is not the owner of contract".to_string())
    );
    assert_eq!(owner_guard(&None, &alice()), Err("The canister not set owner".to_string()));
    let marketplace = alice().to_text();
    assert_eq!(authenticated_guard(&alice(), &marketplace), Ok(()));
    assert_eq!(
        authenticated_guard(&bob(), &marketplace),
        Err("anonymous user is not allowed".to_string())
    );
    assert_eq!(
        authenticated_guard(&Address::anonymous(), &Address::anonymous().to_text()),
        Err("anonymous user is not allowed".to_string())
    );
}

#[test]
fn factory_provisions_in_two_steps() {
    let mut directory = Directory::new();
    let factory = addr(&[0, 9]);
    let canister = addr(&[0, 0, 0, 0, 0, 0, 0, 7, 1, 1]);
    let (allocating, request) =
        mint_collection_canister(choices(9), alice(), factory.clone()).expect("has an identity");
    assert_eq!(request.controllers, vec![factory.clone(), alice()]);
    assert_eq!(request.budget, PROVISION_BUDGET);
    assert_eq!(request.budget, 1_000_000_000_000);
    let (installing, install) = allocating.allocated(Ok(canister.clone())).expect("allocated");
    assert_eq!(install.canister, canister);
    assert_eq!(install.init, InitArg::from((account(alice()), choices(9))));
    assert_eq!(installing.installed(&mut directory, Ok(())), Ok(canister.to_text()));
    assert_eq!(directory.get_principal(&alice()), Ok(vec![canister.to_text()]));
    assert_eq!(
        directory.get_principal(&bob()),
        Err("this caller does not own any collection".to_string())
    );
}

#[test]
fn factory_failures() {
    let mut directory = Directory::new();
    let factory = addr(&[0, 9]);
    let canister = addr(&[0, 0, 0, 0, 0, 0, 0, 7, 1, 1]);
    assert_eq!(
        mint_collection_canister(choices(9), Address::anonymous(), factory.clone()).err(),
        Some(ProvisionError::AnonymousCaller)
    );
    let (allocating, _) =
        mint_collection_canister(choices(9), alice(), factory.clone()).expect("has an identity");
    let rejected = allocating
        .allocated(Err(Reject { code: RejectCode::SysTransient, message: "busy".to_string() }))
        .err()
        .expect("rejected");
    assert_eq!(
        rejected,
        ProvisionError::ResourceAllocation { code: RejectCode::SysTransient, message: "busy".to_string() }
    );
    assert_eq!(rejected.describe(), "Rejection Code: SysTransient, Message: busy");
    let (allocating, _) =
        mint_collection_canister(choices(9), alice(), factory).expect("has an identity");
    let (installing, _) = allocating.allocated(Ok(canister.clone())).expect("allocated");
    let failed = installing
        .installed(
            &mut directory,
            Err(Reject { code: RejectCode::CanisterError, message: "bad module".to_string() }),
        )
        .err()
        .expect("rejected");
    assert_eq!(
        failed,
        ProvisionError::Install {
            code: RejectCode::CanisterError,
            message: "bad module".to_string(),
            orphan: canister
        }
    );
    assert_eq!(failed.describe(), "Code: CanisterError, Message: bad module");
    assert_eq!(ProvisionError::AnonymousCaller.describe(), "Anonymous Caller");
    assert!(directory.get_principal(&alice()).is_err());
}

#[test]
fn registry_is_kept_and_taken_up_again() {
    let mut registry = minted(&[2, 1, 3], alice());
    icrc7_transfer(&mut registry, vec![transfer_arg(2, bob())], None, alice(), 20);
    let kept = registry.snapshot();
    assert_eq!(kept.owner, deployer());
    assert_eq!(kept.config.minting_account, Some(account(minter())));
    assert_eq!(kept.config.icrc7_supply_cap, Some(100));
    assert_eq!(kept.tokens.iter().map(|t| t.id).collect::<Vec<u128>>(), vec![1, 2, 3]);
    assert_eq!(kept.tokens[1].owner, account(bob()));
    assert_eq!(kept.log.len(), 4);
    let again = Registry::restore(kept).expect("the tokens are in order");
    assert_eq!(again.snapshot(), registry.snapshot());
    assert_eq!(icrc7_owner_of(&again, &vec![2]), vec![Some(account(bob()))]);
    assert_eq!(icrc7_total_supply(&again), 3);
    assert_eq!(icrc7_txn_logs(&again, 0, 10), icrc7_txn_logs(&registry, 0, 10));
}

#[test]
fn registry_out_of_order_is_not_taken_up() {
    let registry = minted(&[1, 2], alice());
    let mut kept = registry.snapshot();
    kept.tokens.swap(0, 1);
    assert!(Registry::restore(kept).is_none());
    let mut twice = registry.snapshot();
    twice.tokens[1].id = 1;
    assert!(Registry::restore(twice).is_none());
    let mut none = registry.snapshot();
    none.tokens.clear();
    assert!(Registry::restore(none).is_some());
}

#[test]
fn listing_takes_the_default_amount() {
    let mut init = InitArg::from((account(minter()), choices(100)));
    init.icrc7_default_take_value = None;
    init.icrc7_max_take_value = None;
    init.icrc7_max_update_batch_size = None;
    let mut registry = Registry::new(deployer(), init);
    for id in 1..=40u128 {
        assert_eq!(icrc7_mint(&mut registry, mint_arg(id, alice()), None, minter(), 10), Ok(id));
    }
    assert_eq!(DEFAULT_TAKE_VALUE, 32);
    assert_eq!(icrc7_tokens(&registry, None, None).len(), 32);
    assert_eq!(icrc7_tokens(&registry, None, Some(40)).len(), 40);
    assert_eq!(icrc7_tokens(&registry, Some(35), None), vec![36, 37, 38, 39, 40]);
    assert_eq!(registry_with(9, None).snapshot().config.icrc7_max_take_value, Some(4));
}
