//! The records that the marketplace, the factory and the registries exchange
//! and persist, each with its mathematical view.

use crate::address::Address;
use vstd::prelude::*;
use vstd::string::StringExecFns;

verus! {

/// An address together with an optional sub-division of it. An account
/// without a sub-division is the account with the sub-division of 32 zero
/// bytes.
#[derive(Debug)]
pub struct Account {
    pub owner: Address,
    pub subaccount: Option<[u8; 32]>,
}

pub struct AccountView {
    pub owner: Seq<u8>,
    pub subaccount: Option<Seq<u8>>,
}

/// A sub-division as the proofs see it.
pub open spec fn subaccount_view(subaccount: Option<[u8; 32]>) -> Option<Seq<u8>> {
    match subaccount {
        Some(bytes) => Some(bytes@),
        None => None,
    }
}

impl View for Account {
    type V = AccountView;

    open spec fn view(&self) -> AccountView {
        AccountView { owner: self.owner@, subaccount: subaccount_view(self.subaccount) }
    }
}

impl DeepView for Account {
    type V = AccountView;

    open spec fn deep_view(&self) -> AccountView {
        self@
    }
}

impl Clone for Account {
    fn clone(&self) -> (copy: Self)
        ensures
            copy@ == self@,
    {
        let subaccount = match &self.subaccount {
            Some(bytes) => Some(*bytes),
            None => None,
        };
        Account { owner: self.owner.clone(), subaccount }
    }
}

/// The sub-division of the accounts that name none.
pub open spec fn default_subaccount() -> Seq<u8> {
    Seq::new(32, |i: int| 0u8)
}

/// The sub-division that an account stands for.
pub open spec fn effective_subaccount(account: AccountView) -> Seq<u8> {
    match account.subaccount {
        Some(bytes) => bytes,
        None => default_subaccount(),
    }
}

/// Whether two accounts are the same: they have one owner and stand for one
/// sub-division.
pub open spec fn same_account(a: AccountView, b: AccountView) -> bool {
    a.owner == b.owner && effective_subaccount(a) == effective_subaccount(b)
}

/// An account in its plain form: without a sub-division where it stands for
/// the sub-division of zero bytes.
pub open spec fn normalized(account: AccountView) -> AccountView {
    if effective_subaccount(account) == default_subaccount() {
        AccountView { owner: account.owner, subaccount: None }
    } else {
        account
    }
}

impl PartialEq for Account {
    fn eq(&self, other: &Self) -> (r: bool) {
        self.same(other)
    }
}

impl Eq for Account {

}

impl vstd::std_specs::cmp::PartialEqSpecImpl for Account {
    open spec fn obeys_eq_spec() -> bool {
        true
    }

    open spec fn eq_spec(&self, other: &Self) -> bool {
        same_account(self@, other@)
    }
}

impl Account {
    /// The account of an address without a sub-division.
    pub fn of(owner: Address) -> (account: Account)
        ensures
            account@ == principal_account(owner@),
    {
        Account { owner, subaccount: None }
    }

    /// Whether two accounts are the same.
    pub fn same(&self, other: &Account) -> (r: bool)
        ensures
            r == same_account(self@, other@),
    {
        if !self.owner.same(&other.owner) {
            return false;
        }
        match (&self.subaccount, &other.subaccount) {
            (None, None) => true,
            (Some(a), Some(b)) => same_subaccount(a, b),
            (Some(a), None) => is_default(a),
            (None, Some(b)) => is_default(b),
        }
    }

    /// This account in its plain form.
    pub fn normalize(self) -> (plain: Account)
        ensures
            plain@ == normalized(self@),
    {
        match &self.subaccount {
            Some(bytes) => {
                if is_default(bytes) {
                    Account { owner: self.owner, subaccount: None }
                } else {
                    self
                }
            },
            None => self,
        }
    }
}

fn same_subaccount(a: &[u8; 32], b: &[u8; 32]) -> (r: bool)
    ensures
        r == (a@ == b@),
{
    let mut i: usize = 0;
    while i < 32
        invariant
            i <= 32,
            forall|j: int| 0 <= j < i ==> a@[j] == b@[j],
        decreases 32 - i,
    {
        if a[i] != b[i] {
            return false;
        }
        i += 1;
    }
    assert(a@ =~= b@);
    true
}

fn is_default(a: &[u8; 32]) -> (r: bool)
    ensures
        r == (a@ == default_subaccount()),
{
    let mut i: usize = 0;
    while i < 32
        invariant
            i <= 32,
            forall|j: int| 0 <= j < i ==> a@[j] == 0,
        decreases 32 - i,
    {
        if a[i] != 0 {
            assert(default_subaccount()[i as int] == 0);
            return false;
        }
        i += 1;
    }
    assert(a@ =~= default_subaccount());
    true
}

/// The account that stands for an address alone.
pub open spec fn principal_account(owner: Seq<u8>) -> AccountView {
    AccountView { owner, subaccount: None }
}

/// What a creator chooses for a new registry.
#[derive(Debug, PartialEq, Eq)]
pub struct CanisterArg {
    pub icrc7_symbol: String,
    pub icrc7_name: String,
    pub icrc7_description: Option<String>,
    pub icrc7_logo: Option<String>,
    pub icrc7_supply_cap: u128,
    pub icrc7_max_query_batch_size: Option<u128>,
    pub icrc7_max_update_batch_size: Option<u128>,
    pub icrc7_max_take_value: Option<u128>,
    pub icrc7_default_take_value: Option<u128>,
    pub icrc7_max_memo_size: Option<u128>,
    pub icrc7_atomic_batch_transfers: Option<bool>,
    pub tx_window: Option<u64>,
    pub permitted_drift: Option<u64>,
}

pub struct CanisterArgView {
    pub icrc7_symbol: Seq<char>,
    pub icrc7_name: Seq<char>,
    pub icrc7_description: Option<Seq<char>>,
    pub icrc7_logo: Option<Seq<char>>,
    pub icrc7_supply_cap: u128,
    pub icrc7_max_query_batch_size: Option<u128>,
    pub icrc7_max_update_batch_size: Option<u128>,
    pub icrc7_max_take_value: Option<u128>,
    pub icrc7_default_take_value: Option<u128>,
    pub icrc7_max_memo_size: Option<u128>,
    pub icrc7_atomic_batch_transfers: Option<bool>,
    pub tx_window: Option<u64>,
    pub permitted_drift: Option<u64>,
}

impl View for CanisterArg {
    type V = CanisterArgView;

    open spec fn view(&self) -> CanisterArgView {
        CanisterArgView {
            icrc7_symbol: self.icrc7_symbol@,
            icrc7_name: self.icrc7_name@,
            icrc7_description: self.icrc7_description.deep_view(),
            icrc7_logo: self.icrc7_logo.deep_view(),
            icrc7_supply_cap: self.icrc7_supply_cap,
            icrc7_max_query_batch_size: self.icrc7_max_query_batch_size,
            icrc7_max_update_batch_size: self.icrc7_max_update_batch_size,
            icrc7_max_take_value: self.icrc7_max_take_value,
            icrc7_default_take_value: self.icrc7_default_take_value,
            icrc7_max_memo_size: self.icrc7_max_memo_size,
            icrc7_atomic_batch_transfers: self.icrc7_atomic_batch_transfers,
            tx_window: self.tx_window,
            permitted_drift: self.permitted_drift,
        }
    }
}

/// The initial configuration installed into a new registry.
#[derive(Debug, PartialEq, Eq)]
pub struct InitArg {
    pub minting_account: Option<Account>,
    pub icrc7_symbol: String,
    pub icrc7_name: String,
    pub icrc7_description: Option<String>,
    pub icrc7_logo: Option<String>,
    pub icrc7_supply_cap: Option<u128>,
    pub icrc7_max_query_batch_size: Option<u128>,
    pub icrc7_max_update_batch_size: Option<u128>,
    pub icrc7_max_take_value: Option<u128>,
    pub icrc7_default_take_value: Option<u128>,
    pub icrc7_max_memo_size: Option<u128>,
    pub icrc7_atomic_batch_transfers: Option<bool>,
    pub tx_window: Option<u64>,
    pub permitted_drift: Option<u64>,
}

pub struct InitArgView {
    pub minting_account: Option<AccountView>,
    pub icrc7_symbol: Seq<char>,
    pub icrc7_name: Seq<char>,
    pub icrc7_description: Option<Seq<char>>,
    pub icrc7_logo: Option<Seq<char>>,
    pub icrc7_supply_cap: Option<u128>,
    pub icrc7_max_query_batch_size: Option<u128>,
    pub icrc7_max_update_batch_size: Option<u128>,
    pub icrc7_max_take_value: Option<u128>,
    pub icrc7_default_take_value: Option<u128>,
    pub icrc7_max_memo_size: Option<u128>,
    pub icrc7_atomic_batch_transfers: Option<bool>,
    pub tx_window: Option<u64>,
    pub permitted_drift: Option<u64>,
}

impl View for InitArg {
    type V = InitArgView;

    open spec fn view(&self) -> InitArgView {
        InitArgView {
            minting_account: self.minting_account.deep_view(),
            icrc7_symbol: self.icrc7_symbol@,
            icrc7_name: self.icrc7_name@,
            icrc7_description: self.icrc7_description.deep_view(),
            icrc7_logo: self.icrc7_logo.deep_view(),
            icrc7_supply_cap: self.icrc7_supply_cap,
            icrc7_max_query_batch_size: self.icrc7_max_query_batch_size,
            icrc7_max_update_batch_size: self.icrc7_max_update_batch_size,
            icrc7_max_take_value: self.icrc7_max_take_value,
            icrc7_default_take_value: self.icrc7_default_take_value,
            icrc7_max_memo_size: self.icrc7_max_memo_size,
            icrc7_atomic_batch_transfers: self.icrc7_atomic_batch_transfers,
            tx_window: self.tx_window,
            permitted_drift: self.permitted_drift,
        }
    }
}

/// The initial configuration of a registry minted for `account` with the
/// creator's choices `arg`: the account becomes the minting authority and the
/// supply cap becomes binding.
pub open spec fn init_arg_of(account: AccountView, arg: CanisterArgView) -> InitArgView {
    InitArgView {
        minting_account: Some(account),
        icrc7_symbol: arg.icrc7_symbol,
        icrc7_name: arg.icrc7_name,
        icrc7_description: arg.icrc7_description,
        icrc7_logo: arg.icrc7_logo,
        icrc7_supply_cap: Some(arg.icrc7_supply_cap),
        icrc7_max_query_batch_size: arg.icrc7_max_query_batch_size,
        icrc7_max_update_batch_size: arg.icrc7_max_update_batch_size,
        icrc7_max_take_value: arg.icrc7_max_take_value,
        icrc7_default_take_value: arg.icrc7_default_take_value,
        icrc7_max_memo_size: arg.icrc7_max_memo_size,
        icrc7_atomic_batch_transfers: arg.icrc7_atomic_batch_transfers,
        tx_window: arg.tx_window,
        permitted_drift: arg.permitted_drift,
    }
}

impl InitArg {
    /// Builds the initial configuration from the minting account and the
    /// creator's choices.
    pub fn from(pair: (Account, CanisterArg)) -> (init: InitArg)
        ensures
            init@ == init_arg_of(pair.0@, pair.1@),
    {
        let (account, arg) = pair;
        InitArg {
            minting_account: Some(account),
            icrc7_symbol: arg.icrc7_symbol,
            icrc7_name: arg.icrc7_name,
            icrc7_description: arg.icrc7_description,
            icrc7_logo: arg.icrc7_logo,
            icrc7_supply_cap: Some(arg.icrc7_supply_cap),
            icrc7_max_query_batch_size: arg.icrc7_max_query_batch_size,
            icrc7_max_update_batch_size: arg.icrc7_max_update_batch_size,
            icrc7_max_take_value: arg.icrc7_max_take_value,
            icrc7_default_take_value: arg.icrc7_default_take_value,
            icrc7_max_memo_size: arg.icrc7_max_memo_size,
            icrc7_atomic_batch_transfers: arg.icrc7_atomic_batch_transfers,
            tx_window: arg.tx_window,
            permitted_drift: arg.permitted_drift,
        }
    }
}

/// What is known of one kind of token in a collection. `quantity` is the
/// number of tokens of this kind to mint, `price` the price of each.
#[derive(Debug, PartialEq, Eq)]
pub struct NftMetadata {
    pub token_name: String,
    pub token_privilege_code: u8,
    pub token_description: String,
    pub quantity: u64,
    pub token_logo: String,
    pub price: u32,
}

pub struct NftMetadataView {
    pub token_name: Seq<char>,
    pub token_privilege_code: u8,
    pub token_description: Seq<char>,
    pub quantity: u64,
    pub token_logo: Seq<char>,
    pub price: u32,
}

impl View for NftMetadata {
    type V = NftMetadataView;

    open spec fn view(&self) -> NftMetadataView {
        NftMetadataView {
            token_name: self.token_name@,
            token_privilege_code: self.token_privilege_code,
            token_description: self.token_description@,
            quantity: self.quantity,
            token_logo: self.token_logo@,
            price: self.price,
        }
    }
}

impl DeepView for NftMetadata {
    type V = NftMetadataView;

    open spec fn deep_view(&self) -> NftMetadataView {
        self@
    }
}

impl Clone for NftMetadata {
    fn clone(&self) -> (copy: Self)
        ensures
            copy@ == self@,
    {
        NftMetadata {
            token_name: self.token_name.clone(),
            token_privilege_code: self.token_privilege_code,
            token_description: self.token_description.clone(),
            quantity: self.quantity,
            token_logo: self.token_logo.clone(),
            price: self.price,
        }
    }
}

/// One kind of token of a collection with the token ids minted for it.
#[derive(Debug, PartialEq, Eq)]
pub struct CollectionNfts {
    pub nft: NftMetadata,
    pub tkn_ids: Vec<u64>,
}

pub struct CollectionNftsView {
    pub nft: NftMetadataView,
    pub tkn_ids: Seq<u64>,
}

impl View for CollectionNfts {
    type V = CollectionNftsView;

    open spec fn view(&self) -> CollectionNftsView {
        CollectionNftsView { nft: self.nft@, tkn_ids: self.tkn_ids@ }
    }
}

impl DeepView for CollectionNfts {
    type V = CollectionNftsView;

    open spec fn deep_view(&self) -> CollectionNftsView {
        self@
    }
}

impl Clone for CollectionNfts {
    fn clone(&self) -> (copy: Self)
        ensures
            copy@ == self@,
    {
        CollectionNfts { nft: self.nft.clone(), tkn_ids: self.tkn_ids.clone() }
    }
}

/// The marketplace's record of one token: who sells it, for how much, and
/// whether it is for sale. Ownership itself is the registry's to say.
#[derive(Debug, PartialEq, Eq)]
pub struct NftMarketData {
    pub owner: Address,
    pub price: Option<u32>,
    pub on_sale: bool,
}

pub struct NftMarketDataView {
    pub owner: Seq<u8>,
    pub price: Option<u32>,
    pub on_sale: bool,
}

impl NftMarketDataView {
    /// A record that is not for sale carries no price.
    pub open spec fn wf(self) -> bool {
        !self.on_sale ==> self.price is None
    }
}

impl View for NftMarketData {
    type V = NftMarketDataView;

    open spec fn view(&self) -> NftMarketDataView {
        NftMarketDataView { owner: self.owner@, price: self.price, on_sale: self.on_sale }
    }
}

impl DeepView for NftMarketData {
    type V = NftMarketDataView;

    open spec fn deep_view(&self) -> NftMarketDataView {
        self@
    }
}

impl Clone for NftMarketData {
    fn clone(&self) -> (copy: Self)
        ensures
            copy@ == self@,
    {
        NftMarketData { owner: self.owner.clone(), price: self.price, on_sale: self.on_sale }
    }
}

/// The key of a sale record: the registry and the token in it.
#[derive(Debug, PartialEq, Eq)]
pub struct OwnersDoubleKey {
    pub collection_id: Address,
    pub tkn_id: u64,
}

pub struct OwnersDoubleKeyView {
    pub collection_id: Seq<u8>,
    pub tkn_id: u64,
}

impl View for OwnersDoubleKey {
    type V = OwnersDoubleKeyView;

    open spec fn view(&self) -> OwnersDoubleKeyView {
        OwnersDoubleKeyView { collection_id: self.collection_id@, tkn_id: self.tkn_id }
    }
}

impl DeepView for OwnersDoubleKey {
    type V = OwnersDoubleKeyView;

    open spec fn deep_view(&self) -> OwnersDoubleKeyView {
        self@
    }
}

impl Clone for OwnersDoubleKey {
    fn clone(&self) -> (copy: Self)
        ensures
            copy@ == self@,
    {
        OwnersDoubleKey { collection_id: self.collection_id.clone(), tkn_id: self.tkn_id }
    }
}

/// A discount of `discount_percentage` percent that ends at `expire_date`.
#[derive(Debug, Clone, Copy, PartialEq, Eq, Structural)]
pub struct DiscountWindowArg {
    pub expire_date: u64,
    pub discount_percentage: u8,
}

impl DeepView for DiscountWindowArg {
    type V = DiscountWindowArg;

    open spec fn deep_view(&self) -> DiscountWindowArg {
        *self
    }
}

/// A request to create a collection.
#[derive(Debug, PartialEq, Eq)]
pub struct Arg {
    pub canister_arg: CanisterArg,
    pub nfts: Vec<NftMetadata>,
    pub expire_date: u64,
    pub discount_windows: Vec<DiscountWindowArg>,
}

pub struct ArgView {
    pub canister_arg: CanisterArgView,
    pub nfts: Seq<NftMetadataView>,
    pub expire_date: u64,
    pub discount_windows: Seq<DiscountWindowArg>,
}

impl View for Arg {
    type V = ArgView;

    open spec fn view(&self) -> ArgView {
        ArgView {
            canister_arg: self.canister_arg@,
            nfts: self.nfts.deep_view(),
            expire_date: self.expire_date,
            discount_windows: self.discount_windows@,
        }
    }
}

/// A request to a registry to mint one token.
#[derive(Debug, PartialEq, Eq)]
pub struct MintArg {
    pub to: Account,
    pub token_id: u128,
    pub memo: Option<Vec<u8>>,
    pub from_subaccount: Option<Vec<u8>>,
    pub token_description: Option<String>,
    pub token_logo: Option<String>,
    pub token_name: Option<String>,
    pub token_privilege_code: Option<u8>,
}

pub struct MintArgView {
    pub to: AccountView,
    pub token_id: u128,
    pub memo: Option<Seq<u8>>,
    pub from_subaccount: Option<Seq<u8>>,
    pub token_description: Option<Seq<char>>,
    pub token_logo: Option<Seq<char>>,
    pub token_name: Option<Seq<char>>,
    pub token_privilege_code: Option<u8>,
}

impl View for MintArg {
    type V = MintArgView;

    open spec fn view(&self) -> MintArgView {
        MintArgView {
            to: self.to@,
            token_id: self.token_id,
            memo: self.memo.deep_view(),
            from_subaccount: self.from_subaccount.deep_view(),
            token_description: self.token_description.deep_view(),
            token_logo: self.token_logo.deep_view(),
            token_name: self.token_name.deep_view(),
            token_privilege_code: self.token_privilege_code,
        }
    }
}

/// Why a registry refused to mint, or why a creation request failed.
#[derive(Debug, PartialEq, Eq)]
pub enum Errors {
    GenericError { message: String, error_code: u128 },
    SupplyCapReached,
    TokenIdMinimumLimit,
    Unauthorized,
    GenericBatchError { message: String, error_code: u128 },
    TokenIdAlreadyExist,
}

pub enum ErrorsView {
    GenericError { message: Seq<char>, error_code: u128 },
    SupplyCapReached,
    TokenIdMinimumLimit,
    Unauthorized,
    GenericBatchError { message: Seq<char>, error_code: u128 },
    TokenIdAlreadyExist,
}

impl View for Errors {
    type V = ErrorsView;

    open spec fn view(&self) -> ErrorsView {
        match *self {
            Errors::GenericError { message, error_code } => ErrorsView::GenericError {
                message: message@,
                error_code,
            },
            Errors::SupplyCapReached => ErrorsView::SupplyCapReached,
            Errors::TokenIdMinimumLimit => ErrorsView::TokenIdMinimumLimit,
            Errors::Unauthorized => ErrorsView::Unauthorized,
            Errors::GenericBatchError { message, error_code } => ErrorsView::GenericBatchError {
                message: message@,
                error_code,
            },
            Errors::TokenIdAlreadyExist => ErrorsView::TokenIdAlreadyExist,
        }
    }
}

impl DeepView for Errors {
    type V = ErrorsView;

    open spec fn deep_view(&self) -> ErrorsView {
        self@
    }
}

/// A collection as the marketplace persists it.
#[derive(Debug, PartialEq, Eq)]
pub struct CollectionInfo {
    pub owner: Address,
    pub expire_date: u64,
    pub discount_windows: Vec<DiscountWindowArg>,
    pub nfts: Vec<CollectionNfts>,
}

pub struct CollectionInfoView {
    pub owner: Seq<u8>,
    pub expire_date: u64,
    pub discount_windows: Seq<DiscountWindowArg>,
    pub nfts: Seq<CollectionNftsView>,
}

impl View for CollectionInfo {
    type V = CollectionInfoView;

    open spec fn view(&self) -> CollectionInfoView {
        CollectionInfoView {
            owner: self.owner@,
            expire_date: self.expire_date,
            discount_windows: self.discount_windows@,
            nfts: self.nfts.deep_view(),
        }
    }
}

impl DeepView for CollectionInfo {
    type V = CollectionInfoView;

    open spec fn deep_view(&self) -> CollectionInfoView {
        self@
    }
}

impl Clone for CollectionInfo {
    fn clone(&self) -> (copy: Self)
        ensures
            copy@ == self@,
    {
        let discount_windows = self.discount_windows.clone();
        let nfts = self.nfts.clone();
        assert(discount_windows@ =~= self.discount_windows@);
        assert(nfts.deep_view() =~= self.nfts.deep_view());
        CollectionInfo {
            owner: self.owner.clone(),
            expire_date: self.expire_date,
            discount_windows,
            nfts,
        }
    }
}

/// A collection as the listings report it: the persisted record, the
/// registry's address, and whether the collection is still active.
#[derive(Debug, PartialEq, Eq)]
pub struct CollectionFullInfo {
    pub owner: Address,
    pub canister_id: Address,
    pub expire_date: u64,
    pub discount_windows: Vec<DiscountWindowArg>,
    pub available: bool,
    pub nfts: Vec<CollectionNfts>,
}

pub struct CollectionFullInfoView {
    pub owner: Seq<u8>,
    pub canister_id: Seq<u8>,
    pub expire_date: u64,
    pub discount_windows: Seq<DiscountWindowArg>,
    pub available: bool,
    pub nfts: Seq<CollectionNftsView>,
}

impl View for CollectionFullInfo {
    type V = CollectionFullInfoView;

    open spec fn view(&self) -> CollectionFullInfoView {
        CollectionFullInfoView {
            owner: self.owner@,
            canister_id: self.canister_id@,
            expire_date: self.expire_date,
            discount_windows: self.discount_windows@,
            available: self.available,
            nfts: self.nfts.deep_view(),
        }
    }
}

impl DeepView for CollectionFullInfo {
    type V = CollectionFullInfoView;

    open spec fn deep_view(&self) -> CollectionFullInfoView {
        self@
    }
}

impl Clone for CollectionFullInfo {
    fn clone(&self) -> (copy: Self)
        ensures
            copy@ == self@,
    {
        let discount_windows = self.discount_windows.clone();
        let nfts = self.nfts.clone();
        assert(discount_windows@ =~= self.discount_windows@);
        assert(nfts.deep_view() =~= self.nfts.deep_view());
        CollectionFullInfo {
            owner: self.owner.clone(),
            canister_id: self.canister_id.clone(),
            expire_date: self.expire_date,
            discount_windows,
            available: self.available,
            nfts,
        }
    }
}

/// A request to buy one token: the token and the registry's address as text.
#[derive(Debug, PartialEq, Eq)]
pub struct TransferArgs {
    pub tkn_id: u128,
    pub collection_id: String,
}

pub struct TransferArgsView {
    pub tkn_id: u128,
    pub collection_id: Seq<char>,
}

impl View for TransferArgs {
    type V = TransferArgsView;

    open spec fn view(&self) -> TransferArgsView {
        TransferArgsView { tkn_id: self.tkn_id, collection_id: self.collection_id@ }
    }
}

/// Why a registry refused to transfer or burn a token.
#[derive(Debug, PartialEq, Eq)]
pub enum TransferError {
    NonExistingTokenId,
    InvalidRecipient,
    Unauthorized,
    TooOld,
    CreatedInFuture { ledger_time: u64 },
    Duplicate { duplicate_of: u128 },
    GenericError { error_code: u128, message: String },
    GenericBatchError { error_code: u128, message: String },
}

pub enum TransferErrorView {
    NonExistingTokenId,
    InvalidRecipient,
    Unauthorized,
    TooOld,
    CreatedInFuture { ledger_time: u64 },
    Duplicate { duplicate_of: u128 },
    GenericError { error_code: u128, message: Seq<char> },
    GenericBatchError { error_code: u128, message: Seq<char> },
}

impl View for TransferError {
    type V = TransferErrorView;

    open spec fn view(&self) -> TransferErrorView {
        match *self {
            TransferError::NonExistingTokenId => TransferErrorView::NonExistingTokenId,
            TransferError::InvalidRecipient => TransferErrorView::InvalidRecipient,
            TransferError::Unauthorized => TransferErrorView::Unauthorized,
            TransferError::TooOld => TransferErrorView::TooOld,
            TransferError::CreatedInFuture { ledger_time } => TransferErrorView::CreatedInFuture {
                ledger_time,
            },
            TransferError::Duplicate { duplicate_of } => TransferErrorView::Duplicate {
                duplicate_of,
            },
            TransferError::GenericError { error_code, message } => TransferErrorView::GenericError {
                error_code,
                message: message@,
            },
            TransferError::GenericBatchError {
                error_code,
                message,
            } => TransferErrorView::GenericBatchError { error_code, message: message@ },
        }
    }
}

impl DeepView for TransferError {
    type V = TransferErrorView;

    open spec fn deep_view(&self) -> TransferErrorView {
        self@
    }
}

impl Clone for TransferError {
    fn clone(&self) -> (copy: Self)
        ensures
            copy@ == self@,
    {
        match self {
            TransferError::NonExistingTokenId => TransferError::NonExistingTokenId,
            TransferError::InvalidRecipient => TransferError::InvalidRecipient,
            TransferError::Unauthorized => TransferError::Unauthorized,
            TransferError::TooOld => TransferError::TooOld,
            TransferError::CreatedInFuture { ledger_time } => TransferError::CreatedInFuture {
                ledger_time: *ledger_time,
            },
            TransferError::Duplicate { duplicate_of } => TransferError::Duplicate {
                duplicate_of: *duplicate_of,
            },
            TransferError::GenericError { error_code, message } => TransferError::GenericError {
                error_code: *error_code,
                message: message.clone(),
            },
            TransferError::GenericBatchError {
                error_code,
                message,
            } => TransferError::GenericBatchError {
                error_code: *error_code,
                message: message.clone(),
            },
        }
    }
}

/// A request to a registry to hand one token to `to`.
#[derive(Debug, PartialEq, Eq)]
pub struct IcrcTransferArg {
    pub from_subaccount: Option<[u8; 32]>,
    pub to: Account,
    pub token_id: u128,
    pub memo: Option<Vec<u8>>,
    pub created_at_time: Option<u64>,
}

pub struct IcrcTransferArgView {
    pub from_subaccount: Option<Seq<u8>>,
    pub to: AccountView,
    pub token_id: u128,
    pub memo: Option<Seq<u8>>,
    pub created_at_time: Option<u64>,
}

impl View for IcrcTransferArg {
    type V = IcrcTransferArgView;

    open spec fn view(&self) -> IcrcTransferArgView {
        IcrcTransferArgView {
            from_subaccount: subaccount_view(self.from_subaccount),
            to: self.to@,
            token_id: self.token_id,
            memo: self.memo.deep_view(),
            created_at_time: self.created_at_time,
        }
    }
}

impl DeepView for IcrcTransferArg {
    type V = IcrcTransferArgView;

    open spec fn deep_view(&self) -> IcrcTransferArgView {
        self@
    }
}

/// Why a purchase stopped.
#[derive(Debug, PartialEq, Eq)]
pub enum PurchaseError {
    /// The text given for an address is not the textual form of any.
    InvalidAddress,
    /// The marketplace has no sale record of the token.
    NotFound,
    /// The token is not for sale.
    NotOnSale,
    /// The token is for sale but its record carries no price.
    PriceMissing,
    /// The marketplace has no record of the token's collection.
    CollectionNotFound,
    /// The creator still holds the token and the collection has expired.
    CollectionExpired,
    /// Another purchase of the token is under way.
    Reserved,
    /// The buyer's balance does not cover the price and the fee.
    InsufficientBalance,
    /// The payment ledger could not be reached.
    LedgerUnreachable { message: String },
    /// The payment ledger refused the payment.
    PaymentRefused { message: String },
    /// The registry could not be reached after the payment was made.
    RegistryUnreachable { message: String },
    /// The registry refused to hand over the token after the payment was
    /// made.
    TransferRefused { error: TransferError },
}

pub enum PurchaseErrorView {
    InvalidAddress,
    NotFound,
    NotOnSale,
    PriceMissing,
    CollectionNotFound,
    CollectionExpired,
    Reserved,
    InsufficientBalance,
    LedgerUnreachable { message: Seq<char> },
    PaymentRefused { message: Seq<char> },
    RegistryUnreachable { message: Seq<char> },
    TransferRefused { error: TransferErrorView },
}

impl View for PurchaseError {
    type V = PurchaseErrorView;

    open spec fn view(&self) -> PurchaseErrorView {
        match *self {
            PurchaseError::InvalidAddress => PurchaseErrorView::InvalidAddress,
            PurchaseError::NotFound => PurchaseErrorView::NotFound,
            PurchaseError::NotOnSale => PurchaseErrorView::NotOnSale,
            PurchaseError::PriceMissing => PurchaseErrorView::PriceMissing,
            PurchaseError::CollectionNotFound => PurchaseErrorView::CollectionNotFound,
            PurchaseError::CollectionExpired => PurchaseErrorView::CollectionExpired,
            PurchaseError::Reserved => PurchaseErrorView::Reserved,
            PurchaseError::InsufficientBalance => PurchaseErrorView::InsufficientBalance,
            PurchaseError::LedgerUnreachable { message } => PurchaseErrorView::LedgerUnreachable {
                message: message@,
            },
            PurchaseError::PaymentRefused { message } => PurchaseErrorView::PaymentRefused {
                message: message@,
            },
            PurchaseError::RegistryUnreachable {
                message,
            } => PurchaseErrorView::RegistryUnreachable { message: message@ },
            PurchaseError::TransferRefused { error } => PurchaseErrorView::TransferRefused {
                error: error@,
            },
        }
    }
}

impl DeepView for PurchaseError {
    type V = PurchaseErrorView;

    open spec fn deep_view(&self) -> PurchaseErrorView {
        self@
    }
}

/// The name of a refusal to transfer or burn.
pub open spec fn transfer_error_name(error: TransferErrorView) -> Seq<char> {
    match error {
        TransferErrorView::NonExistingTokenId => ("NonExistingTokenId")@,
        TransferErrorView::InvalidRecipient => ("InvalidRecipient")@,
        TransferErrorView::Unauthorized => ("Unauthorized")@,
        TransferErrorView::TooOld => ("TooOld")@,
        TransferErrorView::CreatedInFuture { .. } => ("CreatedInFuture")@,
        TransferErrorView::Duplicate { .. } => ("Duplicate")@,
        TransferErrorView::GenericError { .. } => ("GenericError")@,
        TransferErrorView::GenericBatchError { .. } => ("GenericBatchError")@,
    }
}

impl TransferError {
    /// The name of this refusal.
    pub fn name(&self) -> (name: String)
        ensures
            name@ == transfer_error_name(self@),
    {
        match self {
            TransferError::NonExistingTokenId => "NonExistingTokenId".to_owned(),
            TransferError::InvalidRecipient => "InvalidRecipient".to_owned(),
            TransferError::Unauthorized => "Unauthorized".to_owned(),
            TransferError::TooOld => "TooOld".to_owned(),
            TransferError::CreatedInFuture { .. } => "CreatedInFuture".to_owned(),
            TransferError::Duplicate { .. } => "Duplicate".to_owned(),
            TransferError::GenericError { .. } => "GenericError".to_owned(),
            TransferError::GenericBatchError { .. } => "GenericBatchError".to_owned(),
        }
    }
}

/// The text that reports why a purchase stopped.
pub open spec fn purchase_failure(error: PurchaseErrorView) -> Seq<char> {
    match error {
        PurchaseErrorView::InvalidAddress => ("unable to parse string to principal")@,
        PurchaseErrorView::NotFound => ("Nft does not exists")@,
        PurchaseErrorView::NotOnSale => ("NFT not on sale")@,
        PurchaseErrorView::PriceMissing => ("NFT price not present")@,
        PurchaseErrorView::CollectionNotFound => ("collection does not exists")@,
        PurchaseErrorView::CollectionExpired => ("collection Expired")@,
        PurchaseErrorView::Reserved => ("NFT is being purchased")@,
        PurchaseErrorView::InsufficientBalance => ("Low balance")@,
        PurchaseErrorView::LedgerUnreachable { message } => ("failed to call ledger: ")@ + message,
        PurchaseErrorView::PaymentRefused { message } => ("Error in transfering tokens: ")@
            + message,
        PurchaseErrorView::RegistryUnreachable { message } => ("failed to call ledger: ")@
            + message,
        PurchaseErrorView::TransferRefused { error } => ("Error in transfering NFT ")@
            + transfer_error_name(error),
    }
}

impl PurchaseError {
    /// The text that reports this error.
    pub fn describe(&self) -> (text: String)
        ensures
            text@ == purchase_failure(self@),
    {
        match self {
            PurchaseError::InvalidAddress => "unable to parse string to principal".to_owned(),
            PurchaseError::NotFound => "Nft does not exists".to_owned(),
            PurchaseError::NotOnSale => "NFT not on sale".to_owned(),
            PurchaseError::PriceMissing => "NFT price not present".to_owned(),
            PurchaseError::CollectionNotFound => "collection does not exists".to_owned(),
            PurchaseError::CollectionExpired => "collection Expired".to_owned(),
            PurchaseError::Reserved => "NFT is being purchased".to_owned(),
            PurchaseError::InsufficientBalance => "Low balance".to_owned(),
            PurchaseError::LedgerUnreachable { message } => "failed to call ledger: ".to_owned().concat(
                message.as_str(),
            ),
            PurchaseError::PaymentRefused {
                message,
            } => "Error in transfering tokens: ".to_owned().concat(message.as_str()),
            PurchaseError::RegistryUnreachable {
                message,
            } => "failed to call ledger: ".to_owned().concat(message.as_str()),
            PurchaseError::TransferRefused { error } => "Error in transfering NFT ".to_owned().concat(
                error.name().as_str(),
            ),
        }
    }
}

} // verus!
