//! Creating a collection: the request is checked, a registry is provisioned,
//! and the tokens are minted one by one, each with the next token id.
//!
//! The remote calls are made by the caller of this module. Each function
//! here takes the outcome of one call and says which call comes next.

use crate::address::{principal_of_text, principal_text, Address};
use crate::factory::{provision_failure, ProvisionError};
use crate::market::{insert_collection_record, insert_nft_record, stored_sale, Marketplace};
use crate::record::storable;
use crate::entries::put;
use crate::store::{collection_key_order, sale_key_order};
use crate::types::{
    principal_account, Account, Arg, ArgView, CanisterArg, CollectionInfo, CollectionInfoView,
    CollectionNfts, CollectionNftsView, DiscountWindowArg, Errors, ErrorsView, MintArg,
    MintArgView, NftMetadata, NftMetadataView,
};
use vstd::prelude::*;

verus! {

/// The number of tokens that a list of kinds asks for.
pub open spec fn total_quantity(kinds: Seq<NftMetadataView>) -> nat
    decreases kinds.len(),
{
    if kinds.len() == 0 {
        0
    } else {
        total_quantity(kinds.drop_last()) + kinds.last().quantity as nat
    }
}

/// Whether every discount window ends after `now` and before the collection
/// does.
pub open spec fn windows_within(
    windows: Seq<DiscountWindowArg>,
    now: u64,
    expire_date: u64,
) -> bool {
    forall|i: int|
        0 <= i < windows.len() ==> now < (#[trigger] windows[i]).expire_date < expire_date
}

/// Why a creation request is turned down before anything is done.
#[derive(Debug, Clone, Copy, PartialEq, Eq, Structural)]
pub enum Rejection {
    /// The collection would expire at once.
    ExpiryPassed,
    /// A discount window ends too early or too late.
    WindowOutOfRange,
    /// The request asks for more tokens than there are token ids.
    TooManyTokens,
    /// The quantities do not add up to the supply cap.
    SupplyMismatch,
}

/// The reason for which a creation request is turned down at time `now`,
/// or `None` where it is accepted.
pub open spec fn rejection(arg: ArgView, now: u64) -> Option<Rejection> {
    if arg.expire_date <= now {
        Some(Rejection::ExpiryPassed)
    } else if !windows_within(arg.discount_windows, now, arg.expire_date) {
        Some(Rejection::WindowOutOfRange)
    } else if total_quantity(arg.nfts) > u64::MAX {
        Some(Rejection::TooManyTokens)
    } else if total_quantity(arg.nfts) != arg.canister_arg.icrc7_supply_cap {
        Some(Rejection::SupplyMismatch)
    } else {
        None
    }
}

/// The error that reports a rejection.
pub open spec fn rejection_error(reason: Rejection) -> ErrorsView {
    ErrorsView::GenericError {
        message: match reason {
            Rejection::ExpiryPassed => ("Error: Expiration date cannot be in the past")@,
            Rejection::WindowOutOfRange => (
                "Error: discount windows date cannot be in the past or it cannot be after the expire date"
            )@,
            Rejection::TooManyTokens => ("number of NFTs to create exceeds the range of token ids")@,
            Rejection::SupplyMismatch => ("number of NFTs to create does not match the supply cap")@,
        },
        error_code: 400,
    }
}

/// The error that reports a failed provisioning.
pub open spec fn provisioning_error(message: Seq<char>) -> ErrorsView {
    ErrorsView::GenericError { message, error_code: 400 }
}

/// The error that reports a registry address that cannot be read.
pub open spec fn unreadable_registry() -> ErrorsView {
    ErrorsView::GenericError {
        message: ("unable to tranform string to Principal")@,
        error_code: 400,
    }
}

/// The error that reports that the finished collection could not be
/// stored.
pub open spec fn storage_error() -> ErrorsView {
    ErrorsView::GenericError {
        message: ("collection record cannot be stored")@,
        error_code: 500,
    }
}

/// A prefix of a list of kinds asks for no more tokens than the list.
pub proof fn lemma_total_monotonic(kinds: Seq<NftMetadataView>, i: int, j: int)
    requires
        0 <= i <= j <= kinds.len(),
    ensures
        total_quantity(kinds.take(i)) <= total_quantity(kinds.take(j)),
    decreases j - i,
{
    if i < j {
        lemma_total_monotonic(kinds, i, j - 1);
        lemma_total_step(kinds, j - 1);
    }
}

/// One more kind adds its quantity.
pub proof fn lemma_total_step(kinds: Seq<NftMetadataView>, k: int)
    requires
        0 <= k < kinds.len(),
    ensures
        total_quantity(kinds.take(k + 1)) == total_quantity(kinds.take(k)) + kinds[k].quantity,
{
    assert(kinds.take(k + 1).drop_last() =~= kinds.take(k));
}

/// The id of the first token of kind `k`.
pub open spec fn first_id(kinds: Seq<NftMetadataView>, k: int) -> nat {
    total_quantity(kinds.take(k)) + 1
}

/// The token ids of kind `k`: as many as its quantity, one after the other,
/// after those of the kinds in front of it.
pub open spec fn ids_of_kind(kinds: Seq<NftMetadataView>, k: int) -> Seq<u64> {
    Seq::new(kinds[k].quantity as nat, |i: int| (first_id(kinds, k) + i) as u64)
}

/// The first `upto` kinds, each with its token ids.
pub open spec fn minted_kinds(kinds: Seq<NftMetadataView>, upto: int) -> Seq<CollectionNftsView> {
    Seq::new(
        upto as nat,
        |k: int| CollectionNftsView { nft: kinds[k], tkn_ids: ids_of_kind(kinds, k) },
    )
}

/// The kind of the token that is minted after `minted` others.
pub open spec fn kind_of(kinds: Seq<NftMetadataView>, minted: nat) -> int
    decreases kinds.len(),
{
    if kinds.len() == 0 {
        0
    } else if minted >= total_quantity(kinds.drop_last()) {
        kinds.len() - 1
    } else {
        kind_of(kinds.drop_last(), minted)
    }
}

/// The token that is minted after `minted` others belongs to the kind in
/// whose range of ids it falls.
pub proof fn lemma_kind_of(kinds: Seq<NftMetadataView>, minted: nat, k: int)
    requires
        0 <= k < kinds.len(),
        total_quantity(kinds.take(k)) <= minted < total_quantity(kinds.take(k + 1)),
    ensures
        kind_of(kinds, minted) == k,
    decreases kinds.len(),
{
    let front = kinds.drop_last();
    assert(front =~= kinds.take(kinds.len() - 1));
    if minted >= total_quantity(front) {
        if k < kinds.len() - 1 {
            lemma_total_monotonic(kinds, k + 1, kinds.len() - 1);
        }
    } else {
        assert(k < kinds.len() - 1);
        assert(front.take(k) =~= kinds.take(k));
        assert(front.take(k + 1) =~= kinds.take(k + 1));
        lemma_kind_of(front, minted, k);
    }
}

/// A creation under way, as the proofs see it: who creates what, in which
/// registry, and how many tokens have been minted.
pub struct CreationView {
    pub creator: Seq<u8>,
    pub registry: Seq<u8>,
    pub expire_date: u64,
    pub discount_windows: Seq<DiscountWindowArg>,
    pub kinds: Seq<NftMetadataView>,
    pub minted: nat,
}

impl CreationView {
    /// The collection record that is written once every token is minted.
    pub open spec fn record(self) -> CollectionInfoView {
        CollectionInfoView {
            owner: self.creator,
            expire_date: self.expire_date,
            discount_windows: self.discount_windows,
            nfts: minted_kinds(self.kinds, self.kinds.len() as int),
        }
    }

    /// The id of the token that is minted next.
    pub open spec fn next_id(self) -> nat {
        self.minted + 1
    }

    /// The kind of the token that is minted next.
    pub open spec fn next_kind(self) -> NftMetadataView {
        self.kinds[kind_of(self.kinds, self.minted)]
    }

    /// The request that mints the next token: to the creator, with the next
    /// id and what its kind says of it.
    pub open spec fn request(self) -> MintArgView {
        MintArgView {
            to: principal_account(self.creator),
            token_id: self.next_id() as u128,
            memo: None,
            from_subaccount: None,
            token_description: Some(self.next_kind().token_description),
            token_logo: Some(self.next_kind().token_logo),
            token_name: Some(self.next_kind().token_name),
            token_privilege_code: Some(self.next_kind().token_privilege_code),
        }
    }

    /// The same creation with one more token minted.
    pub open spec fn advanced(self) -> CreationView {
        CreationView { minted: self.minted + 1, ..self }
    }
}

/// A creation whose request was accepted and whose registry is yet to be
/// provisioned.
pub struct Provisioning {
    creator: Address,
    expire_date: u64,
    discount_windows: Vec<DiscountWindowArg>,
    kinds: Vec<NftMetadata>,
}

/// A creation that waits for the outcome of one mint request.
pub struct Minting {
    creator: Address,
    registry: Address,
    expire_date: u64,
    discount_windows: Vec<DiscountWindowArg>,
    kinds: Vec<NftMetadata>,
    kind: usize,
    ids: Vec<u64>,
    done: Vec<CollectionNfts>,
    minted: u64,
}

/// What a creation does next.
pub enum CreationStep {
    /// Send the mint request of this state to the registry.
    Mint(Minting),
    /// The collection stands; this is its registry's address as text.
    Created(String),
    /// The creation has stopped. What was provisioned and minted stays.
    Failed(Errors),
}

pub enum CreationStepView {
    Mint(CreationView),
    Created(Seq<char>),
    Failed(ErrorsView),
}

impl View for CreationStep {
    type V = CreationStepView;

    open spec fn view(&self) -> CreationStepView {
        match *self {
            CreationStep::Mint(state) => CreationStepView::Mint(state@),
            CreationStep::Created(text) => CreationStepView::Created(text@),
            CreationStep::Failed(error) => CreationStepView::Failed(error@),
        }
    }
}

/// How a creation goes on once `creation.minted` tokens are minted: with the
/// next mint request while tokens are left; else the collection record is
/// written into the marketplace `before`, which gives `after`, and is from
/// then on the record of the registry.
pub open spec fn proceeds(
    creation: CreationView,
    before: Marketplace,
    after: Marketplace,
    step: CreationStepView,
) -> bool {
    if creation.minted < total_quantity(creation.kinds) {
        &&& step == CreationStepView::Mint(creation)
        &&& after.collection_entries() == before.collection_entries()
    } else {
        match storable(creation.record()) {
            Some(text) => {
                &&& step == CreationStepView::Created(principal_text(creation.registry))
                &&& after.collection_entries() == put(
                    before.collection_entries(),
                    collection_key_order(),
                    creation.registry,
                    text,
                )
                &&& after.collection(creation.registry) == Some(creation.record())
            },
            None => {
                &&& step == CreationStepView::Failed(storage_error())
                &&& after.collection_entries() == before.collection_entries()
            },
        }
    }
}

impl Rejection {
    /// The error that reports this rejection.
    pub fn into_error(self) -> (error: Errors)
        ensures
            error@ == rejection_error(self),
    {
        let message = match self {
            Rejection::ExpiryPassed => "Error: Expiration date cannot be in the past",
            Rejection::WindowOutOfRange => "Error: discount windows date cannot be in the past or it cannot be after the expire date",
            Rejection::TooManyTokens => "number of NFTs to create exceeds the range of token ids",
            Rejection::SupplyMismatch => "number of NFTs to create does not match the supply cap",
        };
        Errors::GenericError { message: message.to_owned(), error_code: 400 }
    }
}

/// Adds up the quantities; `None` where the sum is no token id.
pub fn count_tokens(kinds: &Vec<NftMetadata>) -> (total: Option<u64>)
    ensures
        match total {
            Some(t) => t == total_quantity(kinds.deep_view()),
            None => total_quantity(kinds.deep_view()) > u64::MAX,
        },
{
    let mut sum: u64 = 0;
    let mut i: usize = 0;
    assert(kinds.deep_view().take(0) =~= Seq::<NftMetadataView>::empty());
    while i < kinds.len()
        invariant
            i <= kinds.len(),
            sum == total_quantity(kinds.deep_view().take(i as int)),
        decreases kinds.len() - i,
    {
        proof {
            lemma_total_step(kinds.deep_view(), i as int);
        }
        match sum.checked_add(kinds[i].quantity) {
            Some(more) => {
                sum = more;
            },
            None => {
                proof {
                    lemma_total_monotonic(kinds.deep_view(), i as int + 1, kinds.len() as int);
                    assert(kinds.deep_view().take(kinds.len() as int) =~= kinds.deep_view());
                }
                return None;
            },
        }
        i += 1;
    }
    assert(kinds.deep_view().take(kinds.len() as int) =~= kinds.deep_view());
    Some(sum)
}

/// Whether every discount window ends after `now` and before the collection
/// does.
pub fn check_windows(windows: &Vec<DiscountWindowArg>, now: u64, expire_date: u64) -> (ok: bool)
    ensures
        ok == windows_within(windows@, now, expire_date),
{
    let mut i: usize = 0;
    while i < windows.len()
        invariant
            i <= windows.len(),
            forall|j: int| 0 <= j < i ==> now < (#[trigger] windows@[j]).expire_date < expire_date,
        decreases windows.len() - i,
    {
        if windows[i].expire_date >= expire_date || windows[i].expire_date <= now {
            return false;
        }
        i += 1;
    }
    true
}

/// Checks a creation request at time `now`.
pub fn validate(arg: &Arg, now: u64) -> (reason: Option<Rejection>)
    ensures
        reason == rejection(arg@, now),
{
    if arg.expire_date <= now {
        return Some(Rejection::ExpiryPassed);
    }
    if !check_windows(&arg.discount_windows, now, arg.expire_date) {
        return Some(Rejection::WindowOutOfRange);
    }
    match count_tokens(&arg.nfts) {
        None => Some(Rejection::TooManyTokens),
        Some(total) => {
            if total as u128 != arg.canister_arg.icrc7_supply_cap {
                Some(Rejection::SupplyMismatch)
            } else {
                None
            }
        },
    }
}

/// Begins the creation of a collection for `caller` at time `now`.
///
/// A request that [`rejection`] turns down fails here, before any registry
/// is provisioned. An accepted request gives the creation and the
/// configuration with which its registry is to be provisioned for `caller`.
pub fn create_collection_nfts(arg: Arg, caller: Address, now: u64) -> (begun: Result<
    (Provisioning, CanisterArg),
    Errors,
>)
    ensures
        match rejection(arg@, now) {
            Some(reason) => begun matches Err(error) && error@ == rejection_error(reason),
            None => begun matches Ok((creation, config)) && config@ == arg@.canister_arg
                && creation.creator() == caller@ && creation.expire_date() == arg.expire_date
                && creation.discount_windows() == arg.discount_windows@ && creation.kinds()
                == arg@.nfts,
        },
{
    match validate(&arg, now) {
        Some(reason) => Err(reason.into_error()),
        None => Ok(
            (
                Provisioning {
                    creator: caller,
                    expire_date: arg.expire_date,
                    discount_windows: arg.discount_windows,
                    kinds: arg.nfts,
                },
                arg.canister_arg,
            ),
        ),
    }
}

impl Provisioning {
    #[verifier::type_invariant]
    spec fn countable(self) -> bool {
        total_quantity(self.kinds.deep_view()) <= u64::MAX
    }

    /// Who creates the collection.
    pub closed spec fn creator(&self) -> Seq<u8> {
        self.creator@
    }

    /// When the collection expires.
    pub closed spec fn expire_date(&self) -> u64 {
        self.expire_date
    }

    /// The discount windows of the collection.
    pub closed spec fn discount_windows(&self) -> Seq<DiscountWindowArg> {
        self.discount_windows@
    }

    /// The kinds of token of the collection.
    pub closed spec fn kinds(&self) -> Seq<NftMetadataView> {
        self.kinds.deep_view()
    }

    /// The creation in the registry `registry`, before any token is minted.
    pub open spec fn started(&self, registry: Seq<u8>) -> CreationView {
        CreationView {
            creator: self.creator(),
            registry,
            expire_date: self.expire_date(),
            discount_windows: self.discount_windows(),
            kinds: self.kinds(),
            minted: 0,
        }
    }

    /// Goes on in the registry that was provisioned: as [`proceeds`] says,
    /// with no token minted yet. The sale index is left as it is.
    pub fn begin_minting(self, market: &mut Marketplace, registry: Address) -> (step: CreationStep)
        ensures
            final(market).sale_entries() == old(market).sale_entries(),
            final(market).pending_entries() == old(market).pending_entries(),
            proceeds(self.started(registry@), *old(market), *final(market), step@),
    {
        proof {
            use_type_invariant(&self);
        }
        assert(self.kinds.deep_view().take(0) =~= Seq::<NftMetadataView>::empty());
        assert(minted_kinds(self.kinds.deep_view(), 0) =~= Seq::<CollectionNftsView>::empty());
        let done: Vec<CollectionNfts> = Vec::new();
        assert(done.deep_view() =~= Seq::<CollectionNftsView>::empty());
        settle(
            self.creator,
            registry,
            self.expire_date,
            self.discount_windows,
            self.kinds,
            0,
            done,
            0,
            market,
        )
    }

    /// Takes the outcome of the provisioning: the new registry's address as
    /// text, or the factory's error.
    ///
    /// An error stops the creation with the factory's report, and so does a
    /// text that names no address. Else the creation goes on as
    /// [`Provisioning::begin_minting`] says.
    pub fn provisioned(self, market: &mut Marketplace, outcome: Result<String, ProvisionError>) -> (step:
        CreationStep)
        ensures
            final(market).sale_entries() == old(market).sale_entries(),
            final(market).pending_entries() == old(market).pending_entries(),
            match outcome {
                Ok(text) => match principal_of_text(text@) {
                    Some(registry) => proceeds(
                        self.started(registry),
                        *old(market),
                        *final(market),
                        step@,
                    ),
                    None => {
                        &&& step@ == CreationStepView::Failed(unreadable_registry())
                        &&& final(market).collection_entries() == old(market).collection_entries()
                    },
                },
                Err(error) => {
                    &&& step@ == CreationStepView::Failed(
                        provisioning_error(provision_failure(error@)),
                    )
                    &&& final(market).collection_entries() == old(market).collection_entries()
                },
            },
    {
        match outcome {
            Err(error) => CreationStep::Failed(
                Errors::GenericError { message: error.describe(), error_code: 400 },
            ),
            Ok(text) => match Address::from_text(text.as_str()) {
                Some(registry) => self.begin_minting(market, registry),
                None => CreationStep::Failed(
                    Errors::GenericError {
                        message: "unable to tranform string to Principal".to_owned(),
                        error_code: 400,
                    },
                ),
            },
        }
    }
}

/// Goes on with a creation at the start of kind `kind`: passes over the
/// kinds of which no token is wanted, then asks for the next token or, where
/// none is left, writes the collection record.
fn settle(
    creator: Address,
    registry: Address,
    expire_date: u64,
    discount_windows: Vec<DiscountWindowArg>,
    kinds: Vec<NftMetadata>,
    kind: usize,
    done: Vec<CollectionNfts>,
    minted: u64,
    market: &mut Marketplace,
) -> (step: CreationStep)
    requires
        kind <= kinds.len(),
        total_quantity(kinds.deep_view()) <= u64::MAX,
        done.deep_view() == minted_kinds(kinds.deep_view(), kind as int),
        minted == total_quantity(kinds.deep_view().take(kind as int)),
    ensures
        final(market).sale_entries() == old(market).sale_entries(),
        final(market).pending_entries() == old(market).pending_entries(),
        proceeds(
            CreationView {
                creator: creator@,
                registry: registry@,
                expire_date,
                discount_windows: discount_windows@,
                kinds: kinds.deep_view(),
                minted: minted as nat,
            },
            *old(market),
            *final(market),
            step@,
        ),
{
    let ghost all = kinds.deep_view();
    let mut kind = kind;
    let mut done = done;
    while kind < kinds.len() && kinds[kind].quantity == 0
        invariant
            kind <= kinds.len(),
            all == kinds.deep_view(),
            done.deep_view() == minted_kinds(all, kind as int),
            minted == total_quantity(all.take(kind as int)),
        decreases kinds.len() - kind,
    {
        proof {
            lemma_total_step(all, kind as int);
        }
        let ghost before = done.deep_view();
        let empty: Vec<u64> = Vec::new();
        let entry = CollectionNfts { nft: kinds[kind].clone(), tkn_ids: empty };
        assert(entry@.tkn_ids =~= ids_of_kind(all, kind as int));
        done.push(entry);
        assert(done.deep_view() =~= before.push(entry@));
        kind += 1;
        assert(done.deep_view() =~= minted_kinds(all, kind as int));
    }
    if kind == kinds.len() {
        proof {
            assert(all.take(kind as int) =~= all);
        }
        let record = CollectionInfo { owner: creator, expire_date, discount_windows, nfts: done };
        if insert_collection_record(market, &registry, &record) {
            CreationStep::Created(registry.to_text())
        } else {
            CreationStep::Failed(
                Errors::GenericError {
                    message: "collection record cannot be stored".to_owned(),
                    error_code: 500,
                },
            )
        }
    } else {
        proof {
            lemma_total_step(all, kind as int);
            lemma_total_monotonic(all, kind as int + 1, all.len() as int);
            assert(all.take(all.len() as int) =~= all);
        }
        let ids: Vec<u64> = Vec::new();
        assert(ids@ =~= ids_of_kind(all, kind as int).take(0));
        CreationStep::Mint(
            Minting {
                creator,
                registry,
                expire_date,
                discount_windows,
                kinds,
                kind,
                ids,
                done,
                minted,
            },
        )
    }
}

impl View for Minting {
    type V = CreationView;

    closed spec fn view(&self) -> CreationView {
        CreationView {
            creator: self.creator@,
            registry: self.registry@,
            expire_date: self.expire_date,
            discount_windows: self.discount_windows@,
            kinds: self.kinds.deep_view(),
            minted: self.minted as nat,
        }
    }
}

impl Minting {
    #[verifier::type_invariant]
    spec fn consistent(self) -> bool {
        let kinds = self.kinds.deep_view();
        &&& total_quantity(kinds) <= u64::MAX
        &&& self.kind < self.kinds.len()
        &&& self.done.deep_view() == minted_kinds(kinds, self.kind as int)
        &&& self.ids@.len() < kinds[self.kind as int].quantity
        &&& self.ids@ == ids_of_kind(kinds, self.kind as int).take(self.ids@.len() as int)
        &&& self.minted == total_quantity(kinds.take(self.kind as int)) + self.ids@.len()
    }

    /// The registry that mints the tokens.
    pub fn registry(&self) -> (registry: Address)
        ensures
            registry@ == self@.registry,
    {
        self.registry.clone()
    }

    /// The creator, in whose name the tokens are minted.
    pub fn creator(&self) -> (creator: Address)
        ensures
            creator@ == self@.creator,
    {
        self.creator.clone()
    }

    /// The mint request to send: a token is left to mint, and the request
    /// asks for it under the next id.
    pub fn request(&self) -> (arg: MintArg)
        ensures
            self@.minted < total_quantity(self@.kinds),
            total_quantity(self@.kinds) <= u64::MAX,
            arg@ == self@.request(),
    {
        proof {
            use_type_invariant(self);
            self.lemma_position();
        }
        let kind = &self.kinds[self.kind];
        MintArg {
            to: Account::of(self.creator.clone()),
            token_id: (self.minted + 1) as u128,
            memo: None,
            from_subaccount: None,
            token_description: Some(kind.token_description.clone()),
            token_logo: Some(kind.token_logo.clone()),
            token_name: Some(kind.token_name.clone()),
            token_privilege_code: Some(kind.token_privilege_code),
        }
    }

    proof fn lemma_position(&self)
        requires
            self.consistent(),
        ensures
            kind_of(self@.kinds, self@.minted) == self.kind,
            self@.minted < total_quantity(self@.kinds),
    {
        let kinds = self.kinds.deep_view();
        lemma_total_step(kinds, self.kind as int);
        lemma_total_monotonic(kinds, self.kind as int + 1, kinds.len() as int);
        assert(kinds.take(kinds.len() as int) =~= kinds);
        lemma_kind_of(kinds, self.minted as nat, self.kind as int);
    }

    /// Takes the outcome of the mint request.
    ///
    /// A refusal stops the creation with the registry's error, and nothing
    /// is written. After a mint the token's sale record is written: the
    /// creator sells it, at its kind's price; then the creation goes on as
    /// [`proceeds`] says, with one more token minted.
    pub fn minted(self, market: &mut Marketplace, outcome: Result<u128, Errors>) -> (step:
        CreationStep)
        ensures
            old(market).sales_well_formed() ==> final(market).sales_well_formed(),
            final(market).pending_entries() == old(market).pending_entries(),
            match outcome {
                Ok(_) => {
                    &&& final(market).sale_entries() == put(
                        old(market).sale_entries(),
                        sale_key_order(),
                        (self@.registry, self@.next_id() as u64),
                        stored_sale(self@.creator, Some(self@.next_kind().price), true),
                    )
                    &&& proceeds(self@.advanced(), *old(market), *final(market), step@)
                },
                Err(error) => {
                    &&& step@ == CreationStepView::Failed(error@)
                    &&& final(market).sale_entries() == old(market).sale_entries()
                    &&& final(market).collection_entries() == old(market).collection_entries()
                },
            },
    {
        proof {
            use_type_invariant(&self);
            self.lemma_position();
        }
        match outcome {
            Err(error) => CreationStep::Failed(error),
            Ok(_) => {
                let ghost all = self.kinds.deep_view();
                let ghost given = self.ids@.len() as int;
                let id = self.minted + 1;
                let quantity = self.kinds[self.kind].quantity;
                insert_nft_record(
                    market,
                    &self.registry,
                    id,
                    &self.creator,
                    Some(self.kinds[self.kind].price),
                    true,
                );
                let mut ids = self.ids;
                ids.push(id);
                assert(ids@ =~= ids_of_kind(all, self.kind as int).take(given + 1));
                if (ids.len() as u64) < quantity {
                    proof {
                        lemma_total_step(all, self.kind as int);
                        lemma_total_monotonic(all, self.kind as int + 1, all.len() as int);
                        assert(all.take(all.len() as int) =~= all);
                    }
                    CreationStep::Mint(
                        Minting {
                            creator: self.creator,
                            registry: self.registry,
                            expire_date: self.expire_date,
                            discount_windows: self.discount_windows,
                            kinds: self.kinds,
                            kind: self.kind,
                            ids,
                            done: self.done,
                            minted: id,
                        },
                    )
                } else {
                    proof {
                        lemma_total_step(all, self.kind as int);
                        assert(ids@ =~= ids_of_kind(all, self.kind as int));
                    }
                    let ghost before = self.done.deep_view();
                    let entry = CollectionNfts { nft: self.kinds[self.kind].clone(), tkn_ids: ids };
                    let mut done = self.done;
                    done.push(entry);
                    assert(done.deep_view() =~= before.push(entry@));
                    assert(done.deep_view() =~= minted_kinds(all, self.kind as int + 1));
                    settle(
                        self.creator,
                        self.registry,
                        self.expire_date,
                        self.discount_windows,
                        self.kinds,
                        self.kind + 1,
                        done,
                        id,
                        market,
                    )
                }
            },
        }
    }
}

} // verus!
