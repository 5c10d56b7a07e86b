//! The asset registry of one collection: who owns which token, what is
//! known of each token, and the log of what was done.

use crate::address::{anonymous_bytes, Address};
use crate::entries::{
    lemma_lookup_at, lemma_put_at, lemma_without_at, lookup, put, scan_stops, without,
};
use crate::query::page;
use crate::record::lemma_bytes_deep_view;
use crate::types::{
    normalized, same_account, subaccount_view, Account, AccountView, Errors, ErrorsView, IcrcTransferArg,
    IcrcTransferArgView, InitArg, InitArgView, MintArg, MintArgView, TransferError,
    TransferErrorView,
};
use vstd::prelude::*;

verus! {

/// How long after its creation a transfer request is accepted, where the
/// registry is configured with no window: a day, in nanoseconds.
pub const DEFAULT_TX_WINDOW: u64 = 86_400_000_000_000;

/// How far the clocks of a requester and of the registry may differ, where
/// the registry is configured with no drift: two minutes, in nanoseconds.
pub const DEFAULT_PERMITTED_DRIFT: u64 = 120_000_000_000;

/// How many token ids a listing gives where neither the request nor the
/// configuration says.
pub const DEFAULT_TAKE_VALUE: u128 = 32;

/// What was done to a token.
#[derive(Debug, Clone, Copy, PartialEq, Eq, Structural)]
pub enum TransactionKind {
    Mint,
    Transfer,
    Burn,
}

/// One entry of the registry's log.
#[derive(Debug, PartialEq, Eq)]
pub struct Transaction {
    pub kind: TransactionKind,
    pub token_id: u128,
    pub from: Option<Account>,
    pub to: Option<Account>,
    pub timestamp: u64,
    pub memo: Option<Vec<u8>>,
}

pub struct TransactionView {
    pub kind: TransactionKind,
    pub token_id: u128,
    pub from: Option<AccountView>,
    pub to: Option<AccountView>,
    pub timestamp: u64,
    pub memo: Option<Seq<u8>>,
}

impl View for Transaction {
    type V = TransactionView;

    open spec fn view(&self) -> TransactionView {
        TransactionView {
            kind: self.kind,
            token_id: self.token_id,
            from: self.from.deep_view(),
            to: self.to.deep_view(),
            timestamp: self.timestamp,
            memo: self.memo.deep_view(),
        }
    }
}

impl DeepView for Transaction {
    type V = TransactionView;

    open spec fn deep_view(&self) -> TransactionView {
        self@
    }
}

fn copy_bytes(bytes: &Option<Vec<u8>>) -> (copy: Option<Vec<u8>>)
    ensures
        copy.deep_view() == bytes.deep_view(),
{
    match bytes {
        Some(b) => {
            let c = b.clone();
            assert(c.deep_view() =~= b.deep_view());
            Some(c)
        },
        None => None,
    }
}

fn copy_text(text: &Option<String>) -> (copy: Option<String>)
    ensures
        copy.deep_view() == text.deep_view(),
{
    match text {
        Some(t) => Some(t.clone()),
        None => None,
    }
}

fn copy_account(account: &Option<Account>) -> (copy: Option<Account>)
    ensures
        copy.deep_view() == account.deep_view(),
{
    match account {
        Some(a) => Some(a.clone()),
        None => None,
    }
}

impl Clone for Transaction {
    fn clone(&self) -> (copy: Self)
        ensures
            copy@ == self@,
    {
        Transaction {
            kind: self.kind,
            token_id: self.token_id,
            from: copy_account(&self.from),
            to: copy_account(&self.to),
            timestamp: self.timestamp,
            memo: copy_bytes(&self.memo),
        }
    }
}

/// What is known of a token.
#[derive(Debug, PartialEq, Eq)]
pub struct Icrc7TokenMetadata {
    pub name: Option<String>,
    pub description: Option<String>,
    pub logo: Option<String>,
    pub privilege_code: Option<u8>,
}

pub struct Icrc7TokenMetadataView {
    pub name: Option<Seq<char>>,
    pub description: Option<Seq<char>>,
    pub logo: Option<Seq<char>>,
    pub privilege_code: Option<u8>,
}

impl View for Icrc7TokenMetadata {
    type V = Icrc7TokenMetadataView;

    open spec fn view(&self) -> Icrc7TokenMetadataView {
        Icrc7TokenMetadataView {
            name: self.name.deep_view(),
            description: self.description.deep_view(),
            logo: self.logo.deep_view(),
            privilege_code: self.privilege_code,
        }
    }
}

impl DeepView for Icrc7TokenMetadata {
    type V = Icrc7TokenMetadataView;

    open spec fn deep_view(&self) -> Icrc7TokenMetadataView {
        self@
    }
}

/// A token as the registry holds it: its owner and what is known of it.
pub struct TokenView {
    pub owner: AccountView,
    pub metadata: Icrc7TokenMetadataView,
}

struct Token {
    id: u128,
    owner: Account,
    metadata: Icrc7TokenMetadata,
}

impl View for Token {
    type V = (u128, TokenView);

    closed spec fn view(&self) -> (u128, TokenView) {
        (self.id, TokenView { owner: self.owner@, metadata: self.metadata@ })
    }
}

impl DeepView for Token {
    type V = (u128, TokenView);

    closed spec fn deep_view(&self) -> (u128, TokenView) {
        self@
    }
}

impl Clone for Token {
    fn clone(&self) -> (copy: Self)
        ensures
            copy@ == self@,
    {
        Token {
            id: self.id,
            owner: self.owner.clone(),
            metadata: Icrc7TokenMetadata {
                name: copy_text(&self.metadata.name),
                description: copy_text(&self.metadata.description),
                logo: copy_text(&self.metadata.logo),
                privilege_code: self.metadata.privilege_code,
            },
        }
    }
}

/// The order of token ids.
pub open spec fn id_order() -> spec_fn(u128, u128) -> bool {
    |a: u128, b: u128| a < b
}

/// Whether the ids of the tokens go up strictly.
pub open spec fn ascending(tokens: Seq<(u128, TokenView)>) -> bool {
    forall|i: int, j: int| 0 <= i < j < tokens.len() ==> tokens[i].0 < tokens[j].0
}

/// A registry as the proofs see it.
pub struct RegistryView {
    pub owner: Seq<u8>,
    pub minting_authority: Option<AccountView>,
    pub symbol: Seq<char>,
    pub name: Seq<char>,
    pub description: Option<Seq<char>>,
    pub logo: Option<Seq<char>>,
    pub supply_cap: Option<u128>,
    pub max_query_batch_size: Option<u128>,
    pub max_update_batch_size: Option<u128>,
    pub default_take_value: Option<u128>,
    pub max_take_value: Option<u128>,
    pub max_memo_size: Option<u128>,
    pub atomic_batch_transfers: Option<bool>,
    pub tx_window: Option<u64>,
    pub permitted_drift: Option<u64>,
    /// The tokens, each with its id, in ascending order of id.
    pub tokens: Seq<(u128, TokenView)>,
    /// The log, oldest entry first.
    pub log: Seq<TransactionView>,
}

impl RegistryView {
    /// The owner of a token, if the token exists.
    pub open spec fn owner_of(self, id: u128) -> Option<AccountView> {
        match lookup(self.tokens, id) {
            Some(token) => Some(token.owner),
            None => None,
        }
    }

    /// Whether no further token can be minted.
    pub open spec fn cap_reached(self) -> bool {
        self.supply_cap matches Some(cap) && self.tokens.len() >= cap
    }

    /// The window in which transfer requests are accepted.
    pub open spec fn window(self) -> u64 {
        match self.tx_window {
            Some(window) => window,
            None => DEFAULT_TX_WINDOW,
        }
    }

    /// The permitted difference of clocks.
    pub open spec fn drift(self) -> u64 {
        match self.permitted_drift {
            Some(drift) => drift,
            None => DEFAULT_PERMITTED_DRIFT,
        }
    }
}

/// The asset registry of one collection.
pub struct Registry {
    owner: Address,
    minting_authority: Option<Account>,
    symbol: String,
    name: String,
    description: Option<String>,
    logo: Option<String>,
    supply_cap: Option<u128>,
    max_query_batch_size: Option<u128>,
    max_update_batch_size: Option<u128>,
    default_take_value: Option<u128>,
    max_take_value: Option<u128>,
    max_memo_size: Option<u128>,
    atomic_batch_transfers: Option<bool>,
    tx_window: Option<u64>,
    permitted_drift: Option<u64>,
    tokens: Vec<Token>,
    log: Vec<Transaction>,
}

impl View for Registry {
    type V = RegistryView;

    closed spec fn view(&self) -> RegistryView {
        RegistryView {
            owner: self.owner@,
            minting_authority: self.minting_authority.deep_view(),
            symbol: self.symbol@,
            name: self.name@,
            description: self.description.deep_view(),
            logo: self.logo.deep_view(),
            supply_cap: self.supply_cap,
            max_query_batch_size: self.max_query_batch_size,
            max_update_batch_size: self.max_update_batch_size,
            default_take_value: self.default_take_value,
            max_take_value: self.max_take_value,
            max_memo_size: self.max_memo_size,
            atomic_batch_transfers: self.atomic_batch_transfers,
            tx_window: self.tx_window,
            permitted_drift: self.permitted_drift,
            tokens: self.tokens.deep_view(),
            log: self.log.deep_view(),
        }
    }
}

/// The registry that an initial configuration gives: without tokens, with
/// an empty log.
pub open spec fn initial_registry(owner: Seq<u8>, arg: InitArgView) -> RegistryView {
    RegistryView {
        owner,
        minting_authority: arg.minting_account,
        symbol: arg.icrc7_symbol,
        name: arg.icrc7_name,
        description: arg.icrc7_description,
        logo: arg.icrc7_logo,
        supply_cap: arg.icrc7_supply_cap,
        max_query_batch_size: arg.icrc7_max_query_batch_size,
        max_update_batch_size: arg.icrc7_max_update_batch_size,
        default_take_value: arg.icrc7_default_take_value,
        max_take_value: arg.icrc7_max_take_value,
        max_memo_size: arg.icrc7_max_memo_size,
        atomic_batch_transfers: arg.icrc7_atomic_batch_transfers,
        tx_window: arg.tx_window,
        permitted_drift: arg.permitted_drift,
        tokens: Seq::empty(),
        log: Seq::empty(),
    }
}

/// The error that turns a caller without identity away from minting.
pub open spec fn anonymous_minter() -> ErrorsView {
    ErrorsView::GenericBatchError { message: ("Anonymous Identity")@, error_code: 100 }
}

/// Why a mint request is refused, or `None` where it is granted: the acting
/// address must have an identity and be the minting authority; the token id
/// must be positive; the supply cap must not be reached; the token id must
/// be free.
pub open spec fn mint_refusal(registry: RegistryView, arg: MintArgView, acting: Seq<u8>) -> Option<
    ErrorsView,
> {
    if acting == anonymous_bytes() {
        Some(anonymous_minter())
    } else if !(registry.minting_authority matches Some(authority) && authority.owner == acting) {
        Some(ErrorsView::Unauthorized)
    } else if arg.token_id == 0 {
        Some(ErrorsView::TokenIdMinimumLimit)
    } else if registry.cap_reached() {
        Some(ErrorsView::SupplyCapReached)
    } else if lookup(registry.tokens, arg.token_id) is Some {
        Some(ErrorsView::TokenIdAlreadyExist)
    } else {
        None
    }
}

/// The token that a mint request makes. Its owner is kept in plain form.
pub open spec fn minted_token(arg: MintArgView) -> TokenView {
    TokenView {
        owner: normalized(arg.to),
        metadata: Icrc7TokenMetadataView {
            name: arg.token_name,
            description: arg.token_description,
            logo: arg.token_logo,
            privilege_code: arg.token_privilege_code,
        },
    }
}

/// The log entry of a mint.
pub open spec fn mint_entry(arg: MintArgView, now: u64) -> TransactionView {
    TransactionView {
        kind: TransactionKind::Mint,
        token_id: arg.token_id,
        from: None,
        to: Some(normalized(arg.to)),
        timestamp: now,
        memo: arg.memo,
    }
}

/// The registry after a granted mint.
pub open spec fn after_mint(registry: RegistryView, arg: MintArgView, now: u64) -> RegistryView {
    RegistryView {
        tokens: put(registry.tokens, id_order(), arg.token_id, minted_token(arg)),
        log: registry.log.push(mint_entry(arg, now)),
        ..registry
    }
}

impl Registry {
    /// Whether the registry is in order: its tokens stand in ascending
    /// order of id. Every registry that [`Registry::new`] makes is, and
    /// every operation keeps it so.
    pub closed spec fn wf(&self) -> bool {
        ascending(self.tokens.deep_view())
    }

    /// The tokens of a registry in order stand in ascending order of id, so
    /// no two of them share an id.
    pub proof fn law_tokens_ascend(&self)
        requires
            self.wf(),
        ensures
            ascending(self@.tokens),
    {
    }

    /// The registry that an initial configuration gives, owned by `owner`.
    pub fn new(owner: Address, arg: InitArg) -> (registry: Registry)
        ensures
            registry.wf(),
            registry@ == initial_registry(owner@, arg@),
    {
        let registry = Registry {
            owner,
            minting_authority: arg.minting_account,
            symbol: arg.icrc7_symbol,
            name: arg.icrc7_name,
            description: arg.icrc7_description,
            logo: arg.icrc7_logo,
            supply_cap: arg.icrc7_supply_cap,
            max_query_batch_size: arg.icrc7_max_query_batch_size,
            max_update_batch_size: arg.icrc7_max_update_batch_size,
            default_take_value: arg.icrc7_default_take_value,
            max_take_value: arg.icrc7_max_take_value,
            max_memo_size: arg.icrc7_max_memo_size,
            atomic_batch_transfers: arg.icrc7_atomic_batch_transfers,
            tx_window: arg.tx_window,
            permitted_drift: arg.permitted_drift,
            tokens: Vec::new(),
            log: Vec::new(),
        };
        assert(registry.tokens.deep_view() =~= Seq::<(u128, TokenView)>::empty());
        assert(registry.log.deep_view() =~= Seq::<TransactionView>::empty());
        registry
    }

    /// Where the scan of the tokens for an id stops.
    fn find(&self, id: u128) -> (at: usize)
        ensures
            scan_stops(self.tokens.deep_view(), id_order(), id, at as int),
            at <= self.tokens.len(),
    {
        let mut at: usize = 0;
        while at < self.tokens.len() && self.tokens[at].id < id
            invariant
                at <= self.tokens.len(),
                forall|j: int| 0 <= j < at ==> (#[trigger] self.tokens.deep_view()[j]).0 < id,
            decreases self.tokens.len() - at,
        {
            at += 1;
        }
        at
    }

    /// Mints a token at time `now` in the name of `acting`.
    ///
    /// A request that [`mint_refusal`] refuses leaves the registry as it
    /// is. A granted one gives the token to the account named in the
    /// request, writes the mint into the log, and returns the token's id.
    pub fn mint(&mut self, arg: MintArg, acting: &Address, now: u64) -> (minted: Result<u128, Errors>)
        requires
            old(self).wf(),
        ensures
            final(self).wf(),
            match mint_refusal(old(self)@, arg@, acting@) {
                Some(error) => minted matches Err(e) && e@ == error && final(self)@ == old(self)@,
                None => minted == Ok::<u128, Errors>(arg.token_id) && final(self)@ == after_mint(
                    old(self)@,
                    arg@,
                    now,
                ),
            },
    {
        if acting.is_anonymous() {
            return Err(
                Errors::GenericBatchError {
                    message: "Anonymous Identity".to_owned(),
                    error_code: 100,
                },
            );
        }
        let authorized = match &self.minting_authority {
            Some(authority) => authority.owner.same(acting),
            None => false,
        };
        if !authorized {
            return Err(Errors::Unauthorized);
        }
        if arg.token_id == 0 {
            return Err(Errors::TokenIdMinimumLimit);
        }
        let full = match self.supply_cap {
            Some(cap) => self.tokens.len() as u128 >= cap,
            None => false,
        };
        if full {
            return Err(Errors::SupplyCapReached);
        }
        let at = self.find(arg.token_id);
        let ghost before = self.tokens.deep_view();
        proof {
            if at < before.len() && before[at as int].0 == arg.token_id {
                lemma_lookup_at(before, arg.token_id, at as int);
            } else {
                assert forall|j: int| 0 <= j < before.len() implies (#[trigger] before[j]).0
                    != arg.token_id by {
                    if j >= at {
                        assert(before[at as int].0 <= before[j].0);
                    }
                }
                lemma_lookup_at(before, arg.token_id, before.len() as int);
            }
        }
        if at < self.tokens.len() && self.tokens[at].id == arg.token_id {
            return Err(Errors::TokenIdAlreadyExist);
        }
        let id = arg.token_id;
        let receiver = arg.to.normalize();
        let entry = Transaction {
            kind: TransactionKind::Mint,
            token_id: id,
            from: None,
            to: Some(receiver.clone()),
            timestamp: now,
            memo: arg.memo,
        };
        let token = Token {
            id,
            owner: receiver,
            metadata: Icrc7TokenMetadata {
                name: arg.token_name,
                description: arg.token_description,
                logo: arg.token_logo,
                privilege_code: arg.token_privilege_code,
            },
        };
        let ghost made = token@;
        let ghost logged = entry@;
        let ghost log_before = self.log.deep_view();
        self.tokens.insert(at, token);
        self.log.push(entry);
        proof {
            lemma_put_at(before, id_order(), id, minted_token(arg@), at as int);
            assert(self.tokens.deep_view() =~= before.insert(at as int, made));
            assert(self.log.deep_view() =~= log_before.push(logged));
            let after = self.tokens.deep_view();
            assert forall|i: int, j: int| 0 <= i < j < after.len() implies after[i].0
                < after[j].0 by {
                if i < at && j > at {
                    assert(before[i].0 < id);
                    assert(before[j - 1].0 > id);
                } else if i < at && j == at {
                    assert(before[i].0 < id);
                } else if i == at {
                    assert(before[j - 1].0 > id) by {
                        assert(before[at as int].0 <= before[j - 1].0);
                    }
                } else if j < at {
                    assert(after[i] == before[i] && after[j] == before[j]);
                } else {
                    assert(after[i] == before[i - 1] && after[j] == before[j - 1]);
                }
            }
        }
        Ok(id)
    }
}

/// The account in whose name a transfer is asked for, in plain form.
pub open spec fn acting_account(acting: Seq<u8>, arg: IcrcTransferArgView) -> AccountView {
    normalized(AccountView { owner: acting, subaccount: arg.from_subaccount })
}

/// The log entry of a transfer: it bears the time that the request gives
/// for its creation, or the time of the transfer.
pub open spec fn transfer_entry(arg: IcrcTransferArgView, acting: Seq<u8>, now: u64) -> TransactionView {
    TransactionView {
        kind: TransactionKind::Transfer,
        token_id: arg.token_id,
        from: Some(acting_account(acting, arg)),
        to: Some(normalized(arg.to)),
        timestamp: match arg.created_at_time {
            Some(created) => created,
            None => now,
        },
        memo: arg.memo,
    }
}

/// The position of the first log entry that equals `entry`.
pub open spec fn first_duplicate(log: Seq<TransactionView>, entry: TransactionView) -> Option<int>
    decreases log.len(),
{
    if log.len() == 0 {
        None
    } else {
        match first_duplicate(log.drop_last(), entry) {
            Some(i) => Some(i),
            None => if log.last() == entry {
                Some(log.len() - 1)
            } else {
                None
            },
        }
    }
}

/// Why a transfer request is refused at time `now`, or `None` where it is
/// granted. A request that says when it was created must not be older than
/// the window and the drift allow, nor lie further ahead than the drift,
/// nor repeat a transfer in the log. The token must exist, the recipient
/// must not be the sender, and the sender must own the token.
pub open spec fn transfer_refusal(
    registry: RegistryView,
    arg: IcrcTransferArgView,
    acting: Seq<u8>,
    now: u64,
) -> Option<TransferErrorView> {
    if arg.created_at_time matches Some(created) && created + registry.window()
        + registry.drift() < now {
        Some(TransferErrorView::TooOld)
    } else if arg.created_at_time matches Some(created) && created > now + registry.drift() {
        Some(TransferErrorView::CreatedInFuture { ledger_time: now })
    } else if arg.created_at_time is Some && first_duplicate(
        registry.log,
        transfer_entry(arg, acting, now),
    ) is Some {
        Some(
            TransferErrorView::Duplicate {
                duplicate_of: first_duplicate(
                    registry.log,
                    transfer_entry(arg, acting, now),
                )->0 as u128,
            },
        )
    } else {
        match registry.owner_of(arg.token_id) {
            None => Some(TransferErrorView::NonExistingTokenId),
            Some(owner) => if same_account(arg.to, acting_account(acting, arg)) {
                Some(TransferErrorView::InvalidRecipient)
            } else if !same_account(owner, acting_account(acting, arg)) {
                Some(TransferErrorView::Unauthorized)
            } else {
                None
            },
        }
    }
}

/// The registry after a granted transfer: the token has its new owner, and
/// the transfer stands at the end of the log.
pub open spec fn after_transfer(
    registry: RegistryView,
    arg: IcrcTransferArgView,
    acting: Seq<u8>,
    now: u64,
) -> RegistryView {
    RegistryView {
        tokens: put(
            registry.tokens,
            id_order(),
            arg.token_id,
            TokenView {
                owner: normalized(arg.to),
                metadata: lookup(registry.tokens, arg.token_id)->0.metadata,
            },
        ),
        log: registry.log.push(transfer_entry(arg, acting, now)),
        ..registry
    }
}

/// The registry after the transfers of a batch, each tried in its turn on
/// what the ones before it left, and what came of each: the position of
/// its log entry, or the reason for which it was refused.
pub open spec fn transfer_each(
    registry: RegistryView,
    args: Seq<IcrcTransferArgView>,
    acting: Seq<u8>,
    now: u64,
) -> (RegistryView, Seq<Result<u128, TransferErrorView>>)
    decreases args.len(),
{
    if args.len() == 0 {
        (registry, Seq::empty())
    } else {
        let (so_far, results) = transfer_each(registry, args.drop_last(), acting, now);
        match transfer_refusal(so_far, args.last(), acting, now) {
            Some(error) => (so_far, results.push(Err(error))),
            None => (
                after_transfer(so_far, args.last(), acting, now),
                results.push(Ok(so_far.log.len() as u128)),
            ),
        }
    }
}

/// The error that turns a caller without identity away from a batch.
pub open spec fn anonymous_batch() -> TransferErrorView {
    TransferErrorView::GenericBatchError { error_code: 100, message: ("Anonymous Identity")@ }
}

/// The error that turns a batch away that is longer than the registry
/// takes.
pub open spec fn oversized_batch() -> TransferErrorView {
    TransferErrorView::GenericBatchError {
        error_code: 2,
        message: ("Exceed Max allowed Update Batch Size")@,
    }
}

/// Why a whole batch of `count` requests is refused, or `None` where its
/// requests are looked at.
pub open spec fn batch_refusal(registry: RegistryView, count: nat, acting: Seq<u8>) -> Option<
    TransferErrorView,
> {
    if acting == anonymous_bytes() {
        Some(anonymous_batch())
    } else if registry.max_update_batch_size matches Some(most) && count > most {
        Some(oversized_batch())
    } else {
        None
    }
}

/// What a batch of transfers leaves and reports, one report for each
/// request. A batch that is refused as a whole reports the refusal for
/// each. In a registry with atomic batches, one refused request leaves the
/// registry as it was: the refused requests report why, the others report
/// nothing. Else each request is granted or refused by itself.
pub open spec fn transfer_batch(
    registry: RegistryView,
    args: Seq<IcrcTransferArgView>,
    acting: Seq<u8>,
    now: u64,
) -> (RegistryView, Seq<Option<Result<u128, TransferErrorView>>>) {
    match batch_refusal(registry, args.len(), acting) {
        Some(error) => (
            registry,
            Seq::new(args.len(), |i: int| Some(Err::<u128, TransferErrorView>(error))),
        ),
        None => {
            let (after, results) = transfer_each(registry, args, acting, now);
            if registry.atomic_batch_transfers == Some(true) && exists|i: int|
                0 <= i < results.len() && (#[trigger] results[i]) is Err {
                (
                    registry,
                    results.map_values(
                        |r: Result<u128, TransferErrorView>|
                            match r {
                                Ok(_) => None,
                                Err(error) => Some(Err::<u128, TransferErrorView>(error)),
                            },
                    ),
                )
            } else {
                (after, results.map_values(|r: Result<u128, TransferErrorView>| Some(r)))
            }
        },
    }
}

/// What a result says, with its error seen as the proofs see it.
pub open spec fn result_view(result: Result<u128, TransferError>) -> Result<u128, TransferErrorView> {
    match result {
        Ok(position) => Ok(position),
        Err(error) => Err(error@),
    }
}

/// What a report says, with its error seen as the proofs see it.
pub open spec fn report_view(report: Option<Result<u128, TransferError>>) -> Option<
    Result<u128, TransferErrorView>,
> {
    match report {
        Some(result) => Some(result_view(result)),
        None => None,
    }
}

fn same_bytes(a: &Vec<u8>, b: &Vec<u8>) -> (r: bool)
    ensures
        r == (a@ == b@),
{
    if a.len() != b.len() {
        return false;
    }
    let mut i: usize = 0;
    while i < a.len()
        invariant
            i <= a.len(),
            a.len() == b.len(),
            forall|j: int| 0 <= j < i ==> a@[j] == b@[j],
        decreases a.len() - i,
    {
        if a[i] != b[i] {
            return false;
        }
        i += 1;
    }
    assert(a@ =~= b@);
    true
}

fn same_memo(a: &Option<Vec<u8>>, b: &Option<Vec<u8>>) -> (r: bool)
    ensures
        r == (a.deep_view() == b.deep_view()),
{
    match (a, b) {
        (None, None) => true,
        (Some(x), Some(y)) => {
            proof {
                lemma_bytes_deep_view(*x);
                lemma_bytes_deep_view(*y);
            }
            same_bytes(x, y)
        },
        _ => false,
    }
}

fn same_array(x: &[u8; 32], y: &[u8; 32]) -> (r: bool)
    ensures
        r == (x@ == y@),
{
    let mut i: usize = 0;
    while i < 32
        invariant
            i <= 32,
            forall|j: int| 0 <= j < i ==> x@[j] == y@[j],
        decreases 32 - i,
    {
        if x[i] != y[i] {
            return false;
        }
        i += 1;
    }
    assert(x@ =~= y@);
    true
}

fn same_subaccount(a: &Option<[u8; 32]>, b: &Option<[u8; 32]>) -> (r: bool)
    ensures
        r == (subaccount_view(*a) == subaccount_view(*b)),
{
    match (a, b) {
        (None, None) => true,
        (Some(x), Some(y)) => same_array(x, y),
        _ => false,
    }
}

fn same_party(a: &Option<Account>, b: &Option<Account>) -> (r: bool)
    ensures
        r == (a.deep_view() == b.deep_view()),
{
    match (a, b) {
        (None, None) => true,
        (Some(x), Some(y)) => x.owner.same(&y.owner) && same_subaccount(
            &x.subaccount,
            &y.subaccount,
        ),
        _ => false,
    }
}

fn same_entry(a: &Transaction, b: &Transaction) -> (r: bool)
    ensures
        r == (a@ == b@),
{
    a.kind == b.kind && a.token_id == b.token_id && a.timestamp == b.timestamp && same_party(
        &a.from,
        &b.from,
    ) && same_party(&a.to, &b.to) && same_memo(&a.memo, &b.memo)
}

impl Registry {
    /// The position of the first log entry that equals `entry`.
    fn find_duplicate(&self, entry: &Transaction) -> (found: Option<usize>)
        ensures
            match found {
                Some(i) => first_duplicate(self.log.deep_view(), entry@) == Some(i as int),
                None => first_duplicate(self.log.deep_view(), entry@) is None,
            },
    {
        let ghost log = self.log.deep_view();
        let mut i: usize = 0;
        assert(log.take(0) =~= Seq::<TransactionView>::empty());
        while i < self.log.len()
            invariant
                i <= self.log.len(),
                log == self.log.deep_view(),
                first_duplicate(log.take(i as int), entry@) is None,
            decreases self.log.len() - i,
        {
            proof {
                assert(log.take(i as int + 1).drop_last() =~= log.take(i as int));
                assert(log.take(i as int + 1).last() == self.log[i as int]@);
            }
            if same_entry(&self.log[i], entry) {
                proof {
                    lemma_first_duplicate_stays(log, entry@, i as int + 1);
                }
                return Some(i);
            }
            i += 1;
        }
        assert(log.take(self.log.len() as int) =~= log);
        None
    }

    /// Transfers one token at time `now` in the name of `acting`.
    ///
    /// A request that [`transfer_refusal`] refuses leaves the registry as
    /// it is. A granted one gives the position of its entry in the log.
    pub fn transfer(&mut self, arg: &IcrcTransferArg, acting: &Address, now: u64) -> (done: Result<
        u128,
        TransferError,
    >)
        requires
            old(self).wf(),
        ensures
            final(self).wf(),
            match transfer_refusal(old(self)@, arg@, acting@, now) {
                Some(error) => done matches Err(e) && e@ == error && final(self)@ == old(self)@,
                None => done == Ok::<u128, TransferError>(old(self)@.log.len() as u128)
                    && final(self)@ == after_transfer(old(self)@, arg@, acting@, now),
            },
    {
        let window = match self.tx_window {
            Some(window) => window,
            None => DEFAULT_TX_WINDOW,
        };
        let drift = match self.permitted_drift {
            Some(drift) => drift,
            None => DEFAULT_PERMITTED_DRIFT,
        };
        let sender = (Account { owner: acting.clone(), subaccount: arg.from_subaccount }).normalize();
        let receiver = arg.to.clone().normalize();
        let entry = Transaction {
            kind: TransactionKind::Transfer,
            token_id: arg.token_id,
            from: Some(sender.clone()),
            to: Some(receiver.clone()),
            timestamp: match arg.created_at_time {
                Some(created) => created,
                None => now,
            },
            memo: copy_bytes(&arg.memo),
        };
        match arg.created_at_time {
            Some(created) => {
                if (created as u128) + (window as u128) + (drift as u128) < now as u128 {
                    return Err(TransferError::TooOld);
                }
                if created as u128 > (now as u128) + (drift as u128) {
                    return Err(TransferError::CreatedInFuture { ledger_time: now });
                }
                match self.find_duplicate(&entry) {
                    Some(i) => {
                        return Err(TransferError::Duplicate { duplicate_of: i as u128 });
                    },
                    None => {},
                }
            },
            None => {},
        }
        let at = self.find(arg.token_id);
        let ghost before = self.tokens.deep_view();
        proof {
            if at < before.len() && before[at as int].0 == arg.token_id {
                lemma_lookup_at(before, arg.token_id, at as int);
            } else {
                assert forall|j: int| 0 <= j < before.len() implies (#[trigger] before[j]).0
                    != arg.token_id by {
                    if j >= at {
                        assert(before[at as int].0 <= before[j].0);
                    }
                }
                lemma_lookup_at(before, arg.token_id, before.len() as int);
            }
        }
        if !(at < self.tokens.len() && self.tokens[at].id == arg.token_id) {
            return Err(TransferError::NonExistingTokenId);
        }
        if arg.to.same(&sender) {
            return Err(TransferError::InvalidRecipient);
        }
        if !self.tokens[at].owner.same(&sender) {
            return Err(TransferError::Unauthorized);
        }
        let mut token = self.tokens[at].clone();
        token.owner = receiver;
        let ghost moved = token@;
        let ghost logged = entry@;
        let ghost log_before = self.log.deep_view();
        let position = self.log.len() as u128;
        self.tokens.set(at, token);
        self.log.push(entry);
        proof {
            lemma_put_at(before, id_order(), arg.token_id, moved.1, at as int);
            assert(self.tokens.deep_view() =~= before.update(at as int, moved));
            assert(self.log.deep_view() =~= log_before.push(logged));
            let after = self.tokens.deep_view();
            assert forall|i: int, j: int| 0 <= i < j < after.len() implies after[i].0
                < after[j].0 by {
                assert(after[i].0 == before[i].0 && after[j].0 == before[j].0);
            }
        }
        Ok(position)
    }

    /// Tries the transfers of a batch, each in its turn.
    fn transfer_in_turn(&mut self, args: &Vec<IcrcTransferArg>, acting: &Address, now: u64) -> (results:
        Vec<Result<u128, TransferError>>)
        requires
            old(self).wf(),
        ensures
            final(self).wf(),
            final(self)@ == transfer_each(old(self)@, args.deep_view(), acting@, now).0,
            results@.map_values(|r: Result<u128, TransferError>| result_view(r)) == transfer_each(
                old(self)@,
                args.deep_view(),
                acting@,
                now,
            ).1,
    {
        let ghost start = self@;
        let ghost all = args.deep_view();
        let mut results: Vec<Result<u128, TransferError>> = Vec::new();
        let mut i: usize = 0;
        assert(all.take(0) =~= Seq::<IcrcTransferArgView>::empty());
        assert(results@.map_values(|r: Result<u128, TransferError>| result_view(r)) =~= Seq::<
            Result<u128, TransferErrorView>,
        >::empty());
        while i < args.len()
            invariant
                i <= args.len(),
                self.wf(),
                all == args.deep_view(),
                self@ == transfer_each(start, all.take(i as int), acting@, now).0,
                results@.map_values(|r: Result<u128, TransferError>| result_view(r))
                    == transfer_each(start, all.take(i as int), acting@, now).1,
            decreases args.len() - i,
        {
            let ghost earlier = results@.map_values(|r: Result<u128, TransferError>| result_view(r));
            proof {
                assert(all.take(i as int + 1).drop_last() =~= all.take(i as int));
                assert(all.take(i as int + 1).last() == args[i as int]@);
            }
            let done = self.transfer(&args[i], acting, now);
            results.push(done);
            assert(results@.map_values(|r: Result<u128, TransferError>| result_view(r))
                =~= earlier.push(result_view(done)));
            i += 1;
        }
        assert(all.take(args.len() as int) =~= all);
        results
    }

    /// A registry that holds what this one holds.
    fn duplicate(&self) -> (copy: Registry)
        requires
            self.wf(),
        ensures
            copy.wf(),
            copy@ == self@,
    {
        let tokens = self.tokens.clone();
        let log = self.log.clone();
        assert(tokens.deep_view() =~= self.tokens.deep_view());
        assert(log.deep_view() =~= self.log.deep_view());
        Registry {
            owner: self.owner.clone(),
            minting_authority: copy_account(&self.minting_authority),
            symbol: self.symbol.clone(),
            name: self.name.clone(),
            description: copy_text(&self.description),
            logo: copy_text(&self.logo),
            supply_cap: self.supply_cap,
            max_query_batch_size: self.max_query_batch_size,
            max_update_batch_size: self.max_update_batch_size,
            default_take_value: self.default_take_value,
            max_take_value: self.max_take_value,
            max_memo_size: self.max_memo_size,
            atomic_batch_transfers: self.atomic_batch_transfers,
            tx_window: self.tx_window,
            permitted_drift: self.permitted_drift,
            tokens,
            log,
        }
    }
}

/// An entry that is first found in a front part of the log is first found
/// there in the whole log.
pub proof fn lemma_first_duplicate_stays(log: Seq<TransactionView>, entry: TransactionView, upto: int)
    requires
        0 <= upto <= log.len(),
        first_duplicate(log.take(upto), entry) is Some,
    ensures
        first_duplicate(log, entry) == first_duplicate(log.take(upto), entry),
    decreases log.len() - upto,
{
    if upto < log.len() {
        assert(log.take(upto + 1).drop_last() =~= log.take(upto));
        lemma_first_duplicate_stays(log, entry, upto + 1);
    } else {
        assert(log.take(upto) =~= log);
    }
}

fn batch_error(anonymous: bool) -> (error: TransferError)
    ensures
        error@ == if anonymous {
            anonymous_batch()
        } else {
            oversized_batch()
        },
{
    if anonymous {
        TransferError::GenericBatchError {
            error_code: 100,
            message: "Anonymous Identity".to_owned(),
        }
    } else {
        TransferError::GenericBatchError {
            error_code: 2,
            message: "Exceed Max allowed Update Batch Size".to_owned(),
        }
    }
}

/// Transfers the tokens of a batch at time `now`, in the name of `caller`
/// where one is given and of `sender` else, as [`transfer_batch`] says.
/// There is one report for each request.
pub fn icrc7_transfer(
    registry: &mut Registry,
    args: Vec<IcrcTransferArg>,
    caller: Option<Address>,
    sender: Address,
    now: u64,
) -> (reports: Vec<Option<Result<u128, TransferError>>>)
    requires
        old(registry).wf(),
    ensures
        final(registry).wf(),
        final(registry)@ == transfer_batch(
            old(registry)@,
            args.deep_view(),
            acting_address(caller.deep_view(), sender@),
            now,
        ).0,
        reports@.map_values(|r: Option<Result<u128, TransferError>>| report_view(r))
            == transfer_batch(
            old(registry)@,
            args.deep_view(),
            acting_address(caller.deep_view(), sender@),
            now,
        ).1,
{
    let acting = match caller {
        Some(named) => named,
        None => sender,
    };
    let ghost expected = transfer_batch(old(registry)@, args.deep_view(), acting@, now);
    let anonymous = acting.is_anonymous();
    let oversized = match registry.max_update_batch_size {
        Some(most) => args.len() as u128 > most,
        None => false,
    };
    let mut reports: Vec<Option<Result<u128, TransferError>>> = Vec::new();
    if anonymous || oversized {
        let mut i: usize = 0;
        while i < args.len()
            invariant
                i <= args.len(),
                reports.len() == i,
                forall|j: int|
                    0 <= j < i ==> report_view(#[trigger] reports[j]) == Some(
                        Err::<u128, TransferErrorView>(
                            if anonymous {
                                anonymous_batch()
                            } else {
                                oversized_batch()
                            },
                        ),
                    ),
            decreases args.len() - i,
        {
            reports.push(Some(Err(batch_error(anonymous))));
            i += 1;
        }
        assert(reports@.map_values(|r: Option<Result<u128, TransferError>>| report_view(r))
            =~= expected.1);
        return reports;
    }
    let atomic = match registry.atomic_batch_transfers {
        Some(flag) => flag,
        None => false,
    };
    if atomic {
        let mut trial = registry.duplicate();
        let results = trial.transfer_in_turn(&args, &acting, now);
        let ghost seen = results@.map_values(|r: Result<u128, TransferError>| result_view(r));
        let mut refused = false;
        let mut i: usize = 0;
        while i < results.len()
            invariant
                i <= results.len(),
                seen == results@.map_values(|r: Result<u128, TransferError>| result_view(r)),
                refused == exists|j: int| 0 <= j < i && (#[trigger] seen[j]) is Err,
            decreases results.len() - i,
        {
            match &results[i] {
                Ok(_) => {
                    assert(seen[i as int] is Ok);
                },
                Err(_) => {
                    assert(seen[i as int] is Err);
                    refused = true;
                },
            }
            i += 1;
        }
        if refused {
            let mut k: usize = 0;
            while k < results.len()
                invariant
                    k <= results.len(),
                    reports.len() == k,
                    forall|j: int|
                        0 <= j < k ==> report_view(#[trigger] reports[j]) == match result_view(
                            results[j],
                        ) {
                            Ok(_) => None,
                            Err(error) => Some(Err::<u128, TransferErrorView>(error)),
                        },
                decreases results.len() - k,
            {
                match &results[k] {
                    Ok(_) => reports.push(None),
                    Err(error) => reports.push(Some(Err(error.clone()))),
                }
                k += 1;
            }
            assert(reports@.map_values(|r: Option<Result<u128, TransferError>>| report_view(r))
                =~= expected.1);
            return reports;
        }
        *registry = trial;
        wrap_results(results)
    } else {
        let results = registry.transfer_in_turn(&args, &acting, now);
        wrap_results(results)
    }
}

/// The address in whose name a request is made: the one that is named, or
/// the sender.
pub open spec fn acting_address(caller: Option<Seq<u8>>, sender: Seq<u8>) -> Seq<u8> {
    match caller {
        Some(named) => named,
        None => sender,
    }
}

fn wrap_results(results: Vec<Result<u128, TransferError>>) -> (reports: Vec<
    Option<Result<u128, TransferError>>,
>)
    ensures
        reports@.map_values(|r: Option<Result<u128, TransferError>>| report_view(r))
            == results@.map_values(|r: Result<u128, TransferError>| result_view(r)).map_values(
            |r: Result<u128, TransferErrorView>| Some(r),
        ),
{
    let mut reports: Vec<Option<Result<u128, TransferError>>> = Vec::new();
    let mut k: usize = 0;
    while k < results.len()
        invariant
            k <= results.len(),
            reports.len() == k,
            forall|j: int|
                0 <= j < k ==> report_view(#[trigger] reports[j]) == Some(result_view(results[j])),
        decreases results.len() - k,
    {
        match &results[k] {
            Ok(position) => reports.push(Some(Ok(*position))),
            Err(error) => reports.push(Some(Err(error.clone()))),
        }
        k += 1;
    }
    assert(reports@.map_values(|r: Option<Result<u128, TransferError>>| report_view(r))
        =~= results@.map_values(|r: Result<u128, TransferError>| result_view(r)).map_values(
        |r: Result<u128, TransferErrorView>| Some(r),
    ));
    reports
}

/// A request to destroy one token.
#[derive(Debug, PartialEq, Eq)]
pub struct BurnArg {
    pub token_id: u128,
    pub memo: Option<Vec<u8>>,
}

pub struct BurnArgView {
    pub token_id: u128,
    pub memo: Option<Seq<u8>>,
}

impl View for BurnArg {
    type V = BurnArgView;

    open spec fn view(&self) -> BurnArgView {
        BurnArgView { token_id: self.token_id, memo: self.memo.deep_view() }
    }
}

impl DeepView for BurnArg {
    type V = BurnArgView;

    open spec fn deep_view(&self) -> BurnArgView {
        self@
    }
}

/// The account of an address alone.
pub open spec fn plain_account(owner: Seq<u8>) -> AccountView {
    AccountView { owner, subaccount: None }
}

/// Why a burn request is refused, or `None` where it is granted: the token
/// must exist and the acting address must own it.
pub open spec fn burn_refusal(registry: RegistryView, arg: BurnArgView, acting: Seq<u8>) -> Option<
    TransferErrorView,
> {
    match registry.owner_of(arg.token_id) {
        None => Some(TransferErrorView::NonExistingTokenId),
        Some(owner) => if !same_account(owner, plain_account(acting)) {
            Some(TransferErrorView::Unauthorized)
        } else {
            None
        },
    }
}

/// The log entry of a burn.
pub open spec fn burn_entry(arg: BurnArgView, acting: Seq<u8>, now: u64) -> TransactionView {
    TransactionView {
        kind: TransactionKind::Burn,
        token_id: arg.token_id,
        from: Some(plain_account(acting)),
        to: None,
        timestamp: now,
        memo: arg.memo,
    }
}

/// The registry after a granted burn: the token is gone, and the burn
/// stands at the end of the log.
pub open spec fn after_burn(
    registry: RegistryView,
    arg: BurnArgView,
    acting: Seq<u8>,
    now: u64,
) -> RegistryView {
    RegistryView {
        tokens: without(registry.tokens, arg.token_id),
        log: registry.log.push(burn_entry(arg, acting, now)),
        ..registry
    }
}

/// The registry after the burns of a batch, each tried in its turn, and
/// what came of each.
pub open spec fn burn_each(
    registry: RegistryView,
    args: Seq<BurnArgView>,
    acting: Seq<u8>,
    now: u64,
) -> (RegistryView, Seq<Result<u128, TransferErrorView>>)
    decreases args.len(),
{
    if args.len() == 0 {
        (registry, Seq::empty())
    } else {
        let (so_far, results) = burn_each(registry, args.drop_last(), acting, now);
        match burn_refusal(so_far, args.last(), acting) {
            Some(error) => (so_far, results.push(Err(error))),
            None => (
                after_burn(so_far, args.last(), acting, now),
                results.push(Ok(so_far.log.len() as u128)),
            ),
        }
    }
}

/// What a batch of burns leaves and reports, one report for each request.
/// A batch that is refused as a whole reports the refusal for each. Else
/// each request is granted or refused by itself.
pub open spec fn burn_batch(registry: RegistryView, args: Seq<BurnArgView>, acting: Seq<u8>, now: u64) -> (
    RegistryView,
    Seq<Option<Result<u128, TransferErrorView>>>,
) {
    match batch_refusal(registry, args.len(), acting) {
        Some(error) => (
            registry,
            Seq::new(args.len(), |i: int| Some(Err::<u128, TransferErrorView>(error))),
        ),
        None => {
            let (after, results) = burn_each(registry, args, acting, now);
            (after, results.map_values(|r: Result<u128, TransferErrorView>| Some(r)))
        },
    }
}

impl Registry {
    /// Destroys one token at time `now` in the name of `acting`.
    ///
    /// A request that [`burn_refusal`] refuses leaves the registry as it
    /// is. A granted one gives the position of its entry in the log.
    pub fn burn(&mut self, arg: &BurnArg, acting: &Address, now: u64) -> (done: Result<
        u128,
        TransferError,
    >)
        requires
            old(self).wf(),
        ensures
            final(self).wf(),
            match burn_refusal(old(self)@, arg@, acting@) {
                Some(error) => done matches Err(e) && e@ == error && final(self)@ == old(self)@,
                None => done == Ok::<u128, TransferError>(old(self)@.log.len() as u128)
                    && final(self)@ == after_burn(old(self)@, arg@, acting@, now),
            },
    {
        let at = self.find(arg.token_id);
        let ghost before = self.tokens.deep_view();
        proof {
            if at < before.len() && before[at as int].0 == arg.token_id {
                lemma_lookup_at(before, arg.token_id, at as int);
            } else {
                assert forall|j: int| 0 <= j < before.len() implies (#[trigger] before[j]).0
                    != arg.token_id by {
                    if j >= at {
                        assert(before[at as int].0 <= before[j].0);
                    }
                }
                lemma_lookup_at(before, arg.token_id, before.len() as int);
            }
        }
        if !(at < self.tokens.len() && self.tokens[at].id == arg.token_id) {
            return Err(TransferError::NonExistingTokenId);
        }
        let holder = Account::of(acting.clone());
        if !self.tokens[at].owner.same(&holder) {
            return Err(TransferError::Unauthorized);
        }
        let entry = Transaction {
            kind: TransactionKind::Burn,
            token_id: arg.token_id,
            from: Some(holder),
            to: None,
            timestamp: now,
            memo: copy_bytes(&arg.memo),
        };
        let ghost logged = entry@;
        let ghost log_before = self.log.deep_view();
        let position = self.log.len() as u128;
        let gone = self.tokens.remove(at);
        self.log.push(entry);
        proof {
            assert forall|j: int| 0 <= j < at implies (#[trigger] before[j]).0 != arg.token_id by {
                assert(before[j].0 < before[at as int].0);
            }
            lemma_without_at(before, arg.token_id, at as int);
            assert(self.tokens.deep_view() =~= before.remove(at as int));
            assert(self.log.deep_view() =~= log_before.push(logged));
            let after = self.tokens.deep_view();
            assert forall|i: int, j: int| 0 <= i < j < after.len() implies after[i].0
                < after[j].0 by {
                let a = if i < at { i } else { i + 1 };
                let b = if j < at { j } else { j + 1 };
                assert(after[i] == before[a] && after[j] == before[b]);
            }
        }
        Ok(position)
    }

    /// Sets the minting authority, in the name of `caller`. Only the
    /// registry's owner sets it, and only while none is set. Returns
    /// whether it was set.
    pub fn set_minting_authority(&mut self, minting_account: Account, caller: &Address) -> (set: bool)
        requires
            old(self).wf(),
        ensures
            final(self).wf(),
            set == (caller@ == old(self)@.owner && old(self)@.minting_authority is None),
            final(self)@ == if set {
                RegistryView { minting_authority: Some(minting_account@), ..old(self)@ }
            } else {
                old(self)@
            },
    {
        if self.minting_authority.is_some() || !self.owner.same(caller) {
            return false;
        }
        self.minting_authority = Some(minting_account);
        true
    }
}

/// Mints a token at time `now`, in the name of `caller` where one is given
/// and of `sender` else, as [`Registry::mint`] does.
pub fn icrc7_mint(
    registry: &mut Registry,
    arg: MintArg,
    caller: Option<Address>,
    sender: Address,
    now: u64,
) -> (minted: Result<u128, Errors>)
    requires
        old(registry).wf(),
    ensures
        final(registry).wf(),
        match mint_refusal(old(registry)@, arg@, acting_address(caller.deep_view(), sender@)) {
            Some(error) => minted matches Err(e) && e@ == error && final(registry)@ == old(registry)@,
            None => minted == Ok::<u128, Errors>(arg.token_id) && final(registry)@ == after_mint(
                old(registry)@,
                arg@,
                now,
            ),
        },
{
    let acting = match caller {
        Some(named) => named,
        None => sender,
    };
    registry.mint(arg, &acting, now)
}

/// Destroys the tokens of a batch at time `now` in the name of `sender`,
/// as [`burn_batch`] says. There is one report for each request.
pub fn icrc7_burn(registry: &mut Registry, args: Vec<BurnArg>, sender: Address, now: u64) -> (reports:
    Vec<Option<Result<u128, TransferError>>>)
    requires
        old(registry).wf(),
    ensures
        final(registry).wf(),
        final(registry)@ == burn_batch(old(registry)@, args.deep_view(), sender@, now).0,
        reports@.map_values(|r: Option<Result<u128, TransferError>>| report_view(r)) == burn_batch(
            old(registry)@,
            args.deep_view(),
            sender@,
            now,
        ).1,
{
    let ghost start = registry@;
    let ghost all = args.deep_view();
    let ghost expected = burn_batch(start, all, sender@, now);
    let anonymous = sender.is_anonymous();
    let oversized = match registry.max_update_batch_size {
        Some(most) => args.len() as u128 > most,
        None => false,
    };
    let mut reports: Vec<Option<Result<u128, TransferError>>> = Vec::new();
    if anonymous || oversized {
        let mut i: usize = 0;
        while i < args.len()
            invariant
                i <= args.len(),
                reports.len() == i,
                forall|j: int|
                    0 <= j < i ==> report_view(#[trigger] reports[j]) == Some(
                        Err::<u128, TransferErrorView>(
                            if anonymous {
                                anonymous_batch()
                            } else {
                                oversized_batch()
                            },
                        ),
                    ),
            decreases args.len() - i,
        {
            reports.push(Some(Err(batch_error(anonymous))));
            i += 1;
        }
        assert(reports@.map_values(|r: Option<Result<u128, TransferError>>| report_view(r))
            =~= expected.1);
        return reports;
    }
    let mut i: usize = 0;
    assert(all.take(0) =~= Seq::<BurnArgView>::empty());
    assert(reports@.map_values(|r: Option<Result<u128, TransferError>>| report_view(r)) =~= Seq::<
        Option<Result<u128, TransferErrorView>>,
    >::empty());
    while i < args.len()
        invariant
            i <= args.len(),
            registry.wf(),
            all == args.deep_view(),
            registry@ == burn_each(start, all.take(i as int), sender@, now).0,
            reports@.map_values(|r: Option<Result<u128, TransferError>>| report_view(r))
                == burn_each(start, all.take(i as int), sender@, now).1.map_values(
                |r: Result<u128, TransferErrorView>| Some(r),
            ),
        decreases args.len() - i,
    {
        let ghost earlier = reports@.map_values(
            |r: Option<Result<u128, TransferError>>| report_view(r),
        );
        proof {
            assert(all.take(i as int + 1).drop_last() =~= all.take(i as int));
            assert(all.take(i as int + 1).last() == args[i as int]@);
        }
        let done = registry.burn(&args[i], &sender, now);
        reports.push(Some(done));
        assert(reports@.map_values(|r: Option<Result<u128, TransferError>>| report_view(r))
            =~= earlier.push(Some(result_view(done))));
        assert(burn_each(start, all.take(i as int + 1), sender@, now).1.map_values(
            |r: Result<u128, TransferErrorView>| Some(r),
        ) =~= earlier.push(Some(result_view(done))));
        i += 1;
    }
    assert(all.take(args.len() as int) =~= all);
    reports
}

/// Sets the minting authority, as [`Registry::set_minting_authority`]
/// does.
pub fn icrc7_set_minting_authority(
    registry: &mut Registry,
    minting_account: Account,
    caller: &Address,
) -> (set: bool)
    requires
        old(registry).wf(),
    ensures
        final(registry).wf(),
        set == (caller@ == old(registry)@.owner && old(registry)@.minting_authority is None),
        final(registry)@ == if set {
            RegistryView { minting_authority: Some(minting_account@), ..old(registry)@ }
        } else {
            old(registry)@
        },
{
    registry.set_minting_authority(minting_account, caller)
}

/// A standard that the registry follows.
#[derive(Debug, PartialEq, Eq)]
pub struct Standard {
    pub name: String,
    pub url: String,
}

impl DeepView for Standard {
    type V = (Seq<char>, Seq<char>);

    open spec fn deep_view(&self) -> (Seq<char>, Seq<char>) {
        (self.name@, self.url@)
    }
}

/// The standards that every registry follows, each with the address of its
/// text.
pub open spec fn supported_standards() -> Seq<(Seq<char>, Seq<char>)> {
    seq![
        (("ICRC-7")@, ("https://github.com/dfinity/ICRC/tree/main/ICRCs/ICRC-7")@),
        (("ICRC-10")@, ("https://github.com/dfinity/ICRC/tree/main/ICRCs/ICRC-10")@),
        (("ICRC-37")@, ("https://github.com/dfinity/ICRC/tree/main/ICRCs/ICRC-37")@),
        (("ICRC-3")@, ("https://github.com/dfinity/ICRC/tree/main/ICRCs/ICRC-3")@),
    ]
}

/// The standards that every registry follows.
pub fn icrc7_supported_standards() -> (standards: Vec<Standard>)
    ensures
        standards.deep_view() == supported_standards(),
{
    let mut standards: Vec<Standard> = Vec::new();
    standards.push(
        Standard {
            name: "ICRC-7".to_owned(),
            url: "https://github.com/dfinity/ICRC/tree/main/ICRCs/ICRC-7".to_owned(),
        },
    );
    standards.push(
        Standard {
            name: "ICRC-10".to_owned(),
            url: "https://github.com/dfinity/ICRC/tree/main/ICRCs/ICRC-10".to_owned(),
        },
    );
    standards.push(
        Standard {
            name: "ICRC-37".to_owned(),
            url: "https://github.com/dfinity/ICRC/tree/main/ICRCs/ICRC-37".to_owned(),
        },
    );
    standards.push(
        Standard {
            name: "ICRC-3".to_owned(),
            url: "https://github.com/dfinity/ICRC/tree/main/ICRCs/ICRC-3".to_owned(),
        },
    );
    assert(standards.deep_view() =~= supported_standards());
    standards
}

/// A limit as a number of 16 bits: a limit beyond them counts as the
/// greatest such number.
pub open spec fn narrowed16(limit: Option<u128>) -> Option<u16> {
    match limit {
        Some(most) => Some(
            if most > u16::MAX {
                u16::MAX
            } else {
                most as u16
            },
        ),
        None => None,
    }
}

/// A limit as a number of 32 bits: a limit beyond them counts as the
/// greatest such number.
pub open spec fn narrowed32(limit: Option<u128>) -> Option<u32> {
    match limit {
        Some(most) => Some(
            if most > u32::MAX {
                u32::MAX
            } else {
                most as u32
            },
        ),
        None => None,
    }
}

fn narrow16(limit: Option<u128>) -> (narrow: Option<u16>)
    ensures
        narrow == narrowed16(limit),
{
    match limit {
        Some(most) => Some(
            if most > 0xffff {
                0xffff
            } else {
                most as u16
            },
        ),
        None => None,
    }
}

fn narrow32(limit: Option<u128>) -> (narrow: Option<u32>)
    ensures
        narrow == narrowed32(limit),
{
    match limit {
        Some(most) => Some(
            if most > 0xffff_ffff {
                0xffff_ffff
            } else {
                most as u32
            },
        ),
        None => None,
    }
}

/// The registry's symbol.
pub fn icrc7_symbol(registry: &Registry) -> (symbol: String)
    ensures
        symbol@ == registry@.symbol,
{
    registry.symbol.clone()
}

/// The registry's name.
pub fn icrc7_name(registry: &Registry) -> (name: String)
    ensures
        name@ == registry@.name,
{
    registry.name.clone()
}

/// The registry's description.
pub fn icrc7_description(registry: &Registry) -> (description: Option<String>)
    ensures
        description.deep_view() == registry@.description,
{
    copy_text(&registry.description)
}

/// The registry's logo.
pub fn icrc7_logo(registry: &Registry) -> (logo: Option<String>)
    ensures
        logo.deep_view() == registry@.logo,
{
    copy_text(&registry.logo)
}

/// The number of tokens that exist.
pub fn icrc7_total_supply(registry: &Registry) -> (supply: u128)
    ensures
        supply == registry@.tokens.len(),
{
    registry.tokens.len() as u128
}

/// The greatest number of tokens that may exist.
pub fn icrc7_supply_cap(registry: &Registry) -> (cap: Option<u128>)
    ensures
        cap == registry@.supply_cap,
{
    registry.supply_cap
}

/// The account that may mint.
pub fn icrc1_minting_authority(registry: &Registry) -> (authority: Option<Account>)
    ensures
        authority.deep_view() == registry@.minting_authority,
{
    copy_account(&registry.minting_authority)
}

/// The longest batch of queries that the registry takes.
pub fn icrc7_max_query_batch_size(registry: &Registry) -> (most: Option<u16>)
    ensures
        most == narrowed16(registry@.max_query_batch_size),
{
    narrow16(registry.max_query_batch_size)
}

/// The longest batch of updates that the registry takes.
pub fn icrc7_max_update_batch_size(registry: &Registry) -> (most: Option<u16>)
    ensures
        most == narrowed16(registry@.max_update_batch_size),
{
    narrow16(registry.max_update_batch_size)
}

/// How many token ids a listing gives where the request does not say.
pub fn icrc7_default_take_value(registry: &Registry) -> (amount: Option<u128>)
    ensures
        amount == registry@.default_take_value,
{
    registry.default_take_value
}

/// How many token ids a listing gives at most.
pub fn icrc7_max_take_value(registry: &Registry) -> (amount: Option<u128>)
    ensures
        amount == registry@.max_take_value,
{
    registry.max_take_value
}

/// The longest memo that the registry is configured for.
pub fn icrc7_max_memo_size(registry: &Registry) -> (most: Option<u32>)
    ensures
        most == narrowed32(registry@.max_memo_size),
{
    narrow32(registry.max_memo_size)
}

/// Whether one refused transfer undoes its whole batch.
pub fn icrc7_atomic_batch_transfers(registry: &Registry) -> (atomic: Option<bool>)
    ensures
        atomic == registry@.atomic_batch_transfers,
{
    registry.atomic_batch_transfers
}

/// The owners of the tokens with the given ids, one answer for each id;
/// `None` for an id that no token has.
pub fn icrc7_owner_of(registry: &Registry, ids: &Vec<u128>) -> (owners: Vec<Option<Account>>)
    requires
        registry.wf(),
    ensures
        owners.len() == ids.len(),
        forall|i: int|
            0 <= i < ids.len() ==> (#[trigger] owners[i]).deep_view() == registry@.owner_of(ids[i]),
{
    let mut owners: Vec<Option<Account>> = Vec::new();
    let mut i: usize = 0;
    while i < ids.len()
        invariant
            i <= ids.len(),
            registry.wf(),
            owners.len() == i,
            forall|j: int|
                0 <= j < i ==> (#[trigger] owners[j]).deep_view() == registry@.owner_of(ids[j]),
        decreases ids.len() - i,
    {
        let found = registry.token(ids[i]);
        owners.push(
            match found {
                Some(at) => Some(registry.tokens[at].owner.clone()),
                None => None,
            },
        );
        i += 1;
    }
    owners
}

/// What is known of the tokens with the given ids, one answer for each id;
/// `None` for an id that no token has.
pub fn icrc7_token_metadata(registry: &Registry, token_ids: &Vec<u128>) -> (known: Vec<
    Option<Icrc7TokenMetadata>,
>)
    requires
        registry.wf(),
    ensures
        known.len() == token_ids.len(),
        forall|i: int|
            0 <= i < token_ids.len() ==> (#[trigger] known[i]).deep_view() == match lookup(
                registry@.tokens,
                token_ids[i],
            ) {
                Some(token) => Some(token.metadata),
                None => None,
            },
{
    let mut known: Vec<Option<Icrc7TokenMetadata>> = Vec::new();
    let mut i: usize = 0;
    while i < token_ids.len()
        invariant
            i <= token_ids.len(),
            registry.wf(),
            known.len() == i,
            forall|j: int|
                0 <= j < i ==> (#[trigger] known[j]).deep_view() == match lookup(
                    registry@.tokens,
                    token_ids[j],
                ) {
                    Some(token) => Some(token.metadata),
                    None => None,
                },
        decreases token_ids.len() - i,
    {
        let found = registry.token(token_ids[i]);
        known.push(
            match found {
                Some(at) => Some(registry.tokens[at].clone().metadata),
                None => None,
            },
        );
        i += 1;
    }
    known
}

/// The tokens that a listing looks at: those of `holder`, where one is
/// given, with an id above `prev`, where one is given.
pub open spec fn wanted(holder: Option<AccountView>, prev: Option<u128>) -> spec_fn(
    (u128, TokenView),
) -> bool {
    |token: (u128, TokenView)|
        (holder matches Some(account) ==> same_account(token.1.owner, account)) && (
        prev matches Some(last) ==> token.0 > last)
}

/// The ids of the tokens that a listing looks at, in ascending order.
pub open spec fn listed_ids(
    tokens: Seq<(u128, TokenView)>,
    holder: Option<AccountView>,
    prev: Option<u128>,
) -> Seq<u128> {
    tokens.filter(wanted(holder, prev)).map_values(|token: (u128, TokenView)| token.0)
}

/// How many ids a listing gives: as many as the request asks for, or as
/// the registry gives by default, and no more than the registry allows.
pub open spec fn take_amount(registry: RegistryView, take: Option<u128>) -> u128 {
    let asked = match take {
        Some(amount) => amount,
        None => match registry.default_take_value {
            Some(amount) => amount,
            None => DEFAULT_TAKE_VALUE,
        },
    };
    match registry.max_take_value {
        Some(most) => if asked > most {
            most
        } else {
            asked
        },
        None => asked,
    }
}

/// The first `amount` of the ids.
pub open spec fn first_ids(ids: Seq<u128>, amount: u128) -> Seq<u128> {
    if amount < ids.len() {
        ids.take(amount as int)
    } else {
        ids
    }
}

impl Registry {
    /// The position of the token with an id, if there is one.
    fn token(&self, id: u128) -> (found: Option<usize>)
        requires
            self.wf(),
        ensures
            match found {
                Some(at) => at < self.tokens.len() && self.tokens.deep_view()[at as int].0 == id
                    && lookup(self@.tokens, id) == Some(self.tokens.deep_view()[at as int].1),
                None => lookup(self@.tokens, id) is None,
            },
    {
        let at = self.find(id);
        let ghost before = self.tokens.deep_view();
        proof {
            if at < before.len() && before[at as int].0 == id {
                lemma_lookup_at(before, id, at as int);
            } else {
                assert forall|j: int| 0 <= j < before.len() implies (#[trigger] before[j]).0
                    != id by {
                    if j >= at {
                        assert(before[at as int].0 <= before[j].0);
                    }
                }
                lemma_lookup_at(before, id, before.len() as int);
            }
        }
        if at < self.tokens.len() && self.tokens[at].id == id {
            Some(at)
        } else {
            None
        }
    }

    /// The ids that a listing gives.
    fn list(&self, holder: Option<&Account>, prev: Option<u128>, take: Option<u128>) -> (ids: Vec<
        u128,
    >)
        ensures
            ids@ == first_ids(
                listed_ids(self@.tokens, holder.deep_view(), prev),
                take_amount(self@, take),
            ),
    {
        let asked = match take {
            Some(amount) => amount,
            None => match self.default_take_value {
                Some(amount) => amount,
                None => DEFAULT_TAKE_VALUE,
            },
        };
        let amount = match self.max_take_value {
            Some(most) => if asked > most {
                most
            } else {
                asked
            },
            None => asked,
        };
        let ghost all = self.tokens.deep_view();
        let ghost keep = wanted(holder.deep_view(), prev);
        let mut ids: Vec<u128> = Vec::new();
        let mut i: usize = 0;
        assert(all.take(0) =~= Seq::<(u128, TokenView)>::empty());
        while i < self.tokens.len()
            invariant
                i <= self.tokens.len(),
                all == self.tokens.deep_view(),
                keep == wanted(holder.deep_view(), prev),
                ids@ == all.take(i as int).filter(keep).map_values(
                    |token: (u128, TokenView)| token.0,
                ),
            decreases self.tokens.len() - i,
        {
            let ghost before = ids@;
            proof {
                reveal(Seq::filter);
                assert(all.take(i as int + 1).drop_last() =~= all.take(i as int));
                assert(all.take(i as int + 1).last() == self.tokens[i as int]@);
            }
            let held = match holder {
                Some(account) => self.tokens[i].owner.same(account),
                None => true,
            };
            let above = match prev {
                Some(last) => self.tokens[i].id > last,
                None => true,
            };
            if held && above {
                ids.push(self.tokens[i].id);
                assert(ids@ =~= all.take(i as int + 1).filter(keep).map_values(
                    |token: (u128, TokenView)| token.0,
                ));
            } else {
                assert(ids@ =~= all.take(i as int + 1).filter(keep).map_values(
                    |token: (u128, TokenView)| token.0,
                ));
            }
            i += 1;
        }
        assert(all.take(self.tokens.len() as int) =~= all);
        if amount < ids.len() as u128 {
            ids.truncate(amount as usize);
        }
        ids
    }
}

/// The ids of the tokens above `prev`, in ascending order: as many as
/// [`take_amount`] says.
pub fn icrc7_tokens(registry: &Registry, prev: Option<u128>, take: Option<u128>) -> (ids: Vec<u128>)
    ensures
        ids@ == first_ids(listed_ids(registry@.tokens, None, prev), take_amount(registry@, take)),
{
    registry.list(None, prev, take)
}

/// The ids of the tokens of an account above `prev`, in ascending order:
/// as many as [`take_amount`] says.
pub fn icrc7_tokens_of(
    registry: &Registry,
    account: Account,
    prev: Option<u128>,
    take: Option<u128>,
) -> (ids: Vec<u128>)
    ensures
        ids@ == first_ids(
            listed_ids(registry@.tokens, Some(account@), prev),
            take_amount(registry@, take),
        ),
{
    registry.list(Some(&account), prev, take)
}

/// How many tokens each of the accounts owns, one answer for each account.
pub fn icrc7_balance_of(registry: &Registry, accounts: &Vec<Account>) -> (balances: Vec<u128>)
    ensures
        balances.len() == accounts.len(),
        forall|i: int|
            0 <= i < accounts.len() ==> (#[trigger] balances[i]) == listed_ids(
                registry@.tokens,
                Some(accounts[i]@),
                None,
            ).len(),
{
    let mut balances: Vec<u128> = Vec::new();
    let mut i: usize = 0;
    while i < accounts.len()
        invariant
            i <= accounts.len(),
            balances.len() == i,
            forall|j: int|
                0 <= j < i ==> (#[trigger] balances[j]) == listed_ids(
                    registry@.tokens,
                    Some(accounts[j]@),
                    None,
                ).len(),
        decreases accounts.len() - i,
    {
        balances.push(registry.count(&accounts[i]));
        i += 1;
    }
    balances
}

impl Registry {
    /// How many tokens an account owns.
    fn count(&self, account: &Account) -> (owned: u128)
        ensures
            owned == listed_ids(self@.tokens, Some(account@), None).len(),
    {
        let ghost all = self.tokens.deep_view();
        let ghost keep = wanted(Some(account@), None);
        let mut owned: usize = 0;
        let mut i: usize = 0;
        assert(all.take(0) =~= Seq::<(u128, TokenView)>::empty());
        while i < self.tokens.len()
            invariant
                i <= self.tokens.len(),
                all == self.tokens.deep_view(),
                keep == wanted(Some(account@), None),
                owned <= i,
                owned == all.take(i as int).filter(keep).len(),
            decreases self.tokens.len() - i,
        {
            proof {
                reveal(Seq::filter);
                assert(all.take(i as int + 1).drop_last() =~= all.take(i as int));
                assert(all.take(i as int + 1).last() == self.tokens[i as int]@);
            }
            if self.tokens[i].owner.same(account) {
                owned += 1;
            }
            i += 1;
        }
        assert(all.take(self.tokens.len() as int) =~= all);
        owned as u128
    }
}

/// A page of the log, oldest entry first: the page `page_number`, counted
/// from 0, of pages of `page_size` entries.
pub fn icrc7_txn_logs(registry: &Registry, page_number: u32, page_size: u32) -> (entries: Vec<
    Transaction,
>)
    ensures
        entries.deep_view() == page(
            registry@.log,
            (page_number * page_size) as nat,
            page_size as nat,
        ),
{
    let ghost log = registry.log.deep_view();
    let ghost expected = page(log, (page_number * page_size) as nat, page_size as nat);
    assert(page_number * page_size <= 0xffff_ffff * 0xffff_ffff) by (nonlinear_arith)
        requires
            page_number <= 0xffff_ffff,
            page_size <= 0xffff_ffff,
    ;
    let offset: u64 = (page_number as u64) * (page_size as u64);
    let length: u64 = registry.log.len() as u64;
    let start: u64 = if offset < length {
        offset
    } else {
        length
    };
    let end: u64 = if (start as u128) + (page_size as u128) < length as u128 {
        start + page_size as u64
    } else {
        length
    };
    let mut entries: Vec<Transaction> = Vec::new();
    let mut i: usize = start as usize;
    while i < end as usize
        invariant
            start <= i <= end <= registry.log.len(),
            log == registry.log.deep_view(),
            entries.len() == i - start,
            forall|j: int| 0 <= j < entries.len() ==> (#[trigger] entries[j])@ == log[start + j],
        decreases end - i,
    {
        entries.push(registry.log[i].clone());
        i += 1;
    }
    assert(entries.deep_view() =~= expected);
    entries
}

/// A token as a registry hands it out to be kept elsewhere.
#[derive(Debug, PartialEq, Eq)]
pub struct TokenRecord {
    pub id: u128,
    pub owner: Account,
    pub metadata: Icrc7TokenMetadata,
}

impl DeepView for TokenRecord {
    type V = (u128, TokenView);

    open spec fn deep_view(&self) -> (u128, TokenView) {
        (self.id, TokenView { owner: self.owner@, metadata: self.metadata@ })
    }
}

/// All that a registry holds, to be kept elsewhere and taken up again.
#[derive(Debug, PartialEq, Eq)]
pub struct RegistrySnapshot {
    pub owner: Address,
    pub config: InitArg,
    pub tokens: Vec<TokenRecord>,
    pub log: Vec<Transaction>,
}

impl View for RegistrySnapshot {
    type V = RegistryView;

    open spec fn view(&self) -> RegistryView {
        RegistryView {
            tokens: self.tokens.deep_view(),
            log: self.log.deep_view(),
            ..initial_registry(self.owner@, self.config@)
        }
    }
}

impl Registry {
    /// All that the registry holds.
    pub fn snapshot(&self) -> (kept: RegistrySnapshot)
        ensures
            kept@ == self@,
    {
        let mut tokens: Vec<TokenRecord> = Vec::new();
        let mut i: usize = 0;
        while i < self.tokens.len()
            invariant
                i <= self.tokens.len(),
                tokens.len() == i,
                forall|j: int| 0 <= j < i ==> (#[trigger] tokens[j]).deep_view() == self.tokens[j]@,
            decreases self.tokens.len() - i,
        {
            let token = self.tokens[i].clone();
            tokens.push(TokenRecord { id: token.id, owner: token.owner, metadata: token.metadata });
            i += 1;
        }
        assert(tokens.deep_view() =~= self.tokens.deep_view());
        let log = self.log.clone();
        assert(log.deep_view() =~= self.log.deep_view());
        RegistrySnapshot {
            owner: self.owner.clone(),
            config: InitArg {
                minting_account: copy_account(&self.minting_authority),
                icrc7_symbol: self.symbol.clone(),
                icrc7_name: self.name.clone(),
                icrc7_description: copy_text(&self.description),
                icrc7_logo: copy_text(&self.logo),
                icrc7_supply_cap: self.supply_cap,
                icrc7_max_query_batch_size: self.max_query_batch_size,
                icrc7_max_update_batch_size: self.max_update_batch_size,
                icrc7_max_take_value: self.max_take_value,
                icrc7_default_take_value: self.default_take_value,
                icrc7_max_memo_size: self.max_memo_size,
                icrc7_atomic_batch_transfers: self.atomic_batch_transfers,
                tx_window: self.tx_window,
                permitted_drift: self.permitted_drift,
            },
            tokens,
            log,
        }
    }

    /// The registry that holds what was kept; `None` where the ids of the
    /// tokens kept do not go up strictly.
    pub fn restore(kept: RegistrySnapshot) -> (restored: Option<Registry>)
        ensures
            match restored {
                Some(registry) => registry.wf() && registry@ == kept@,
                None => !ascending(kept@.tokens),
            },
    {
        let ghost records = kept.tokens.deep_view();
        let mut i: usize = 1;
        while i < kept.tokens.len()
            invariant
                1 <= i,
                records == kept.tokens.deep_view(),
                forall|a: int, b: int| 0 <= a < b < i && b < records.len() ==> records[a].0
                    < records[b].0,
            decreases kept.tokens.len() - i,
        {
            if kept.tokens[i - 1].id >= kept.tokens[i].id {
                assert(records[i - 1].0 >= records[i as int].0);
                return None;
            }
            assert forall|a: int, b: int| 0 <= a < b < i + 1 && b < records.len() implies records[a].0
                < records[b].0 by {
                if b == i && a < i - 1 {
                    assert(records[a].0 < records[i - 1].0);
                }
            }
            i += 1;
        }
        let RegistrySnapshot { owner, config, tokens: records_kept, log } = kept;
        let mut tokens: Vec<Token> = Vec::new();
        let mut k: usize = 0;
        while k < records_kept.len()
            invariant
                k <= records_kept.len(),
                tokens.len() == k,
                records == records_kept.deep_view(),
                forall|j: int| 0 <= j < k ==> (#[trigger] tokens[j])@ == records[j],
            decreases records_kept.len() - k,
        {
            let record = &records_kept[k];
            tokens.push(
                Token {
                    id: record.id,
                    owner: record.owner.clone(),
                    metadata: Icrc7TokenMetadata {
                        name: copy_text(&record.metadata.name),
                        description: copy_text(&record.metadata.description),
                        logo: copy_text(&record.metadata.logo),
                        privilege_code: record.metadata.privilege_code,
                    },
                },
            );
            k += 1;
        }
        assert(tokens.deep_view() =~= records);
        Some(
            Registry {
                owner,
                minting_authority: config.minting_account,
                symbol: config.icrc7_symbol,
                name: config.icrc7_name,
                description: config.icrc7_description,
                logo: config.icrc7_logo,
                supply_cap: config.icrc7_supply_cap,
                max_query_batch_size: config.icrc7_max_query_batch_size,
                max_update_batch_size: config.icrc7_max_update_batch_size,
                default_take_value: config.icrc7_default_take_value,
                max_take_value: config.icrc7_max_take_value,
                max_memo_size: config.icrc7_max_memo_size,
                atomic_batch_transfers: config.icrc7_atomic_batch_transfers,
                tx_window: config.tx_window,
                permitted_drift: config.permitted_drift,
                tokens,
                log,
            },
        )
    }
}

} // verus!
