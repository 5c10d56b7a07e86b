//! Buying a token: the sale record is looked up and the price worked out,
//! the buyer's funds are checked, the payment is made, the registry hands the
//! token over, and the sale record passes to the buyer.
//!
//! The remote calls are made by the caller of this module. Each function
//! here takes the outcome of one call and says which call comes next.
//!
//! While a purchase is under way the marketplace keeps a record of it, with
//! the stage it has reached. The record reserves the token, so that no
//! second purchase of it can begin. A purchase that stops after the payment
//! leaves its record behind, for the buyer is owed the token or the price;
//! such a record is taken up again or given up by hand.

use crate::address::{principal_of_text, Address};
use crate::market::{
    insert_nft_record, pending_record, sale_key, stored_pending, stored_sale, Marketplace,
    PendingEntry, PendingPurchase, PendingPurchaseView, PurchaseStage, SaleValue,
};
use crate::pricing::{get_discount, listed_price};
use crate::entries::{put, without};
use crate::store::sale_key_order;
use crate::types::{
    principal_account, Account, AccountView, IcrcTransferArg, IcrcTransferArgView,
    OwnersDoubleKeyView, PurchaseError, PurchaseErrorView, TransferArgs, TransferError,
    TransferErrorView,
};
use vstd::prelude::*;

verus! {

/// The bytes of the address of the payment ledger.
pub open spec fn ledger_bytes() -> Seq<u8> {
    seq![0u8, 0u8, 0u8, 0u8, 0u8, 0u8, 0u8, 2u8, 1u8, 1u8]
}

/// Reads `ic_ledger_types::MAINNET_LEDGER_CANISTER_ID`. Trusted: the bytes
/// of that constant.
#[verifier::external_body]
fn read_ledger_bytes() -> (bytes: Vec<u8>)
    ensures
        bytes@ == ledger_bytes(),
{
    ic_ledger_types::MAINNET_LEDGER_CANISTER_ID.as_slice().to_vec()
}

/// The address of the payment ledger.
pub fn payment_ledger() -> (ledger: Address)
    ensures
        ledger@ == ledger_bytes(),
{
    let bytes = read_ledger_bytes();
    assert(bytes@.len() == 10);
    match Address::from_bytes(bytes) {
        Some(ledger) => ledger,
        None => Address::anonymous(),
    }
}

/// The seller of a token and the price asked of a buyer at time `now`: the
/// token must have a sale record, be for sale and carry a price; the price
/// is the listed one, less the creator's discount.
pub open spec fn quoted(market: Marketplace, registry: Seq<u8>, token: u64, now: u64) -> Result<
    (Seq<u8>, nat),
    PurchaseErrorView,
> {
    match market.sale(registry, token) {
        None => Err(PurchaseErrorView::NotFound),
        Some(record) => if !record.on_sale {
            Err(PurchaseErrorView::NotOnSale)
        } else {
            match record.price {
                None => Err(PurchaseErrorView::PriceMissing),
                Some(base) => match listed_price(market, base, registry, record.owner, now) {
                    Ok(price) => Ok((record.owner, price)),
                    Err(error) => Err(error),
                },
            }
        },
    }
}

/// The token id that a request names, where it is one.
pub open spec fn requested_token(tkn_id: u128) -> Option<u64> {
    if tkn_id <= u64::MAX {
        Some(tkn_id as u64)
    } else {
        None
    }
}

/// A purchase as the proofs see it.
pub struct DealView {
    pub registry: Seq<u8>,
    pub token: u64,
    pub buyer: Seq<u8>,
    pub seller: Seq<u8>,
    pub price: nat,
}

impl DealView {
    /// The key of the token's sale record.
    pub open spec fn key(self) -> OwnersDoubleKeyView {
        sale_key((self.registry, self.token))
    }

    /// The payment that the purchase asks of the ledger.
    pub open spec fn payment(self) -> PaymentRequestView {
        PaymentRequestView {
            from: principal_account(self.buyer),
            to: principal_account(self.seller),
            amount: self.price,
        }
    }

    /// The transfer that the purchase asks of the registry.
    pub open spec fn delivery(self) -> IcrcTransferArgView {
        IcrcTransferArgView {
            from_subaccount: None,
            to: principal_account(self.buyer),
            token_id: self.token as u128,
            memo: None,
            created_at_time: None,
        }
    }
}

/// What the sale index holds of a token once it is bought: the buyer has
/// it, and it is not for sale.
pub open spec fn bought(deal: DealView) -> SaleValue {
    stored_sale(deal.buyer, None, false)
}

/// The index of purchases under way with this purchase at a stage.
pub open spec fn staged(entries: Seq<PendingEntry>, deal: DealView, stage: PurchaseStage) -> Seq<
    PendingEntry,
> {
    put(
        entries,
        sale_key_order(),
        (deal.registry, deal.token),
        stored_pending(deal.buyer, deal.seller, deal.price as u128, stage),
    )
}

/// The index of purchases under way without this purchase.
pub open spec fn released(entries: Seq<PendingEntry>, deal: DealView) -> Seq<PendingEntry> {
    without(entries, (deal.registry, deal.token))
}

/// The purchase that a record stands for.
pub open spec fn recorded_deal(registry: Seq<u8>, token: u64, record: PendingPurchaseView) -> DealView {
    DealView {
        registry,
        token,
        buyer: record.buyer,
        seller: record.seller,
        price: record.price as nat,
    }
}

struct Deal {
    registry: Address,
    token: u64,
    buyer: Address,
    seller: Address,
    price: u128,
}

impl View for Deal {
    type V = DealView;

    closed spec fn view(&self) -> DealView {
        DealView {
            registry: self.registry@,
            token: self.token,
            buyer: self.buyer@,
            seller: self.seller@,
            price: self.price as nat,
        }
    }
}

/// A payment from the buyer to the seller, to be made by the marketplace on
/// the buyer's behalf.
#[derive(Debug, PartialEq, Eq)]
pub struct PaymentRequest {
    pub from: Account,
    pub to: Account,
    pub amount: u128,
}

pub struct PaymentRequestView {
    pub from: AccountView,
    pub to: AccountView,
    pub amount: nat,
}

impl View for PaymentRequest {
    type V = PaymentRequestView;

    open spec fn view(&self) -> PaymentRequestView {
        PaymentRequestView { from: self.from@, to: self.to@, amount: self.amount as nat }
    }
}

/// What a finished purchase reports.
#[derive(Debug, PartialEq, Eq)]
pub struct Receipt {
    pub token: u64,
    pub seller: Address,
    pub buyer: Address,
}

pub struct ReceiptView {
    pub token: u64,
    pub seller: Seq<u8>,
    pub buyer: Seq<u8>,
}

impl View for Receipt {
    type V = ReceiptView;

    open spec fn view(&self) -> ReceiptView {
        ReceiptView { token: self.token, seller: self.seller@, buyer: self.buyer@ }
    }
}

/// A purchase that waits for the buyer's balance and the ledger's fee.
pub struct Funding {
    deal: Deal,
}

/// A purchase that waits for the outcome of the payment.
pub struct Paying {
    deal: Deal,
}

/// A purchase that is paid and waits for the registry to hand the token
/// over.
pub struct Delivering {
    deal: Deal,
}

impl View for Funding {
    type V = DealView;

    closed spec fn view(&self) -> DealView {
        self.deal@
    }
}

impl View for Paying {
    type V = DealView;

    closed spec fn view(&self) -> DealView {
        self.deal@
    }
}

impl View for Delivering {
    type V = DealView;

    closed spec fn view(&self) -> DealView {
        self.deal@
    }
}

/// What a purchase does once the buyer's funds are known.
pub enum Funded {
    /// Ask the ledger for the payment of this state.
    Pay(Paying),
    /// The purchase has stopped and nothing has changed hands.
    Aborted(PurchaseError),
}

pub enum FundedView {
    Pay(DealView),
    Aborted(PurchaseErrorView),
}

impl View for Funded {
    type V = FundedView;

    open spec fn view(&self) -> FundedView {
        match *self {
            Funded::Pay(state) => FundedView::Pay(state@),
            Funded::Aborted(error) => FundedView::Aborted(error@),
        }
    }
}

/// What a purchase does once the outcome of the payment is known.
pub enum Paid {
    /// Ask the registry for the transfer of this state.
    Deliver(Delivering),
    /// The purchase has stopped and nothing has changed hands.
    Aborted(PurchaseError),
}

pub enum PaidView {
    Deliver(DealView),
    Aborted(PurchaseErrorView),
}

impl View for Paid {
    type V = PaidView;

    open spec fn view(&self) -> PaidView {
        match *self {
            Paid::Deliver(state) => PaidView::Deliver(state@),
            Paid::Aborted(error) => PaidView::Aborted(error@),
        }
    }
}

/// How a purchase ends.
pub enum Delivered {
    /// The token is paid for and handed over.
    Completed(Receipt),
    /// The buyer has paid and has not got the token.
    RefundDue(PurchaseError),
}

pub enum DeliveredView {
    Completed(ReceiptView),
    RefundDue(PurchaseErrorView),
}

impl View for Delivered {
    type V = DeliveredView;

    open spec fn view(&self) -> DeliveredView {
        match *self {
            Delivered::Completed(receipt) => DeliveredView::Completed(receipt@),
            Delivered::RefundDue(error) => DeliveredView::RefundDue(error@),
        }
    }
}

/// The error with which a registry's silence about a transfer is reported.
pub open spec fn silent_transfer() -> TransferErrorView {
    TransferErrorView::GenericError { error_code: 400, message: ("error in transfering NFT")@ }
}

/// What the registry's answer says of the one transfer asked of it: the
/// first result counts, and an answer without one is a refusal.
pub open spec fn delivery_outcome(results: Seq<Option<Result<u128, TransferError>>>) -> Result<
    (),
    TransferErrorView,
> {
    if results.len() == 0 {
        Err(silent_transfer())
    } else {
        match results[0] {
            Some(Ok(_)) => Ok(()),
            Some(Err(error)) => Err(error@),
            None => Err(silent_transfer()),
        }
    }
}

/// Why a purchase that is paid does not end with the token handed over, or
/// `None` where it does: the registry gave no answer, or its answer is a
/// refusal.
pub open spec fn delivery_failure(
    answer: Result<Vec<Option<Result<u128, TransferError>>>, String>,
) -> Option<PurchaseErrorView> {
    match answer {
        Err(message) => Some(PurchaseErrorView::RegistryUnreachable { message: message@ }),
        Ok(results) => match delivery_outcome(results@) {
            Ok(_) => None,
            Err(error) => Some(PurchaseErrorView::TransferRefused { error }),
        },
    }
}

/// Looks up a token and works out what a buyer pays for it at time `now`.
/// Gives the seller and the price.
pub fn quote(market: &Marketplace, registry: &Address, token: u64, now: u64) -> (found: Result<
    (Address, u128),
    PurchaseError,
>)
    ensures
        match found {
            Ok((seller, price)) => quoted(*market, registry@, token, now) == Ok::<
                (Seq<u8>, nat),
                PurchaseErrorView,
            >((seller@, price as nat)),
            Err(error) => quoted(*market, registry@, token, now) == Err::<
                (Seq<u8>, nat),
                PurchaseErrorView,
            >(error@),
        },
{
    match market.find_sale(registry, token) {
        None => Err(PurchaseError::NotFound),
        Some(record) => {
            if !record.on_sale {
                return Err(PurchaseError::NotOnSale);
            }
            match record.price {
                None => Err(PurchaseError::PriceMissing),
                Some(base) => match get_discount(market, base, registry, &record.owner, now) {
                    Ok(price) => Ok((record.owner, price)),
                    Err(error) => Err(error),
                },
            }
        },
    }
}

/// Whether a balance covers a price and the ledger's fee. Gives what the
/// buyer pays in all: the price and the fee.
pub fn settle(price: u128, balance: u128, fee: u128) -> (due: Result<u128, PurchaseError>)
    ensures
        match due {
            Ok(total) => total == price + fee && price + fee <= balance,
            Err(error) => error@ == PurchaseErrorView::InsufficientBalance && price + fee
                > balance,
        },
{
    match price.checked_add(fee) {
        Some(total) => if total <= balance {
            Ok(total)
        } else {
            Err(PurchaseError::InsufficientBalance)
        },
        None => Err(PurchaseError::InsufficientBalance),
    }
}

/// What a buyer would pay for a token, before the ledger's fee.
#[derive(Debug, PartialEq, Eq)]
pub struct Quote {
    pub buyer: Address,
    pub seller: Address,
    pub price: u128,
}

/// The buyer that a balance check is made for: the address that the text
/// names, or the caller where no text is given.
pub open spec fn named_buyer(owner: Option<Seq<char>>, caller: Seq<u8>) -> Option<Seq<u8>> {
    match owner {
        Some(text) => principal_of_text(text),
        None => Some(caller),
    }
}

/// Works out what `buyer` would pay for a token at time `now`.
pub fn check_balance_of(
    market: &Marketplace,
    buyer: Address,
    tkn_id: u64,
    registry: &Address,
    now: u64,
) -> (found: Result<Quote, PurchaseError>)
    ensures
        match found {
            Ok(q) => q.buyer@ == buyer@ && quoted(*market, registry@, tkn_id, now) == Ok::<
                (Seq<u8>, nat),
                PurchaseErrorView,
            >((q.seller@, q.price as nat)),
            Err(error) => quoted(*market, registry@, tkn_id, now) == Err::<
                (Seq<u8>, nat),
                PurchaseErrorView,
            >(error@),
        },
{
    match quote(market, registry, tkn_id, now) {
        Ok((seller, price)) => Ok(Quote { buyer, seller, price }),
        Err(error) => Err(error),
    }
}

/// Works out what a buyer would pay for a token at time `now`. The buyer is
/// the address that `owner` names, or the caller; the registry is named by
/// `collection_id`. A text that names no address is an error.
pub fn check_balance(
    market: &Marketplace,
    owner: Option<String>,
    tkn_id: u64,
    collection_id: &str,
    caller: Address,
    now: u64,
) -> (found: Result<Quote, PurchaseError>)
    ensures
        match (named_buyer(owner.deep_view(), caller@), principal_of_text(collection_id@)) {
            (Some(buyer), Some(registry)) => match found {
                Ok(q) => q.buyer@ == buyer && quoted(*market, registry, tkn_id, now) == Ok::<
                    (Seq<u8>, nat),
                    PurchaseErrorView,
                >((q.seller@, q.price as nat)),
                Err(error) => quoted(*market, registry, tkn_id, now) == Err::<
                    (Seq<u8>, nat),
                    PurchaseErrorView,
                >(error@),
            },
            _ => found matches Err(error) && error@ == PurchaseErrorView::InvalidAddress,
        },
{
    let buyer = match owner {
        Some(text) => match Address::from_text(text.as_str()) {
            Some(named) => named,
            None => {
                return Err(PurchaseError::InvalidAddress);
            },
        },
        None => caller,
    };
    match Address::from_text(collection_id) {
        Some(registry) => check_balance_of(market, buyer, tkn_id, &registry, now),
        None => Err(PurchaseError::InvalidAddress),
    }
}

/// The purchase that begins when `buyer` asks for a token at time `now`, or
/// the reason for which none begins: [`quoted`] must give a seller and a
/// price, and no other purchase may have reserved the token.
pub open spec fn beginning(
    market: Marketplace,
    registry: Seq<u8>,
    token: u64,
    buyer: Seq<u8>,
    now: u64,
) -> Result<DealView, PurchaseErrorView> {
    match quoted(market, registry, token, now) {
        Err(error) => Err(error),
        Ok((seller, price)) => if market.is_reserved(registry, token) {
            Err(PurchaseErrorView::Reserved)
        } else {
            Ok(DealView { registry, token, buyer, seller, price })
        },
    }
}

/// The purchase that begins when `buyer` sends a request at time `now`, or
/// the reason for which none begins: the request must name a registry; a
/// number that is no token id finds no token; then as [`beginning`] says.
pub open spec fn requested(
    market: Marketplace,
    collection_id: Seq<char>,
    tkn_id: u128,
    buyer: Seq<u8>,
    now: u64,
) -> Result<DealView, PurchaseErrorView> {
    match principal_of_text(collection_id) {
        None => Err(PurchaseErrorView::InvalidAddress),
        Some(registry) => match requested_token(tkn_id) {
            None => Err(PurchaseErrorView::NotFound),
            Some(token) => beginning(market, registry, token, buyer, now),
        },
    }
}

/// Begins the purchase of a token by `buyer` at time `now`.
///
/// Where [`beginning`] gives a purchase, it is recorded as initiated, which
/// reserves the token. Else nothing changes. The two indexes are left as
/// they are.
pub fn begin_purchase(
    market: &mut Marketplace,
    registry: &Address,
    token: u64,
    buyer: Address,
    now: u64,
) -> (begun: Result<Funding, PurchaseError>)
    ensures
        final(market).sale_entries() == old(market).sale_entries(),
        final(market).collection_entries() == old(market).collection_entries(),
        match beginning(*old(market), registry@, token, buyer@, now) {
            Ok(deal) => {
                &&& begun matches Ok(state) && state@ == deal
                &&& final(market).pending_entries() == staged(
                    old(market).pending_entries(),
                    deal,
                    PurchaseStage::Initiated,
                )
            },
            Err(error) => {
                &&& begun matches Err(e) && e@ == error
                &&& final(market).pending_entries() == old(market).pending_entries()
            },
        },
{
    match quote(market, registry, token, now) {
        Err(error) => Err(error),
        Ok((seller, price)) => {
            if market.holds_reserved(registry, token) {
                return Err(PurchaseError::Reserved);
            }
            let record = PendingPurchase { buyer, seller, price, stage: PurchaseStage::Initiated };
            market.write_pending(registry, token, &record);
            Ok(
                Funding {
                    deal: Deal {
                        registry: registry.clone(),
                        token,
                        buyer: record.buyer,
                        seller: record.seller,
                        price,
                    },
                },
            )
        },
    }
}

/// Begins the purchase that `args` asks for, by `caller` at time `now`.
///
/// Where [`requested`] gives a purchase, it is recorded as initiated, which
/// reserves the token. Else nothing changes. The two indexes are left as
/// they are.
pub fn transfer_nft(
    market: &mut Marketplace,
    args: &TransferArgs,
    caller: Address,
    now: u64,
) -> (begun: Result<Funding, PurchaseError>)
    ensures
        final(market).sale_entries() == old(market).sale_entries(),
        final(market).collection_entries() == old(market).collection_entries(),
        match requested(*old(market), args.collection_id@, args.tkn_id, caller@, now) {
            Ok(deal) => {
                &&& begun matches Ok(state) && state@ == deal
                &&& final(market).pending_entries() == staged(
                    old(market).pending_entries(),
                    deal,
                    PurchaseStage::Initiated,
                )
            },
            Err(error) => {
                &&& begun matches Err(e) && e@ == error
                &&& final(market).pending_entries() == old(market).pending_entries()
            },
        },
{
    match Address::from_text(args.collection_id.as_str()) {
        None => Err(PurchaseError::InvalidAddress),
        Some(registry) => {
            if args.tkn_id > u64::MAX as u128 {
                return Err(PurchaseError::NotFound);
            }
            begin_purchase(market, &registry, args.tkn_id as u64, caller, now)
        },
    }
}

impl Deal {
    fn record(&self, stage: PurchaseStage) -> (record: PendingPurchase)
        ensures
            record@ == (PendingPurchaseView {
                buyer: self@.buyer,
                seller: self@.seller,
                price: self@.price as u128,
                stage,
            }),
    {
        PendingPurchase {
            buyer: self.buyer.clone(),
            seller: self.seller.clone(),
            price: self.price,
            stage,
        }
    }
}

impl Funding {
    /// The buyer, whose balance is to be asked of the ledger.
    pub fn buyer(&self) -> (account: Account)
        ensures
            account@ == principal_account(self@.buyer),
    {
        Account::of(self.deal.buyer.clone())
    }

    /// Takes the buyer's balance and the ledger's fee, or the reason for
    /// which the ledger did not give them.
    ///
    /// Where the balance covers the price and the fee, the payment comes
    /// next. Else the purchase is given up and its record dropped. The two
    /// indexes are left as they are.
    pub fn funded(self, market: &mut Marketplace, funds: Result<(u128, u128), String>) -> (step:
        Funded)
        ensures
            final(market).sale_entries() == old(market).sale_entries(),
            final(market).collection_entries() == old(market).collection_entries(),
            match funds {
                Ok((balance, fee)) => if self@.price + fee <= balance {
                    &&& step@ == FundedView::Pay(self@)
                    &&& final(market).pending_entries() == old(market).pending_entries()
                } else {
                    &&& step@ == FundedView::Aborted(PurchaseErrorView::InsufficientBalance)
                    &&& final(market).pending_entries() == released(
                        old(market).pending_entries(),
                        self@,
                    )
                },
                Err(message) => {
                    &&& step@ == FundedView::Aborted(
                        PurchaseErrorView::LedgerUnreachable { message: message@ },
                    )
                    &&& final(market).pending_entries() == released(
                        old(market).pending_entries(),
                        self@,
                    )
                },
            },
    {
        match funds {
            Err(message) => {
                market.drop_pending(&self.deal.registry, self.deal.token);
                Funded::Aborted(PurchaseError::LedgerUnreachable { message })
            },
            Ok((balance, fee)) => match settle(self.deal.price, balance, fee) {
                Ok(_) => Funded::Pay(Paying { deal: self.deal }),
                Err(error) => {
                    market.drop_pending(&self.deal.registry, self.deal.token);
                    Funded::Aborted(error)
                },
            },
        }
    }
}

impl Paying {
    /// The payment to ask of the ledger: the price, from the buyer to the
    /// seller.
    pub fn request(&self) -> (payment: PaymentRequest)
        ensures
            payment@ == self@.payment(),
    {
        PaymentRequest {
            from: Account::of(self.deal.buyer.clone()),
            to: Account::of(self.deal.seller.clone()),
            amount: self.deal.price,
        }
    }

    /// Takes the outcome of the payment.
    ///
    /// After a payment the purchase is recorded as paid, and the registry's
    /// transfer comes next. A refusal gives the purchase up and drops its
    /// record. The two indexes are left as they are.
    pub fn paid(self, market: &mut Marketplace, outcome: Result<u128, String>) -> (step: Paid)
        ensures
            final(market).sale_entries() == old(market).sale_entries(),
            final(market).collection_entries() == old(market).collection_entries(),
            match outcome {
                Ok(_) => {
                    &&& step@ == PaidView::Deliver(self@)
                    &&& final(market).pending_entries() == staged(
                        old(market).pending_entries(),
                        self@,
                        PurchaseStage::Paid,
                    )
                },
                Err(message) => {
                    &&& step@ == PaidView::Aborted(
                        PurchaseErrorView::PaymentRefused { message: message@ },
                    )
                    &&& final(market).pending_entries() == released(
                        old(market).pending_entries(),
                        self@,
                    )
                },
            },
    {
        match outcome {
            Ok(_) => {
                let record = self.deal.record(PurchaseStage::Paid);
                market.write_pending(&self.deal.registry, self.deal.token, &record);
                Paid::Deliver(Delivering { deal: self.deal })
            },
            Err(message) => {
                market.drop_pending(&self.deal.registry, self.deal.token);
                Paid::Aborted(PurchaseError::PaymentRefused { message })
            },
        }
    }
}

impl Delivering {
    /// The registry to ask for the transfer.
    pub fn registry(&self) -> (registry: Address)
        ensures
            registry@ == self@.registry,
    {
        self.deal.registry.clone()
    }

    /// The seller, in whose name the transfer is asked for.
    pub fn seller(&self) -> (seller: Address)
        ensures
            seller@ == self@.seller,
    {
        self.deal.seller.clone()
    }

    /// The transfer to ask of the registry: the token, to the buyer.
    pub fn request(&self) -> (transfer: IcrcTransferArg)
        ensures
            transfer@ == self@.delivery(),
    {
        IcrcTransferArg {
            from_subaccount: None,
            to: Account::of(self.deal.buyer.clone()),
            token_id: self.deal.token as u128,
            memo: None,
            created_at_time: None,
        }
    }

    /// Takes the registry's answer, or the reason for which it gave none.
    ///
    /// After a transfer the sale record passes to the buyer, without a
    /// price and not for sale, and the purchase's record is dropped. After a
    /// refusal, or without an answer, the sale record stays and the purchase
    /// is recorded as waiting for a refund: the payment was made. The
    /// collection index is left as it is.
    pub fn delivered(
        self,
        market: &mut Marketplace,
        answer: Result<Vec<Option<Result<u128, TransferError>>>, String>,
    ) -> (step: Delivered)
        ensures
            final(market).collection_entries() == old(market).collection_entries(),
            old(market).sales_well_formed() ==> final(market).sales_well_formed(),
            match delivery_failure(answer) {
                None => {
                    &&& step@ == DeliveredView::Completed(
                        ReceiptView { token: self@.token, seller: self@.seller, buyer: self@.buyer },
                    )
                    &&& final(market).sale_entries() == put(
                        old(market).sale_entries(),
                        sale_key_order(),
                        (self@.registry, self@.token),
                        bought(self@),
                    )
                    &&& final(market).pending_entries() == released(
                        old(market).pending_entries(),
                        self@,
                    )
                },
                Some(error) => {
                    &&& step@ == DeliveredView::RefundDue(error)
                    &&& final(market).sale_entries() == old(market).sale_entries()
                    &&& final(market).pending_entries() == staged(
                        old(market).pending_entries(),
                        self@,
                        PurchaseStage::RefundPending,
                    )
                },
            },
    {
        let failure = match answer {
            Err(message) => Some(PurchaseError::RegistryUnreachable { message }),
            Ok(results) => {
                if results.len() == 0 {
                    Some(PurchaseError::TransferRefused { error: silent_error() })
                } else {
                    match &results[0] {
                        Some(Ok(_)) => None,
                        Some(Err(error)) => Some(
                            PurchaseError::TransferRefused { error: error.clone() },
                        ),
                        None => Some(PurchaseError::TransferRefused { error: silent_error() }),
                    }
                }
            },
        };
        match failure {
            Some(error) => {
                let record = self.deal.record(PurchaseStage::RefundPending);
                market.write_pending(&self.deal.registry, self.deal.token, &record);
                Delivered::RefundDue(error)
            },
            None => {
                market.drop_pending(&self.deal.registry, self.deal.token);
                insert_nft_record(
                    market,
                    &self.deal.registry,
                    self.deal.token,
                    &self.deal.buyer,
                    None,
                    false,
                );
                Delivered::Completed(
                    Receipt {
                        token: self.deal.token,
                        seller: self.deal.seller,
                        buyer: self.deal.buyer,
                    },
                )
            },
        }
    }
}

fn silent_error() -> (error: TransferError)
    ensures
        error@ == silent_transfer(),
{
    TransferError::GenericError { error_code: 400, message: "error in transfering NFT".to_owned() }
}

/// Whether the purchase of a record may be taken up again at the transfer:
/// it may once the payment is made.
pub open spec fn resumable(record: PendingPurchaseView) -> bool {
    record.stage == PurchaseStage::Paid || record.stage == PurchaseStage::RefundPending
}

/// Takes a purchase up again whose payment is made and whose token was not
/// handed over: the purchase is recorded as paid, and the registry's
/// transfer comes next. A token without such a record gives `None`, and
/// nothing changes.
pub fn resume_delivery(market: &mut Marketplace, registry: &Address, token: u64) -> (resumed:
    Option<Delivering>)
    ensures
        final(market).collection_entries() == old(market).collection_entries(),
        final(market).sale_entries() == old(market).sale_entries(),
        match old(market).pending(registry@, token) {
            Some(value) => match pending_record(value) {
                Some(record) => if resumable(record) {
                    resumed matches Some(state) && state@ == recorded_deal(
                        registry@,
                        token,
                        record,
                    ) && final(market).pending_entries() == staged(
                        old(market).pending_entries(),
                        state@,
                        PurchaseStage::Paid,
                    )
                } else {
                    resumed is None && final(market).pending_entries() == old(market).pending_entries()
                },
                None => resumed is None && final(market).pending_entries() == old(market).pending_entries(),
            },
            None => resumed is None && final(market).pending_entries() == old(market).pending_entries(),
        },
{
    match market.find_pending(registry, token) {
        None => None,
        Some(record) => {
            let take_up = match record.stage {
                PurchaseStage::Initiated => false,
                PurchaseStage::Paid => true,
                PurchaseStage::RefundPending => true,
            };
            if !take_up {
                return None;
            }
            let deal = Deal {
                registry: registry.clone(),
                token,
                buyer: record.buyer,
                seller: record.seller,
                price: record.price,
            };
            let paid = deal.record(PurchaseStage::Paid);
            market.write_pending(registry, token, &paid);
            Some(Delivering { deal })
        },
    }
}

/// Gives up the purchase under way of a token: its record is dropped, and
/// the token is free. Gives the record that was kept, where it stood for a
/// purchase. What was paid is for the caller to settle.
pub fn abandon_purchase(market: &mut Marketplace, registry: &Address, token: u64) -> (dropped:
    Option<PendingPurchase>)
    ensures
        final(market).collection_entries() == old(market).collection_entries(),
        final(market).sale_entries() == old(market).sale_entries(),
        final(market).pending_entries() == without(
            old(market).pending_entries(),
            (registry@, token),
        ),
        dropped.deep_view() == match old(market).pending(registry@, token) {
            Some(value) => pending_record(value),
            None => None,
        },
{
    let found = market.find_pending(registry, token);
    market.drop_pending(registry, token);
    found
}

} // verus!
