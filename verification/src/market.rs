//! The state of the marketplace orchestrator: the collection index, the sale
//! index, and the index of the purchases under way, which reserves their
//! tokens. All three are kept in stable memory.

use crate::address::{Address, MAX_ADDRESS_BYTES};
use crate::entries::{lemma_put_entries, lemma_read_after_write, lookup, put, without};
use crate::record::{decode_collection, decoded, lemma_bytes_deep_view, storable, store_collection};
use crate::store::{
    collection_entries, collection_key_order, collection_store_entries, collection_store_get,
    collection_store_insert, fresh_stores, pending_entries, pending_store_entries,
    pending_store_get, pending_store_insert, pending_store_remove, sale_entries, sale_key_order,
    sale_store_entries, sale_store_get, sale_store_insert, loaded_stores, CollectionStore,
    PendingStore, SaleStore,
};
use crate::types::{
    CollectionInfo, CollectionInfoView, NftMarketData, NftMarketDataView, OwnersDoubleKey,
    OwnersDoubleKeyView,
};
use vstd::prelude::*;

verus! {

/// A sale record as it is stored: the seller, whether there is a price and
/// the price, and the sale flag.
pub type SaleValue = (Seq<u8>, (bool, u32), bool);

/// An entry of the sale index as it is stored: the key is the registry and
/// the token id.
pub type SaleEntry = ((Seq<u8>, u64), SaleValue);

/// The sale record that a stored value stands for.
pub open spec fn sale_record(value: SaleValue) -> NftMarketDataView {
    NftMarketDataView {
        owner: value.0,
        price: if value.1.0 {
            Some(value.1.1)
        } else {
            None
        },
        on_sale: value.2,
    }
}

/// Whether every sale record of an index carries a price only while it is
/// for sale.
pub open spec fn sales_well_formed(entries: Seq<SaleEntry>) -> bool {
    forall|i: int| 0 <= i < entries.len() ==> sale_record(#[trigger] entries[i].1).wf()
}

/// The value under which a sale record is stored.
pub open spec fn stored_sale(owner: Seq<u8>, price: Option<u32>, on_sale: bool) -> SaleValue {
    (
        owner,
        match price {
            Some(amount) => (true, amount),
            None => (false, 0u32),
        },
        on_sale,
    )
}

/// The key that a stored key stands for.
pub open spec fn sale_key(key: (Seq<u8>, u64)) -> OwnersDoubleKeyView {
    OwnersDoubleKeyView { collection_id: key.0, tkn_id: key.1 }
}

/// How far a purchase has got.
#[derive(Debug, Clone, Copy, PartialEq, Eq, Structural)]
pub enum PurchaseStage {
    /// The token is reserved; nothing is paid.
    Initiated,
    /// The payment is made; the token is yet to be handed over.
    Paid,
    /// The payment is made and the token was not handed over: the buyer is
    /// owed the price.
    RefundPending,
}

/// A purchase under way, as it is kept until it ends.
#[derive(Debug, PartialEq, Eq)]
pub struct PendingPurchase {
    pub buyer: Address,
    pub seller: Address,
    pub price: u128,
    pub stage: PurchaseStage,
}

pub struct PendingPurchaseView {
    pub buyer: Seq<u8>,
    pub seller: Seq<u8>,
    pub price: u128,
    pub stage: PurchaseStage,
}

impl View for PendingPurchase {
    type V = PendingPurchaseView;

    open spec fn view(&self) -> PendingPurchaseView {
        PendingPurchaseView {
            buyer: self.buyer@,
            seller: self.seller@,
            price: self.price,
            stage: self.stage,
        }
    }
}

impl DeepView for PendingPurchase {
    type V = PendingPurchaseView;

    open spec fn deep_view(&self) -> PendingPurchaseView {
        self@
    }
}

/// A purchase under way as it is stored: buyer and seller, the price, and
/// the number of the stage.
pub type PendingValue = ((Seq<u8>, Seq<u8>), u128, u8);

/// An entry of the index of purchases under way as it is stored: the key is
/// the registry and the token id.
pub type PendingEntry = ((Seq<u8>, u64), PendingValue);

/// The number under which a stage is stored.
pub open spec fn stage_code(stage: PurchaseStage) -> u8 {
    match stage {
        PurchaseStage::Initiated => 0,
        PurchaseStage::Paid => 1,
        PurchaseStage::RefundPending => 2,
    }
}

/// The stage that a stored number stands for, if it stands for one.
pub open spec fn stage_of(code: u8) -> Option<PurchaseStage> {
    if code == 0 {
        Some(PurchaseStage::Initiated)
    } else if code == 1 {
        Some(PurchaseStage::Paid)
    } else if code == 2 {
        Some(PurchaseStage::RefundPending)
    } else {
        None
    }
}

/// The value under which a purchase under way is stored.
pub open spec fn stored_pending(
    buyer: Seq<u8>,
    seller: Seq<u8>,
    price: u128,
    stage: PurchaseStage,
) -> PendingValue {
    ((buyer, seller), price, stage_code(stage))
}

/// The purchase that a stored value stands for, if it stands for one.
pub open spec fn pending_record(value: PendingValue) -> Option<PendingPurchaseView> {
    match stage_of(value.2) {
        Some(stage) => Some(
            PendingPurchaseView { buyer: value.0.0, seller: value.0.1, price: value.1, stage },
        ),
        None => None,
    }
}

/// The purchases among the stored entries whose value stands for one, in
/// the order of the entries.
pub open spec fn readable_pending(entries: Seq<PendingEntry>) -> Seq<
    (OwnersDoubleKeyView, PendingPurchaseView),
>
    decreases entries.len(),
{
    if entries.len() == 0 {
        Seq::empty()
    } else {
        let rest = readable_pending(entries.drop_last());
        match pending_record(entries.last().1) {
            Some(purchase) => rest.push((sale_key(entries.last().0), purchase)),
            None => rest,
        }
    }
}

impl PurchaseStage {
    /// The number under which this stage is stored.
    pub fn code(self) -> (code: u8)
        ensures
            code == stage_code(self),
            stage_of(code) == Some(self),
    {
        match self {
            PurchaseStage::Initiated => 0,
            PurchaseStage::Paid => 1,
            PurchaseStage::RefundPending => 2,
        }
    }

    /// The stage that a stored number stands for, if it stands for one.
    pub fn from_code(code: u8) -> (stage: Option<PurchaseStage>)
        ensures
            stage == stage_of(code),
    {
        if code == 0 {
            Some(PurchaseStage::Initiated)
        } else if code == 1 {
            Some(PurchaseStage::Paid)
        } else if code == 2 {
            Some(PurchaseStage::RefundPending)
        } else {
            None
        }
    }
}

/// The collections among the stored entries whose text holds a record, in
/// the order of the entries.
pub open spec fn readable_collections(entries: Seq<(Seq<u8>, Seq<u8>)>) -> Seq<
    (Seq<u8>, CollectionInfoView),
>
    decreases entries.len(),
{
    if entries.len() == 0 {
        Seq::empty()
    } else {
        let rest = readable_collections(entries.drop_last());
        match decoded(entries.last().1) {
            Some(info) => rest.push((entries.last().0, info)),
            None => rest,
        }
    }
}

/// The sale records that the stored entries stand for, in their order.
pub open spec fn sale_records(entries: Seq<SaleEntry>) -> Seq<
    (OwnersDoubleKeyView, NftMarketDataView),
> {
    entries.map_values(|e: SaleEntry| (sale_key(e.0), sale_record(e.1)))
}

/// The state of the marketplace orchestrator.
pub struct Marketplace {
    collections: CollectionStore,
    sales: SaleStore,
    pending: PendingStore,
}

impl Marketplace {
    /// The entries of the collection index, in ascending order of registry
    /// address: each the address and the stored text of the record.
    pub closed spec fn collection_entries(&self) -> Seq<(Seq<u8>, Seq<u8>)> {
        collection_entries(self.collections)
    }

    /// The entries of the sale index, in ascending order of registry
    /// address and token id.
    pub closed spec fn sale_entries(&self) -> Seq<SaleEntry> {
        sale_entries(self.sales)
    }

    /// The entries of the index of purchases under way, in ascending order
    /// of registry address and token id.
    pub closed spec fn pending_entries(&self) -> Seq<PendingEntry> {
        pending_entries(self.pending)
    }

    /// The collection record of a registry, where the index holds one.
    pub open spec fn collection(&self, registry: Seq<u8>) -> Option<CollectionInfoView> {
        match lookup(self.collection_entries(), registry) {
            Some(text) => decoded(text),
            None => None,
        }
    }

    /// The sale record of a token, where the index holds one.
    pub open spec fn sale(&self, registry: Seq<u8>, token: u64) -> Option<NftMarketDataView> {
        match lookup(self.sale_entries(), (registry, token)) {
            Some(value) => Some(sale_record(value)),
            None => None,
        }
    }

    /// The purchase under way of a token, as it is stored, where there is
    /// one.
    pub open spec fn pending(&self, registry: Seq<u8>, token: u64) -> Option<PendingValue> {
        lookup(self.pending_entries(), (registry, token))
    }

    /// Whether every sale record carries a price only while it is for
    /// sale.
    pub open spec fn sales_well_formed(&self) -> bool {
        sales_well_formed(self.sale_entries())
    }

    /// Whether a purchase under way has reserved the token.
    pub open spec fn is_reserved(&self, registry: Seq<u8>, token: u64) -> bool {
        self.pending(registry, token) is Some
    }

    /// A marketplace that holds nothing, in stable memory that it takes
    /// over.
    pub fn new() -> (market: Marketplace)
        ensures
            market.collection_entries() == Seq::<(Seq<u8>, Seq<u8>)>::empty(),
            market.sale_entries() == Seq::<SaleEntry>::empty(),
            market.pending_entries() == Seq::<PendingEntry>::empty(),
    {
        let (collections, sales, pending) = fresh_stores();
        let market = Marketplace { collections, sales, pending };
        assert(market.collection_entries() =~= Seq::<(Seq<u8>, Seq<u8>)>::empty());
        assert(market.sale_entries() =~= Seq::<SaleEntry>::empty());
        assert(market.pending_entries() =~= Seq::<PendingEntry>::empty());
        market
    }

    /// The marketplace that stable memory holds.
    pub fn load() -> (market: Marketplace) {
        let (collections, sales, pending) = loaded_stores();
        Marketplace { collections, sales, pending }
    }

    /// Reads the collection record of a registry.
    pub fn find_collection(&self, registry: &Address) -> (info: Option<CollectionInfo>)
        ensures
            info.deep_view() == self.collection(registry@),
    {
        let key = registry.to_bytes();
        match collection_store_get(&self.collections, &key) {
            Some(text) => {
                proof {
                    lemma_bytes_deep_view(text);
                }
                decode_collection(&text)
            },
            None => None,
        }
    }

    /// Reads the sale record of a token.
    pub fn find_sale(&self, registry: &Address, token: u64) -> (record: Option<NftMarketData>)
        ensures
            record.deep_view() == self.sale(registry@, token),
    {
        let key = registry.to_bytes();
        match sale_store_get(&self.sales, &key, token) {
            Some(value) => {
                proof {
                    lemma_bytes_deep_view(value.0);
                }
                let price = if value.1.0 {
                    Some(value.1.1)
                } else {
                    None
                };
                match Address::from_bytes(value.0) {
                    Some(owner) => Some(NftMarketData { owner, price, on_sale: value.2 }),
                    None => None,
                }
            },
            None => None,
        }
    }

    /// Whether a purchase under way has reserved the token.
    pub fn holds_reserved(&self, registry: &Address, token: u64) -> (held: bool)
        ensures
            held == self.is_reserved(registry@, token),
    {
        let key = registry.to_bytes();
        pending_store_get(&self.pending, &key, token).is_some()
    }

    /// Reads the purchase under way of a token; `None` where there is none,
    /// or where what is stored stands for none.
    pub fn find_pending(&self, registry: &Address, token: u64) -> (found: Option<PendingPurchase>)
        ensures
            found.deep_view() == match self.pending(registry@, token) {
                Some(value) => pending_record(value),
                None => None,
            },
    {
        let key = registry.to_bytes();
        match pending_store_get(&self.pending, &key, token) {
            None => None,
            Some(value) => {
                proof {
                    lemma_bytes_deep_view(value.0.0);
                    lemma_bytes_deep_view(value.0.1);
                }
                let stage = PurchaseStage::from_code(value.2);
                let buyer = Address::from_bytes(value.0.0);
                let seller = Address::from_bytes(value.0.1);
                match (stage, buyer, seller) {
                    (Some(stage), Some(buyer), Some(seller)) => Some(
                        PendingPurchase { buyer, seller, price: value.1, stage },
                    ),
                    _ => None,
                }
            },
        }
    }

    /// Writes the purchase under way of a token, in place of the one that
    /// the token had. The token is reserved from then on.
    pub fn write_pending(&mut self, registry: &Address, token: u64, purchase: &PendingPurchase)
        ensures
            final(self).pending_entries() == put(
                old(self).pending_entries(),
                sale_key_order(),
                (registry@, token),
                stored_pending(purchase@.buyer, purchase@.seller, purchase@.price, purchase@.stage),
            ),
            final(self).collection_entries() == old(self).collection_entries(),
            final(self).sale_entries() == old(self).sale_entries(),
    {
        let key = registry.to_bytes();
        let buyer = purchase.buyer.to_bytes();
        let seller = purchase.seller.to_bytes();
        pending_store_insert(
            &mut self.pending,
            &key,
            token,
            &buyer,
            &seller,
            purchase.price,
            purchase.stage.code(),
        );
    }

    /// Drops the purchase under way of a token. The token is free from then
    /// on.
    pub fn drop_pending(&mut self, registry: &Address, token: u64)
        ensures
            final(self).pending_entries() == without(
                old(self).pending_entries(),
                (registry@, token),
            ),
            final(self).collection_entries() == old(self).collection_entries(),
            final(self).sale_entries() == old(self).sale_entries(),
    {
        let key = registry.to_bytes();
        pending_store_remove(&mut self.pending, &key, token);
    }
}

/// All purchases under way, in ascending order of registry address and
/// token id. An entry whose stored value stands for no purchase is left out.
pub fn pending_purchases(market: &Marketplace) -> (all: Vec<(OwnersDoubleKey, PendingPurchase)>)
    ensures
        all.deep_view() == readable_pending(market.pending_entries()),
{
    let entries = pending_store_entries(&market.pending);
    let mut all: Vec<(OwnersDoubleKey, PendingPurchase)> = Vec::new();
    let mut i: usize = 0;
    assert(entries.deep_view().take(0) =~= Seq::<PendingEntry>::empty());
    assert(all.deep_view() =~= Seq::<(OwnersDoubleKeyView, PendingPurchaseView)>::empty());
    while i < entries.len()
        invariant
            i <= entries.len(),
            forall|j: int|
                0 <= j < entries.len() ==> entries[j].0.0@.len() <= MAX_ADDRESS_BYTES && entries[j].1.0.0@.len()
                    <= MAX_ADDRESS_BYTES && entries[j].1.0.1@.len() <= MAX_ADDRESS_BYTES,
            all.deep_view() == readable_pending(entries.deep_view().take(i as int)),
        decreases entries.len() - i,
    {
        let ghost before = all.deep_view();
        let ghost prefix = entries.deep_view().take(i as int + 1);
        proof {
            lemma_bytes_deep_view(entries[i as int].0.0);
            lemma_bytes_deep_view(entries[i as int].1.0.0);
            lemma_bytes_deep_view(entries[i as int].1.0.1);
            assert(prefix.drop_last() =~= entries.deep_view().take(i as int));
            assert(prefix.last() == entries[i as int].deep_view());
        }
        match PurchaseStage::from_code(entries[i].1.2) {
            Some(stage) => {
                let registry = Address::from_bytes(entries[i].0.0.clone());
                let buyer = Address::from_bytes(entries[i].1.0.0.clone());
                let seller = Address::from_bytes(entries[i].1.0.1.clone());
                match (registry, buyer, seller) {
                    (Some(collection_id), Some(buyer), Some(seller)) => {
                        let key = OwnersDoubleKey { collection_id, tkn_id: entries[i].0.1 };
                        let purchase = PendingPurchase {
                            buyer,
                            seller,
                            price: entries[i].1.1,
                            stage,
                        };
                        all.push((key, purchase));
                        assert(all.deep_view() =~= before.push((key@, purchase@)));
                    },
                    _ => {
                        assert(false);
                    },
                }
            },
            None => {},
        }
        i += 1;
    }
    assert(entries.deep_view().take(entries.len() as int) =~= entries.deep_view());
    all
}

/// All collection records, in ascending order of registry address. An entry
/// whose stored text holds no record is left out.
pub fn get_collections(market: &Marketplace) -> (all: Vec<(Address, CollectionInfo)>)
    ensures
        all.deep_view() == readable_collections(market.collection_entries()),
{
    let entries = collection_store_entries(&market.collections);
    let mut all: Vec<(Address, CollectionInfo)> = Vec::new();
    let mut i: usize = 0;
    assert(entries.deep_view().take(0) =~= Seq::<(Seq<u8>, Seq<u8>)>::empty());
    while i < entries.len()
        invariant
            i <= entries.len(),
            forall|j: int| 0 <= j < entries.len() ==> entries[j].0@.len() <= MAX_ADDRESS_BYTES,
            all.deep_view() == readable_collections(entries.deep_view().take(i as int)),
        decreases entries.len() - i,
    {
        let ghost before = all.deep_view();
        let ghost prefix = entries.deep_view().take(i as int + 1);
        proof {
            lemma_bytes_deep_view(entries[i as int].0);
            lemma_bytes_deep_view(entries[i as int].1);
            assert(prefix.drop_last() =~= entries.deep_view().take(i as int));
            assert(prefix.last() == (entries[i as int].0@, entries[i as int].1@));
        }
        match decode_collection(&entries[i].1) {
            Some(info) => {
                let key = entries[i].0.clone();
                match Address::from_bytes(key) {
                    Some(registry) => {
                        all.push((registry, info));
                        assert(all.deep_view() =~= before.push((entries[i as int].0@, info@)));
                    },
                    None => {
                        assert(false);
                    },
                }
            },
            None => {},
        }
        i += 1;
    }
    assert(entries.deep_view().take(entries.len() as int) =~= entries.deep_view());
    all
}

/// Writes a collection record under its registry's address, in place of the
/// record that the address held. Returns whether the record was written: it
/// is where it can be stored, and is then the record of that registry.
pub fn insert_collection_record(
    market: &mut Marketplace,
    canister: &Address,
    collection_info: &CollectionInfo,
) -> (written: bool)
    ensures
        final(market).sale_entries() == old(market).sale_entries(),
        final(market).pending_entries() == old(market).pending_entries(),
        match storable(collection_info@) {
            Some(text) => {
                &&& written
                &&& final(market).collection_entries() == put(
                    old(market).collection_entries(),
                    collection_key_order(),
                    canister@,
                    text,
                )
                &&& final(market).collection(canister@) == Some(collection_info@)
            },
            None => {
                &&& !written
                &&& final(market).collection_entries() == old(market).collection_entries()
            },
        },
{
    match store_collection(collection_info) {
        Some(text) => {
            proof {
                lemma_bytes_deep_view(text);
                lemma_read_after_write(
                    market.collection_entries(),
                    collection_key_order(),
                    canister@,
                    text@,
                    canister@,
                );
            }
            let key = canister.to_bytes();
            collection_store_insert(&mut market.collections, &key, text);
            true
        },
        None => false,
    }
}

/// All sale records, in ascending order of registry address and token id.
pub fn get_nfts(market: &Marketplace) -> (all: Vec<(OwnersDoubleKey, NftMarketData)>)
    ensures
        all.deep_view() == sale_records(market.sale_entries()),
{
    let entries = sale_store_entries(&market.sales);
    let mut all: Vec<(OwnersDoubleKey, NftMarketData)> = Vec::new();
    let mut i: usize = 0;
    while i < entries.len()
        invariant
            i <= entries.len(),
            all.len() == i,
            forall|j: int|
                0 <= j < entries.len() ==> entries[j].0.0@.len() <= MAX_ADDRESS_BYTES && entries[j].1.0@.len()
                    <= MAX_ADDRESS_BYTES,
            forall|j: int|
                0 <= j < i ==> all[j].deep_view() == (
                    sale_key(entries[j].0.deep_view()),
                    sale_record(entries[j].1.deep_view()),
                ),
        decreases entries.len() - i,
    {
        let registry = Address::from_bytes(entries[i].0.0.clone());
        let seller = Address::from_bytes(entries[i].1.0.clone());
        proof {
            lemma_bytes_deep_view(entries[i as int].0.0);
            lemma_bytes_deep_view(entries[i as int].1.0);
        }
        match (registry, seller) {
            (Some(collection_id), Some(owner)) => {
                let price = if entries[i].1.1.0 {
                    Some(entries[i].1.1.1)
                } else {
                    None
                };
                all.push(
                    (
                        OwnersDoubleKey { collection_id, tkn_id: entries[i].0.1 },
                        NftMarketData { owner, price, on_sale: entries[i].1.2 },
                    ),
                );
            },
            _ => {
                assert(false);
            },
        }
        i += 1;
    }
    assert(all.deep_view() =~= sale_records(entries.deep_view()));
    all
}

/// Writes the sale record of a token, in place of the record that the token
/// had. A record that is not for sale carries no price.
pub fn insert_nft_record(
    market: &mut Marketplace,
    canister: &Address,
    tkn_id: u64,
    owner: &Address,
    price: Option<u32>,
    on_sale: bool,
)
    requires
        on_sale || price is None,
    ensures
        old(market).sales_well_formed() ==> final(market).sales_well_formed(),
        final(market).collection_entries() == old(market).collection_entries(),
        final(market).pending_entries() == old(market).pending_entries(),
        final(market).sale_entries() == put(
            old(market).sale_entries(),
            sale_key_order(),
            (canister@, tkn_id),
            stored_sale(owner@, price, on_sale),
        ),
{
    let key = canister.to_bytes();
    let seller = owner.to_bytes();
    let stored = match price {
        Some(amount) => (true, amount),
        None => (false, 0),
    };
    let ghost before = market.sale_entries();
    sale_store_insert(&mut market.sales, &key, tkn_id, &seller, stored, on_sale);
    proof {
        let value = stored_sale(owner@, price, on_sale);
        let after = market.sale_entries();
        if sales_well_formed(before) {
            assert forall|i: int| 0 <= i < after.len() implies sale_record(
                #[trigger] after[i].1,
            ).wf() by {
                lemma_put_entries(before, sale_key_order(), (canister@, tkn_id), value, i);
                if after[i] != ((canister@, tkn_id), value) {
                    let j = choose|j: int| 0 <= j < before.len() && before[j] == after[i];
                    assert(sale_record(before[j].1).wf());
                }
            }
        }
    }
}

} // verus!
