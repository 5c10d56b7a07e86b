//! Durable index storage: the ordered maps of the marketplace, kept in
//! stable memory by the `ic-stable-structures` crate.
//!
//! A store is known to the proofs by its entries in iteration order. The
//! crate keeps them in ascending key order, so reading a key is
//! [`lookup`](crate::entries::lookup) and writing one is
//! [`put`](crate::entries::put).
//!
//! What is said here of the crate's maps is trusted, not proved. A write
//! needs room in stable memory, as every allocation needs room: where none
//! is left, the crate stops the program.

use candid::Principal;
use crate::address::{precedes, MAX_ADDRESS_BYTES};
use crate::entries::{lookup, put, without};
use ic_stable_structures::memory_manager::{MemoryId, MemoryManager, VirtualMemory};
use ic_stable_structures::{DefaultMemoryImpl, StableBTreeMap};
use vstd::prelude::*;

verus! {

/// The order of the keys of the collection index.
pub open spec fn collection_key_order() -> spec_fn(Seq<u8>, Seq<u8>) -> bool {
    |a: Seq<u8>, b: Seq<u8>| precedes(a, b)
}

/// The order of the keys of the sale index: by registry, then by token id.
pub open spec fn sale_key_order() -> spec_fn((Seq<u8>, u64), (Seq<u8>, u64)) -> bool {
    |a: (Seq<u8>, u64), b: (Seq<u8>, u64)| precedes(a.0, b.0) || (a.0 == b.0 && a.1 < b.1)
}

/// The collection index: encoded collection records by registry address.
/// It holds a `StableBTreeMap` of `ic-stable-structures`, which Verus does
/// not look into.
#[verifier::external_body]
pub struct CollectionStore {
    map: StableBTreeMap<Principal, Vec<u8>, VirtualMemory<DefaultMemoryImpl>>,
}

/// The sale index: seller, price and sale flag by registry address and token
/// id. A price is stored as a flag that says whether there is one, and a
/// number. It holds a `StableBTreeMap` of `ic-stable-structures`, which
/// Verus does not look into.
#[verifier::external_body]
pub struct SaleStore {
    map: StableBTreeMap<
        (Principal, u64),
        (Principal, (bool, u32), bool),
        VirtualMemory<DefaultMemoryImpl>,
    >,
}

/// The index of the purchases under way: buyer, seller, price and stage by
/// registry address and token id. It holds a `StableBTreeMap` of
/// `ic-stable-structures`, which Verus does not look into.
#[verifier::external_body]
pub struct PendingStore {
    map: StableBTreeMap<
        (Principal, u64),
        ((Principal, Principal), u128, u8),
        VirtualMemory<DefaultMemoryImpl>,
    >,
}

/// The entries of a collection index, in the order in which it hands them
/// out.
pub uninterp spec fn collection_entries(store: CollectionStore) -> Seq<(Seq<u8>, Seq<u8>)>;

/// The entries of a sale index, in the order in which it hands them out.
pub uninterp spec fn sale_entries(store: SaleStore) -> Seq<
    ((Seq<u8>, u64), (Seq<u8>, (bool, u32), bool)),
>;

/// The entries of an index of purchases under way, in the order in which it
/// hands them out.
pub uninterp spec fn pending_entries(store: PendingStore) -> Seq<
    ((Seq<u8>, u64), ((Seq<u8>, Seq<u8>), u128, u8)),
>;

/// Calls `MemoryManager::init`, `MemoryManager::get` and
/// `StableBTreeMap::new`. Trusted: a map made by `new` is empty.
#[verifier::external_body]
pub(crate) fn fresh_stores() -> (stores: (CollectionStore, SaleStore, PendingStore))
    ensures
        collection_entries(stores.0).len() == 0,
        sale_entries(stores.1).len() == 0,
        pending_entries(stores.2).len() == 0,
{
    let manager = MemoryManager::init(DefaultMemoryImpl::default());
    (
        CollectionStore { map: StableBTreeMap::new(manager.get(MemoryId::new(0))) },
        SaleStore { map: StableBTreeMap::new(manager.get(MemoryId::new(1))) },
        PendingStore { map: StableBTreeMap::new(manager.get(MemoryId::new(2))) },
    )
}

/// Calls `MemoryManager::init`, `MemoryManager::get` and
/// `StableBTreeMap::init`, which load the maps that stable memory holds.
/// Nothing is claimed of what they hold.
#[verifier::external_body]
pub(crate) fn loaded_stores() -> (stores: (CollectionStore, SaleStore, PendingStore)) {
    let manager = MemoryManager::init(DefaultMemoryImpl::default());
    (
        CollectionStore { map: StableBTreeMap::init(manager.get(MemoryId::new(0))) },
        SaleStore { map: StableBTreeMap::init(manager.get(MemoryId::new(1))) },
        PendingStore { map: StableBTreeMap::init(manager.get(MemoryId::new(2))) },
    )
}

/// Calls `StableBTreeMap::get`. Trusted: the value stored under the key, if
/// there is one.
#[verifier::external_body]
pub(crate) fn collection_store_get(store: &CollectionStore, key: &Vec<u8>) -> (value: Option<
    Vec<u8>,
>)
    requires
        key@.len() <= MAX_ADDRESS_BYTES,
    ensures
        value.deep_view() == lookup(collection_entries(*store), key@),
{
    store.map.get(&Principal::from_slice(key.as_slice()))
}

/// Calls `StableBTreeMap::insert`. Trusted: the value is stored under the
/// key, in place of what the key held; the map keeps its keys in the order
/// of `Principal`.
#[verifier::external_body]
pub(crate) fn collection_store_insert(store: &mut CollectionStore, key: &Vec<u8>, value: Vec<u8>)
    requires
        key@.len() <= MAX_ADDRESS_BYTES,
    ensures
        collection_entries(*final(store)) == put(
            collection_entries(*old(store)),
            collection_key_order(),
            key@,
            value@,
        ),
{
    store.map.insert(Principal::from_slice(key.as_slice()), value);
}

/// Calls `StableBTreeMap::iter`. Trusted: all entries, in the map's order; a
/// key is the byte string of a principal, so at most 29 bytes.
#[verifier::external_body]
pub(crate) fn collection_store_entries(store: &CollectionStore) -> (entries: Vec<
    (Vec<u8>, Vec<u8>),
>)
    ensures
        entries.deep_view() == collection_entries(*store),
        forall|i: int| 0 <= i < entries.len() ==> entries[i].0@.len() <= MAX_ADDRESS_BYTES,
{
    store.map.iter().map(|(key, value)| (key.as_slice().to_vec(), value)).collect()
}

/// Calls `StableBTreeMap::get`. Trusted: the value stored under the key, if
/// there is one; the seller in it is a principal, so at most 29 bytes.
#[verifier::external_body]
pub(crate) fn sale_store_get(store: &SaleStore, registry: &Vec<u8>, token: u64) -> (value: Option<
    (Vec<u8>, (bool, u32), bool),
>)
    requires
        registry@.len() <= MAX_ADDRESS_BYTES,
    ensures
        value.deep_view() == lookup(sale_entries(*store), (registry@, token)),
        value matches Some(v) ==> v.0@.len() <= MAX_ADDRESS_BYTES,
{
    let key = (Principal::from_slice(registry.as_slice()), token);
    store.map.get(&key).map(|v| (v.0.as_slice().to_vec(), v.1, v.2))
}

/// Calls `StableBTreeMap::insert`. Trusted: the value is stored under the
/// key, in place of what the key held; the map keeps its keys in the order
/// of the pair of a `Principal` and a `u64`.
#[verifier::external_body]
pub(crate) fn sale_store_insert(
    store: &mut SaleStore,
    registry: &Vec<u8>,
    token: u64,
    seller: &Vec<u8>,
    price: (bool, u32),
    on_sale: bool,
)
    requires
        registry@.len() <= MAX_ADDRESS_BYTES,
        seller@.len() <= MAX_ADDRESS_BYTES,
    ensures
        sale_entries(*final(store)) == put(
            sale_entries(*old(store)),
            sale_key_order(),
            (registry@, token),
            (seller@, price, on_sale),
        ),
{
    let key = (Principal::from_slice(registry.as_slice()), token);
    store.map.insert(key, (Principal::from_slice(seller.as_slice()), price, on_sale));
}

/// Calls `StableBTreeMap::iter`. Trusted: all entries, in the map's order;
/// registries and sellers are principals, so at most 29 bytes each.
#[verifier::external_body]
pub(crate) fn sale_store_entries(store: &SaleStore) -> (entries: Vec<
    ((Vec<u8>, u64), (Vec<u8>, (bool, u32), bool)),
>)
    ensures
        entries.deep_view() == sale_entries(*store),
        forall|i: int|
            0 <= i < entries.len() ==> entries[i].0.0@.len() <= MAX_ADDRESS_BYTES
                && entries[i].1.0@.len() <= MAX_ADDRESS_BYTES,
{
    store.map.iter().map(
        |(k, v)| ((k.0.as_slice().to_vec(), k.1), (v.0.as_slice().to_vec(), v.1, v.2)),
    ).collect()
}

/// Calls `StableBTreeMap::get`. Trusted: the value stored under the key, if
/// there is one; buyer and seller are principals, so at most 29 bytes each.
#[verifier::external_body]
pub(crate) fn pending_store_get(store: &PendingStore, registry: &Vec<u8>, token: u64) -> (value:
    Option<((Vec<u8>, Vec<u8>), u128, u8)>)
    requires
        registry@.len() <= MAX_ADDRESS_BYTES,
    ensures
        value.deep_view() == lookup(pending_entries(*store), (registry@, token)),
        value matches Some(v) ==> v.0.0@.len() <= MAX_ADDRESS_BYTES && v.0.1@.len()
            <= MAX_ADDRESS_BYTES,
{
    let key = (Principal::from_slice(registry.as_slice()), token);
    store.map.get(&key).map(|v| ((v.0.0.as_slice().to_vec(), v.0.1.as_slice().to_vec()), v.1, v.2))
}

/// Calls `StableBTreeMap::insert`. Trusted: the value is stored under the
/// key, in place of what the key held; the map keeps its keys in the order
/// of the pair of a `Principal` and a `u64`.
#[verifier::external_body]
pub(crate) fn pending_store_insert(
    store: &mut PendingStore,
    registry: &Vec<u8>,
    token: u64,
    buyer: &Vec<u8>,
    seller: &Vec<u8>,
    price: u128,
    stage: u8,
)
    requires
        registry@.len() <= MAX_ADDRESS_BYTES,
        buyer@.len() <= MAX_ADDRESS_BYTES,
        seller@.len() <= MAX_ADDRESS_BYTES,
    ensures
        pending_entries(*final(store)) == put(
            pending_entries(*old(store)),
            sale_key_order(),
            (registry@, token),
            ((buyer@, seller@), price, stage),
        ),
{
    let key = (Principal::from_slice(registry.as_slice()), token);
    let parties = (Principal::from_slice(buyer.as_slice()), Principal::from_slice(seller.as_slice()));
    store.map.insert(key, (parties, price, stage));
}

/// Calls `StableBTreeMap::remove`. Trusted: the entry of the key is gone,
/// the others stay as they stand.
#[verifier::external_body]
pub(crate) fn pending_store_remove(store: &mut PendingStore, registry: &Vec<u8>, token: u64)
    requires
        registry@.len() <= MAX_ADDRESS_BYTES,
    ensures
        pending_entries(*final(store)) == without(pending_entries(*old(store)), (registry@, token)),
{
    let key = (Principal::from_slice(registry.as_slice()), token);
    store.map.remove(&key);
}

/// Calls `StableBTreeMap::iter`. Trusted: all entries, in the map's order;
/// registries, buyers and sellers are principals, so at most 29 bytes each.
#[verifier::external_body]
pub(crate) fn pending_store_entries(store: &PendingStore) -> (entries: Vec<
    ((Vec<u8>, u64), ((Vec<u8>, Vec<u8>), u128, u8)),
>)
    ensures
        entries.deep_view() == pending_entries(*store),
        forall|i: int|
            0 <= i < entries.len() ==> entries[i].0.0@.len() <= MAX_ADDRESS_BYTES
                && entries[i].1.0.0@.len() <= MAX_ADDRESS_BYTES && entries[i].1.0.1@.len()
                <= MAX_ADDRESS_BYTES,
{
    store.map.iter().map(
        |(k, v)|
            (
                (k.0.as_slice().to_vec(), k.1),
                ((v.0.0.as_slice().to_vec(), v.0.1.as_slice().to_vec()), v.1, v.2),
            ),
    ).collect()
}

} // verus!
