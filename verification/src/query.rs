//! The listings of the marketplace: pages over its two indexes, in the
//! order of the indexes.

use crate::address::{principal_of_text, principal_text, Address};
use crate::market::{get_collections, get_nfts, readable_collections, sale_records, Marketplace};
use crate::purchase::named_buyer;
use crate::types::{
    CollectionFullInfo, CollectionFullInfoView, CollectionInfo, CollectionInfoView,
    NftMarketData, NftMarketDataView, OwnersDoubleKey, OwnersDoubleKeyView,
};
use vstd::prelude::*;

verus! {

/// The page of at most `limit` items that begins after the first `offset`
/// items.
pub open spec fn page<T>(items: Seq<T>, offset: nat, limit: nat) -> Seq<T> {
    let start = if offset < items.len() {
        offset
    } else {
        items.len()
    };
    let end = if start + limit < items.len() {
        start + limit
    } else {
        items.len()
    };
    items.subrange(start as int, end as int)
}

/// A page that begins at the front is the front of every longer page that
/// begins there.
pub proof fn lemma_page_prefix<T>(items: Seq<T>, shorter: nat, longer: nat)
    requires
        shorter <= longer,
    ensures
        page(items, 0, shorter).is_prefix_of(page(items, 0, longer)),
{
}

/// Whether a collection is still active at time `now`, where the registry
/// has a collection record.
pub open spec fn viability(market: Marketplace, registry: Seq<u8>, now: u64) -> Option<bool> {
    match market.collection(registry) {
        Some(info) => Some(info.expire_date > now),
        None => None,
    }
}

/// A collection record as the listings report it at time `now`.
pub open spec fn full_info(
    registry: Seq<u8>,
    info: CollectionInfoView,
    now: u64,
) -> CollectionFullInfoView {
    CollectionFullInfoView {
        owner: info.owner,
        canister_id: registry,
        expire_date: info.expire_date,
        discount_windows: info.discount_windows,
        available: info.expire_date > now,
        nfts: info.nfts,
    }
}

/// All collections as the listings report them at time `now`, in ascending
/// order of registry address.
pub open spec fn all_collections(market: Marketplace, now: u64) -> Seq<CollectionFullInfoView> {
    readable_collections(market.collection_entries()).map_values(
        |e: (Seq<u8>, CollectionInfoView)| full_info(e.0, e.1, now),
    )
}

/// The collections of one owner, in ascending order of registry address.
pub open spec fn collections_of(market: Marketplace, owner: Seq<u8>, now: u64) -> Seq<
    CollectionFullInfoView,
> {
    all_collections(market, now).filter(|c: CollectionFullInfoView| c.owner == owner)
}

/// The registry addresses of the collections of one owner, as text.
pub open spec fn collection_ids_of(market: Marketplace, owner: Seq<u8>) -> Seq<Seq<char>> {
    collections_of(market, owner, 0).map_values(
        |c: CollectionFullInfoView| principal_text(c.canister_id),
    )
}

/// Cuts a page out of a list.
pub fn take_page<T>(items: Vec<T>, offset: u32, limit: u32) -> (cut: Vec<T>)
    ensures
        cut@ == page(items@, offset as nat, limit as nat),
{
    let ghost whole = items@;
    let mut items = items;
    let start = if (offset as usize) < items.len() {
        offset as usize
    } else {
        items.len()
    };
    let mut cut = items.split_off(start);
    cut.truncate(limit as usize);
    assert(cut@ =~= page(whole, offset as nat, limit as nat));
    cut
}

/// Whether a collection is still active at time `now`: it is while its
/// expiry lies ahead. A registry without a collection record is an error.
pub fn get_collection_viability(market: &Marketplace, canister_id: &Address, now: u64) -> (active:
    Result<bool, String>)
    ensures
        match viability(*market, canister_id@, now) {
            Some(answer) => active == Ok::<bool, String>(answer),
            None => active matches Err(message) && message@ == ("collection does not exists")@,
        },
{
    match market.find_collection(canister_id) {
        Some(info) => Ok(info.expire_date > now),
        None => Err("collection does not exists".to_owned()),
    }
}

fn report(registry: &Address, info: &CollectionInfo, now: u64) -> (full: CollectionFullInfo)
    ensures
        full@ == full_info(registry@, info@, now),
{
    let copy = info.clone();
    CollectionFullInfo {
        owner: copy.owner,
        canister_id: registry.clone(),
        expire_date: copy.expire_date,
        discount_windows: copy.discount_windows,
        available: copy.expire_date > now,
        nfts: copy.nfts,
    }
}

fn report_all(market: &Marketplace, now: u64) -> (all: Vec<CollectionFullInfo>)
    ensures
        all.deep_view() == all_collections(*market, now),
{
    let records = get_collections(market);
    let mut all: Vec<CollectionFullInfo> = Vec::new();
    let mut i: usize = 0;
    while i < records.len()
        invariant
            i <= records.len(),
            all.len() == i,
            forall|j: int|
                0 <= j < i ==> all[j]@ == full_info(records[j].0@, records[j].1@, now),
        decreases records.len() - i,
    {
        all.push(report(&records[i].0, &records[i].1, now));
        i += 1;
    }
    assert(all.deep_view() =~= records.deep_view().map_values(
        |e: (Seq<u8>, CollectionInfoView)| full_info(e.0, e.1, now),
    ));
    all
}

fn report_owned(market: &Marketplace, owner: &Address, now: u64) -> (owned: Vec<
    CollectionFullInfo,
>)
    ensures
        owned.deep_view() == collections_of(*market, owner@, now),
{
    let all = report_all(market, now);
    let ghost views = all.deep_view();
    let ghost mine = |c: CollectionFullInfoView| c.owner == owner@;
    let mut owned: Vec<CollectionFullInfo> = Vec::new();
    let mut i: usize = 0;
    assert(views.take(0) =~= Seq::<CollectionFullInfoView>::empty());
    assert(owned.deep_view() =~= Seq::<CollectionFullInfoView>::empty());
    while i < all.len()
        invariant
            i <= all.len(),
            views == all.deep_view(),
            mine == |c: CollectionFullInfoView| c.owner == owner@,
            owned.deep_view() == views.take(i as int).filter(mine),
        decreases all.len() - i,
    {
        let ghost before = owned.deep_view();
        proof {
            reveal(Seq::filter);
            assert(views.take(i as int + 1).drop_last() =~= views.take(i as int));
            assert(views.take(i as int + 1).last() == all[i as int]@);
        }
        if all[i].owner.same(owner) {
            owned.push(all[i].clone());
            assert(owned.deep_view() =~= before.push(all[i as int]@));
        }
        i += 1;
    }
    assert(views.take(all.len() as int) =~= views);
    owned
}

/// The deep view of a page is the page of the deep view.
pub proof fn lemma_page_of_reports(
    cut: Vec<CollectionFullInfo>,
    all: Vec<CollectionFullInfo>,
    offset: nat,
    limit: nat,
)
    requires
        cut@ == page(all@, offset, limit),
    ensures
        cut.deep_view() == page(all.deep_view(), offset, limit),
{
    assert(cut.deep_view() =~= page(all.deep_view(), offset, limit));
}

/// A page of all collections at time `now`, in ascending order of registry
/// address. An empty page is an error.
pub fn get_all_collections(market: &Marketplace, offset: u32, limit: u32, now: u64) -> (listed:
    Result<Vec<CollectionFullInfo>, String>)
    ensures
        match listed {
            Ok(found) => found.len() > 0 && found.deep_view() == page(
                all_collections(*market, now),
                offset as nat,
                limit as nat,
            ),
            Err(message) => message@ == ("no collections present")@ && page(
                all_collections(*market, now),
                offset as nat,
                limit as nat,
            ).len() == 0,
        },
{
    let all = report_all(market, now);
    let ghost whole = all;
    let cut = take_page(all, offset, limit);
    proof {
        lemma_page_of_reports(cut, whole, offset as nat, limit as nat);
    }
    if cut.len() == 0 {
        return Err("no collections present".to_owned());
    }
    Ok(cut)
}

/// A page of the collections of `owner` at time `now`, in ascending order
/// of registry address.
pub fn collections_info_of(
    market: &Marketplace,
    owner: &Address,
    offset: u32,
    limit: u32,
    now: u64,
) -> (found: Vec<CollectionFullInfo>)
    ensures
        found.deep_view() == page(
            collections_of(*market, owner@, now),
            offset as nat,
            limit as nat,
        ),
{
    let owned = report_owned(market, owner, now);
    let ghost whole = owned;
    let cut = take_page(owned, offset, limit);
    proof {
        lemma_page_of_reports(cut, whole, offset as nat, limit as nat);
    }
    cut
}

/// A page of the collections of one owner at time `now`: of the address
/// that `caller` names, or of `sender` where no text is given. A text that
/// names no address is an error.
pub fn get_collections_info_by_caller(
    market: &Marketplace,
    caller: Option<String>,
    sender: Address,
    offset: u32,
    limit: u32,
    now: u64,
) -> (listed: Result<Vec<CollectionFullInfo>, String>)
    ensures
        match named_buyer(caller.deep_view(), sender@) {
            Some(owner) => listed matches Ok(found) && found.deep_view() == page(
                collections_of(*market, owner, now),
                offset as nat,
                limit as nat,
            ),
            None => listed matches Err(message) && message@ == (
                "Not able to convert string to principal"
            )@,
        },
{
    let owner = match caller {
        Some(text) => match Address::from_text(text.as_str()) {
            Some(named) => named,
            None => {
                return Err("Not able to convert string to principal".to_owned());
            },
        },
        None => sender,
    };
    Ok(collections_info_of(market, &owner, offset, limit, now))
}

/// A page of the registry addresses of the collections of `owner`, as
/// text, in ascending order of registry address. An empty page is an error.
pub fn collection_ids_of_owner(market: &Marketplace, owner: &Address, offset: u32, limit: u32) -> (listed:
    Result<Vec<String>, String>)
    ensures
        match listed {
            Ok(found) => found.len() > 0 && found.deep_view() == page(
                collection_ids_of(*market, owner@),
                offset as nat,
                limit as nat,
            ),
            Err(message) => message@ == ("this caller does not own any collection")@ && page(
                collection_ids_of(*market, owner@),
                offset as nat,
                limit as nat,
            ).len() == 0,
        },
{
    let owned = report_owned(market, owner, 0);
    let mut ids: Vec<String> = Vec::new();
    let mut i: usize = 0;
    while i < owned.len()
        invariant
            i <= owned.len(),
            ids.len() == i,
            forall|j: int| 0 <= j < i ==> ids[j]@ == principal_text(owned[j]@.canister_id),
        decreases owned.len() - i,
    {
        ids.push(owned[i].canister_id.to_text());
        i += 1;
    }
    assert(ids.deep_view() =~= collection_ids_of(*market, owner@));
    let ghost whole = ids;
    let cut = take_page(ids, offset, limit);
    assert(cut.deep_view() =~= page(whole.deep_view(), offset as nat, limit as nat));
    if cut.len() == 0 {
        return Err("this caller does not own any collection".to_owned());
    }
    Ok(cut)
}

/// A page of the registry addresses of the collections of one owner: of
/// the address that `caller` names, or of `sender` where no text is given.
/// A text that names no address is an error, and so is an empty page.
pub fn get_collection_ids(
    market: &Marketplace,
    caller: Option<String>,
    sender: Address,
    offset: u32,
    limit: u32,
) -> (listed: Result<Vec<String>, String>)
    ensures
        match named_buyer(caller.deep_view(), sender@) {
            Some(owner) => match listed {
                Ok(found) => found.len() > 0 && found.deep_view() == page(
                    collection_ids_of(*market, owner),
                    offset as nat,
                    limit as nat,
                ),
                Err(message) => message@ == ("this caller does not own any collection")@ && page(
                    collection_ids_of(*market, owner),
                    offset as nat,
                    limit as nat,
                ).len() == 0,
            },
            None => listed matches Err(message) && message@ == (
                "Not able to convert string to principal"
            )@,
        },
{
    let owner = match caller {
        Some(text) => match Address::from_text(text.as_str()) {
            Some(named) => named,
            None => {
                return Err("Not able to convert string to principal".to_owned());
            },
        },
        None => sender,
    };
    collection_ids_of_owner(market, &owner, offset, limit)
}

/// A page of all sale records, in ascending order of registry address and
/// token id. An empty page is an error.
pub fn get_all_nfts(market: &Marketplace, offset: u32, limit: u32) -> (listed: Result<
    Vec<(OwnersDoubleKey, NftMarketData)>,
    String,
>)
    ensures
        match listed {
            Ok(found) => found.len() > 0 && found.deep_view() == page(
                sale_records(market.sale_entries()),
                offset as nat,
                limit as nat,
            ),
            Err(message) => message@ == ("no collections present")@ && page(
                sale_records(market.sale_entries()),
                offset as nat,
                limit as nat,
            ).len() == 0,
        },
{
    let all = get_nfts(market);
    let ghost whole = all;
    let cut = take_page(all, offset, limit);
    assert(cut.deep_view() =~= page(whole.deep_view(), offset as nat, limit as nat));
    if cut.len() == 0 {
        return Err("no collections present".to_owned());
    }
    Ok(cut)
}

} // verus!
