//! What holds of the marketplace whatever the inputs: each law is proved
//! from the definitions that the functions' own contracts use.

use crate::creation::{
    first_id, ids_of_kind, lemma_total_monotonic, lemma_total_step, proceeds, rejection,
    rejection_error, total_quantity, windows_within, CreationStepView, CreationView, Rejection,
};
use crate::market::{
    sale_record, sales_well_formed, stored_sale, Marketplace, SaleEntry, SaleValue,
};
use crate::pricing::{
    discounted, effective_price, is_nearest, lemma_nearest_window, nearest_window,
};
use crate::purchase::{bought, DealView};
use crate::query::{all_collections, lemma_page_prefix, page, viability};
use crate::address::MAX_ADDRESS_BYTES;
use crate::entries::{lemma_put_entries, lemma_read_after_write, lookup, put};
use crate::record::{restored_collection, stored_collection};
use crate::registry::{ascending, TokenView};
use crate::types::{
    normalized, same_account, AccountView, ArgView, CollectionInfoView, DiscountWindowArg,
    ErrorsView, NftMarketDataView, NftMetadataView, PurchaseErrorView,
};
use vstd::prelude::*;

verus! {

/// A creation request whose quantities do not add up to the supply cap is
/// turned down, with an error of code 400, whatever else it holds.
pub proof fn law_supply_must_match(arg: ArgView, now: u64)
    requires
        total_quantity(arg.nfts) != arg.canister_arg.icrc7_supply_cap,
    ensures
        rejection(arg, now) matches Some(reason) && rejection_error(
            reason,
        ) matches ErrorsView::GenericError { error_code, .. } && error_code == 400,
{
}

/// A creation request is accepted only where its quantities add up to the
/// supply cap.
pub proof fn law_accepted_supply_matches(arg: ArgView, now: u64)
    requires
        rejection(arg, now) is None,
    ensures
        total_quantity(arg.nfts) == arg.canister_arg.icrc7_supply_cap,
        arg.expire_date > now,
        windows_within(arg.discount_windows, now, arg.expire_date),
{
}

/// A collection that would have expired by the time of its creation is
/// turned down.
pub proof fn law_expired_collection_rejected(arg: ArgView, now: u64)
    requires
        arg.expire_date <= now,
    ensures
        rejection(arg, now) == Some(Rejection::ExpiryPassed),
{
}

/// A discount window that ends at or after the collection's expiry, or at
/// or before the time of creation, has the request turned down.
pub proof fn law_window_out_of_range_rejected(arg: ArgView, now: u64, i: int)
    requires
        0 <= i < arg.discount_windows.len(),
        arg.discount_windows[i].expire_date >= arg.expire_date
            || arg.discount_windows[i].expire_date <= now,
    ensures
        rejection(arg, now) is Some,
        arg.expire_date > now ==> rejection(arg, now) == Some(Rejection::WindowOutOfRange),
{
}

/// The first token of a creation is minted under the id 1, and each token
/// after it under the next id.
pub proof fn law_token_ids_count_up(creation: CreationView)
    requires
        creation.minted < total_quantity(creation.kinds) <= u64::MAX,
    ensures
        (CreationView { minted: 0, ..creation }).next_id() == 1,
        creation.advanced().next_id() == creation.next_id() + 1,
        creation.request().token_id == creation.minted + 1,
{
}

/// The token ids recorded for a collection go up strictly, within a kind
/// and from each kind to the kinds after it; so no id is recorded twice, and
/// the first one recorded is 1.
pub proof fn law_recorded_ids_increase(
    kinds: Seq<NftMetadataView>,
    k: int,
    i: int,
    l: int,
    j: int,
)
    requires
        total_quantity(kinds) <= u64::MAX,
        0 <= k <= l < kinds.len(),
        0 <= i < kinds[k].quantity,
        0 <= j < kinds[l].quantity,
        k < l || i < j,
    ensures
        ids_of_kind(kinds, k)[i] < ids_of_kind(kinds, l)[j],
        ids_of_kind(kinds, k)[i] == first_id(kinds, k) + i,
        first_id(kinds, 0) == 1,
{
    lemma_total_step(kinds, k);
    lemma_total_step(kinds, l);
    lemma_total_monotonic(kinds, l + 1, kinds.len() as int);
    assert(kinds.take(kinds.len() as int) =~= kinds);
    assert(kinds.take(0) =~= Seq::<NftMetadataView>::empty());
    if k < l {
        lemma_total_monotonic(kinds, k + 1, l);
    }
}

/// A collection whose creation has ended well has its record in the
/// marketplace, with every kind and the ids of its tokens, and is active
/// until it expires.
pub proof fn law_created_collection_is_kept(
    creation: CreationView,
    before: Marketplace,
    after: Marketplace,
    text: Seq<char>,
    now: u64,
)
    requires
        proceeds(creation, before, after, CreationStepView::Created(text)),
    ensures
        after.collection(creation.registry) == Some(creation.record()),
        viability(after, creation.registry, now) == Some(creation.expire_date > now),
        creation.minted >= total_quantity(creation.kinds),
{
}

/// Among the windows still open, the one that ends first gives the
/// discount: no open window ends before the one that is found.
pub proof fn law_nearest_window_ends_first(windows: Seq<DiscountWindowArg>, now: u64, j: int)
    requires
        0 <= j < windows.len(),
        windows[j].expire_date > now,
    ensures
        nearest_window(windows, now) matches Some(i) && 0 <= i < windows.len()
            && windows[i].expire_date > now && windows[i].expire_date <= windows[j].expire_date,
{
    lemma_nearest_window(windows, now);
}

/// Of two open windows that end at different times, the one that ends
/// first is applied, in whichever order the two stand.
pub proof fn law_earlier_of_two_windows(first: DiscountWindowArg, second: DiscountWindowArg, now: u64)
    requires
        now < first.expire_date < second.expire_date,
    ensures
        nearest_window(seq![first, second], now) == Some(0int),
        nearest_window(seq![second, first], now) == Some(1int),
{
    lemma_nearest_window(seq![first, second], now);
    lemma_nearest_window(seq![second, first], now);
    let a = seq![first, second];
    let b = seq![second, first];
    assert(a[0] == first && a[1] == second);
    assert(b[0] == second && b[1] == first);
}

/// A holder who is not the creator asks the listed price, whatever the
/// windows and the time.
pub proof fn law_resale_is_never_discounted(
    base_price: u32,
    info: CollectionInfoView,
    holder: Seq<u8>,
    now: u64,
)
    requires
        holder != info.owner,
    ensures
        effective_price(base_price, info, holder, now) == Ok::<nat, PurchaseErrorView>(
            base_price as nat,
        ),
{
}

/// The creator asks the listed price while no window is open, and never
/// more than the listed price.
pub proof fn law_discount_never_raises_price(
    base_price: u32,
    info: CollectionInfoView,
    now: u64,
)
    requires
        now <= info.expire_date,
    ensures
        effective_price(base_price, info, info.owner, now) matches Ok(price) && price
            <= base_price,
        (forall|j: int|
            0 <= j < info.discount_windows.len() ==> info.discount_windows[j].expire_date <= now)
            ==> effective_price(base_price, info, info.owner, now) == Ok::<nat, PurchaseErrorView>(
            base_price as nat,
        ),
{
    lemma_nearest_window(info.discount_windows, now);
}

/// Whether a collection is still active depends on the marketplace's state,
/// the registry and the time alone: asking twice gives the same answer.
pub proof fn law_viability_repeats(
    market: Marketplace,
    registry: Seq<u8>,
    now: u64,
    first: Option<bool>,
    second: Option<bool>,
)
    requires
        first == viability(market, registry, now),
        second == viability(market, registry, now),
    ensures
        first == second,
{
}

/// The first page of the collections, cut short, is the front of the same
/// page cut longer, while the marketplace holds the same.
pub proof fn law_shorter_page_is_prefix(market: Marketplace, now: u64, shorter: nat, longer: nat)
    requires
        shorter <= longer,
    ensures
        page(all_collections(market, now), 0, shorter).is_prefix_of(
            page(all_collections(market, now), 0, longer),
        ),
{
    lemma_page_prefix(all_collections(market, now), shorter, longer);
}

/// Writing a well-formed sale record keeps the sale index well formed. The
/// record that a purchase leaves, and the one that a creation writes, are
/// well formed.
pub proof fn law_sale_records_stay_well_formed(
    entries: Seq<SaleEntry>,
    before: spec_fn((Seq<u8>, u64), (Seq<u8>, u64)) -> bool,
    key: (Seq<u8>, u64),
    value: SaleValue,
    deal: DealView,
    seller: Seq<u8>,
    price: u32,
)
    requires
        sales_well_formed(entries),
        sale_record(value).wf(),
    ensures
        sales_well_formed(put(entries, before, key, value)),
        sale_record(bought(deal)).wf(),
        sale_record(stored_sale(seller, Some(price), true)).wf(),
{
    let after = put(entries, before, key, value);
    assert forall|i: int| 0 <= i < after.len() implies sale_record(#[trigger] after[i].1).wf() by {
        lemma_put_entries(entries, before, key, value, i);
        if after[i] != (key, value) {
            let j = choose|j: int| 0 <= j < entries.len() && entries[j] == after[i];
            assert(sale_record(entries[j].1).wf());
        }
    }
}

/// A discounted price is the price less the whole hundredths of it that
/// the percentage takes.
pub proof fn law_discount_formula(price: u32, percent: u8)
    requires
        percent <= 100,
    ensures
        discounted(price, percent) == price - (price * percent) / 100,
{
    assert(price * percent <= price * 100) by (nonlinear_arith)
        requires
            percent <= 100,
    ;
}

/// A sale record that is written is the record that is read under its key,
/// with its seller, its price and its sale flag.
pub proof fn law_written_sale_is_read(
    entries: Seq<SaleEntry>,
    before: spec_fn((Seq<u8>, u64), (Seq<u8>, u64)) -> bool,
    key: (Seq<u8>, u64),
    owner: Seq<u8>,
    price: Option<u32>,
    on_sale: bool,
)
    ensures
        lookup(put(entries, before, key, stored_sale(owner, price, on_sale)), key) == Some(
            stored_sale(owner, price, on_sale),
        ),
        sale_record(stored_sale(owner, price, on_sale)) == (NftMarketDataView {
            owner,
            price,
            on_sale,
        }),
{
    lemma_read_after_write(entries, before, key, stored_sale(owner, price, on_sale), key);
}

/// Taking a record to plain values and back gives the record.
pub proof fn law_stored_form_loses_nothing(info: CollectionInfoView)
    requires
        info.owner.len() <= MAX_ADDRESS_BYTES,
    ensures
        restored_collection(stored_collection(info)) == Some(info),
{
    let stored = stored_collection(info);
    let back = restored_collection(stored)->0;
    assert(back.discount_windows =~= info.discount_windows);
    assert(back.nfts =~= info.nfts);
}

/// Two accounts are the same where their plain forms are equal.
pub proof fn law_plain_form_decides_sameness(a: AccountView, b: AccountView)
    ensures
        same_account(a, b) == (normalized(a) == normalized(b)),
        same_account(a, normalized(a)),
        normalized(normalized(a)) == normalized(a),
{
}

/// No two tokens of a registry share an id: the ids go up strictly.
pub proof fn law_registry_ids_are_unique(tokens: Seq<(u128, TokenView)>, i: int, j: int)
    requires
        ascending(tokens),
        0 <= i < tokens.len(),
        0 <= j < tokens.len(),
        i != j,
    ensures
        tokens[i].0 != tokens[j].0,
{
    if i < j {
        assert(tokens[i].0 < tokens[j].0);
    } else {
        assert(tokens[j].0 < tokens[i].0);
    }
}

} // verus!
