//! What a buyer pays: the listed price, less the creator's discount while
//! the creator still holds the token.

use crate::address::Address;
use crate::market::Marketplace;
use crate::types::{
    CollectionInfo, CollectionInfoView, DiscountWindowArg, PurchaseError, PurchaseErrorView,
};
use vstd::prelude::*;

verus! {

/// A price less `percent` hundredths of it, rounded in the buyer's disfavour;
/// a discount of a hundred percent or more leaves nothing to pay.
pub open spec fn discounted(price: u32, percent: u8) -> nat {
    if price * percent / 100 >= price {
        0
    } else {
        (price - price * percent / 100) as nat
    }
}

/// Whether the window at position `i` is the nearest one still open at
/// `now`: it ends after `now`, no open window ends before it, and none that
/// ends with it stands in front of it.
pub open spec fn is_nearest(windows: Seq<DiscountWindowArg>, now: u64, i: int) -> bool {
    &&& 0 <= i < windows.len()
    &&& windows[i].expire_date > now
    &&& forall|j: int|
        0 <= j < windows.len() && windows[j].expire_date > now ==> {
            ||| windows[i].expire_date < #[trigger] windows[j].expire_date
            ||| (windows[i].expire_date == windows[j].expire_date && i <= j)
        }
}

/// The position of the nearest window still open at `now`, if any is open.
pub open spec fn nearest_window(windows: Seq<DiscountWindowArg>, now: u64) -> Option<int>
    decreases windows.len(),
{
    if windows.len() == 0 {
        None
    } else {
        let last = windows.len() - 1;
        match nearest_window(windows.drop_last(), now) {
            Some(best) => if now < windows[last].expire_date && windows[last].expire_date
                < windows[best].expire_date {
                Some(last)
            } else {
                Some(best)
            },
            None => if now < windows[last].expire_date {
                Some(last)
            } else {
                None
            },
        }
    }
}

/// [`nearest_window`] finds the nearest open window, and finds none only
/// where none is open.
pub proof fn lemma_nearest_window(windows: Seq<DiscountWindowArg>, now: u64)
    ensures
        match nearest_window(windows, now) {
            Some(i) => is_nearest(windows, now, i),
            None => forall|j: int| 0 <= j < windows.len() ==> windows[j].expire_date <= now,
        },
    decreases windows.len(),
{
    if windows.len() > 0 {
        let front = windows.drop_last();
        lemma_nearest_window(front, now);
        assert(forall|j: int| 0 <= j < front.len() ==> front[j] == windows[j]);
    }
}

/// The price that `holder` asks for a token listed at `base_price` in the
/// collection `info` at time `now`.
pub open spec fn effective_price(
    base_price: u32,
    info: CollectionInfoView,
    holder: Seq<u8>,
    now: u64,
) -> Result<nat, PurchaseErrorView> {
    if holder != info.owner {
        Ok(base_price as nat)
    } else if now > info.expire_date {
        Err(PurchaseErrorView::CollectionExpired)
    } else {
        match nearest_window(info.discount_windows, now) {
            Some(i) => Ok(discounted(base_price, info.discount_windows[i].discount_percentage)),
            None => Ok(base_price as nat),
        }
    }
}

/// The price of a token of a registry, as [`effective_price`] gives it for
/// the registry's collection record.
pub open spec fn listed_price(
    market: Marketplace,
    base_price: u32,
    registry: Seq<u8>,
    holder: Seq<u8>,
    now: u64,
) -> Result<nat, PurchaseErrorView> {
    match market.collection(registry) {
        Some(info) => effective_price(base_price, info, holder, now),
        None => Err(PurchaseErrorView::CollectionNotFound),
    }
}

/// Finds the nearest window still open at `now`.
pub fn find_nearest_window(windows: &Vec<DiscountWindowArg>, now: u64) -> (found: Option<usize>)
    ensures
        match found {
            Some(i) => nearest_window(windows@, now) == Some(i as int),
            None => nearest_window(windows@, now) is None,
        },
{
    let mut found: Option<usize> = None;
    let mut k: usize = 0;
    assert(windows@.take(0) =~= Seq::<DiscountWindowArg>::empty());
    while k < windows.len()
        invariant
            k <= windows.len(),
            match found {
                Some(i) => i < k && nearest_window(windows@.take(k as int), now) == Some(i as int),
                None => nearest_window(windows@.take(k as int), now) is None,
            },
        decreases windows.len() - k,
    {
        proof {
            let prefix = windows@.take(k as int + 1);
            assert(prefix.drop_last() =~= windows@.take(k as int));
            assert(prefix[k as int] == windows@[k as int]);
            lemma_nearest_window(windows@.take(k as int), now);
        }
        let end = windows[k].expire_date;
        match found {
            Some(i) => {
                if now < end && end < windows[i].expire_date {
                    found = Some(k);
                }
            },
            None => {
                if now < end {
                    found = Some(k);
                }
            },
        }
        k += 1;
    }
    assert(windows@.take(windows.len() as int) =~= windows@);
    found
}

/// A price less a percentage of it.
pub fn apply_discount(price: u32, percent: u8) -> (reduced: u128)
    ensures
        reduced == discounted(price, percent),
{
    let full: u128 = price as u128;
    let hundredths: u128 = percent as u128;
    assert(full * hundredths <= 0xffff_ffff * 0xff) by (nonlinear_arith)
        requires
            full <= 0xffff_ffff,
            hundredths <= 0xff,
    ;
    let cut: u128 = full * hundredths / 100;
    if cut >= full {
        0
    } else {
        full - cut
    }
}

/// The price that `holder` asks for a token listed at `base_price`: the
/// listed price where the holder is not the collection's creator; else the
/// listed price less the discount of the nearest window still open, and
/// nothing at all once the collection has expired.
pub fn compute_effective_price(
    base_price: u32,
    info: &CollectionInfo,
    holder: &Address,
    now: u64,
) -> (price: Result<u128, PurchaseError>)
    ensures
        match price {
            Ok(p) => effective_price(base_price, info@, holder@, now) == Ok::<
                nat,
                PurchaseErrorView,
            >(p as nat),
            Err(e) => effective_price(base_price, info@, holder@, now) == Err::<
                nat,
                PurchaseErrorView,
            >(e@),
        },
{
    if !holder.same(&info.owner) {
        return Ok(base_price as u128);
    }
    if now > info.expire_date {
        return Err(PurchaseError::CollectionExpired);
    }
    match find_nearest_window(&info.discount_windows, now) {
        Some(i) => {
            proof {
                lemma_nearest_window(info.discount_windows@, now);
            }
            Ok(apply_discount(base_price, info.discount_windows[i].discount_percentage))
        },
        None => Ok(base_price as u128),
    }
}

/// The price that `owner` asks for a token of the registry `collection`
/// listed at `price`.
pub fn get_discount(
    market: &Marketplace,
    price: u32,
    collection: &Address,
    owner: &Address,
    now: u64,
) -> (reduced: Result<u128, PurchaseError>)
    ensures
        match reduced {
            Ok(p) => listed_price(*market, price, collection@, owner@, now) == Ok::<
                nat,
                PurchaseErrorView,
            >(p as nat),
            Err(e) => listed_price(*market, price, collection@, owner@, now) == Err::<
                nat,
                PurchaseErrorView,
            >(e@),
        },
{
    match market.find_collection(collection) {
        Some(info) => compute_effective_price(price, &info, owner, now),
        None => Err(PurchaseError::CollectionNotFound),
    }
}

} // verus!
