//! The stored form of a collection record: JSON text, written and read by
//! the `serde_json` crate from plain values.

use crate::address::{Address, MAX_ADDRESS_BYTES};
use crate::types::{
    CollectionInfo, CollectionInfoView, CollectionNfts, CollectionNftsView, DiscountWindowArg,
    NftMetadata, NftMetadataView,
};
use vstd::prelude::*;

verus! {

/// One kind of token as plain values: name, privilege code, description,
/// quantity, logo and price, then the token ids.
pub type StoredKind = ((String, u8, String, u64, String, u32), Vec<u64>);

/// A collection record as plain values: owner, expiry, the discount windows
/// as pairs of expiry and percentage, and the kinds of token.
pub type StoredCollection = (Vec<u8>, u64, Vec<(u64, u8)>, Vec<StoredKind>);

pub type StoredKindView = ((Seq<char>, u8, Seq<char>, u64, Seq<char>, u32), Seq<u64>);

pub type StoredCollectionView = (Seq<u8>, u64, Seq<(u64, u8)>, Seq<StoredKindView>);

/// The JSON text that `serde_json::to_vec` writes for a collection record,
/// or `None` where it reports an error.
pub uninterp spec fn json_of_collection(record: StoredCollectionView) -> Option<Seq<u8>>;

/// The collection record that `serde_json::from_slice` reads from a text, or
/// `None` where it reports an error.
pub uninterp spec fn collection_of_json(text: Seq<u8>) -> Option<StoredCollectionView>;

/// Calls `serde_json::to_vec`. Trusted: the text depends on the values
/// alone; `None` stands for the crate's error.
#[verifier::external_body]
fn write_json(record: &StoredCollection) -> (text: Option<Vec<u8>>)
    ensures
        text.deep_view() == json_of_collection(record.deep_view()),
{
    serde_json::to_vec(record).ok()
}

/// Calls `serde_json::from_slice`. Trusted: the values depend on the text
/// alone; `None` stands for the crate's error.
#[verifier::external_body]
fn read_json(text: &Vec<u8>) -> (record: Option<StoredCollection>)
    ensures
        record.deep_view() == collection_of_json(text@),
{
    serde_json::from_slice(text.as_slice()).ok()
}

pub open spec fn stored_window(window: DiscountWindowArg) -> (u64, u8) {
    (window.expire_date, window.discount_percentage)
}

pub open spec fn restored_window(window: (u64, u8)) -> DiscountWindowArg {
    DiscountWindowArg { expire_date: window.0, discount_percentage: window.1 }
}

pub open spec fn stored_kind(kind: CollectionNftsView) -> StoredKindView {
    (
        (
            kind.nft.token_name,
            kind.nft.token_privilege_code,
            kind.nft.token_description,
            kind.nft.quantity,
            kind.nft.token_logo,
            kind.nft.price,
        ),
        kind.tkn_ids,
    )
}

pub open spec fn restored_kind(kind: StoredKindView) -> CollectionNftsView {
    CollectionNftsView {
        nft: NftMetadataView {
            token_name: kind.0.0,
            token_privilege_code: kind.0.1,
            token_description: kind.0.2,
            quantity: kind.0.3,
            token_logo: kind.0.4,
            price: kind.0.5,
        },
        tkn_ids: kind.1,
    }
}

/// A collection record as the plain values that are written out.
pub open spec fn stored_collection(info: CollectionInfoView) -> StoredCollectionView {
    (
        info.owner,
        info.expire_date,
        info.discount_windows.map_values(|w: DiscountWindowArg| stored_window(w)),
        info.nfts.map_values(|k: CollectionNftsView| stored_kind(k)),
    )
}

/// The collection record that plain values stand for; `None` where the
/// owner is no address.
pub open spec fn restored_collection(stored: StoredCollectionView) -> Option<CollectionInfoView> {
    if stored.0.len() <= MAX_ADDRESS_BYTES {
        Some(
            CollectionInfoView {
                owner: stored.0,
                expire_date: stored.1,
                discount_windows: stored.2.map_values(|w: (u64, u8)| restored_window(w)),
                nfts: stored.3.map_values(|k: StoredKindView| restored_kind(k)),
            },
        )
    } else {
        None
    }
}

/// The text under which a collection record is stored.
pub open spec fn encoded(info: CollectionInfoView) -> Option<Seq<u8>> {
    json_of_collection(stored_collection(info))
}

/// The collection record that a stored text holds.
pub open spec fn decoded(text: Seq<u8>) -> Option<CollectionInfoView> {
    match collection_of_json(text) {
        Some(stored) => restored_collection(stored),
        None => None,
    }
}

/// The deep view of a vector of bytes is its view.
pub proof fn lemma_bytes_deep_view(bytes: Vec<u8>)
    ensures
        bytes.deep_view() == bytes@,
{
    assert(bytes.deep_view() =~= bytes@);
}

/// The deep view of a vector of token ids is its view.
pub proof fn lemma_ids_deep_view(ids: Vec<u64>)
    ensures
        ids.deep_view() == ids@,
{
    assert(ids.deep_view() =~= ids@);
}

fn store_windows(windows: &Vec<DiscountWindowArg>) -> (out: Vec<(u64, u8)>)
    ensures
        out.deep_view() == windows@.map_values(|w: DiscountWindowArg| stored_window(w)),
{
    let mut out: Vec<(u64, u8)> = Vec::new();
    let mut i: usize = 0;
    while i < windows.len()
        invariant
            i <= windows.len(),
            out.len() == i,
            forall|j: int| 0 <= j < i ==> out@[j] == stored_window(windows@[j]),
        decreases windows.len() - i,
    {
        out.push((windows[i].expire_date, windows[i].discount_percentage));
        i += 1;
    }
    assert(out.deep_view() =~= windows@.map_values(|w: DiscountWindowArg| stored_window(w)));
    out
}

fn restore_windows(stored: &Vec<(u64, u8)>) -> (out: Vec<DiscountWindowArg>)
    ensures
        out@ == stored.deep_view().map_values(|w: (u64, u8)| restored_window(w)),
{
    let mut out: Vec<DiscountWindowArg> = Vec::new();
    let mut i: usize = 0;
    while i < stored.len()
        invariant
            i <= stored.len(),
            out.len() == i,
            forall|j: int| 0 <= j < i ==> out@[j] == restored_window(stored@[j]),
        decreases stored.len() - i,
    {
        out.push(DiscountWindowArg { expire_date: stored[i].0, discount_percentage: stored[i].1 });
        i += 1;
    }
    assert(out@ =~= stored.deep_view().map_values(|w: (u64, u8)| restored_window(w)));
    out
}

fn store_kinds(kinds: &Vec<CollectionNfts>) -> (out: Vec<StoredKind>)
    ensures
        out.deep_view() == kinds.deep_view().map_values(|k: CollectionNftsView| stored_kind(k)),
{
    let mut out: Vec<StoredKind> = Vec::new();
    let mut i: usize = 0;
    while i < kinds.len()
        invariant
            i <= kinds.len(),
            out.len() == i,
            forall|j: int| 0 <= j < i ==> out@[j].deep_view() == stored_kind(kinds@[j]@),
        decreases kinds.len() - i,
    {
        let kind = &kinds[i];
        proof {
            lemma_ids_deep_view(kind.tkn_ids);
        }
        out.push(
            (
                (
                    kind.nft.token_name.clone(),
                    kind.nft.token_privilege_code,
                    kind.nft.token_description.clone(),
                    kind.nft.quantity,
                    kind.nft.token_logo.clone(),
                    kind.nft.price,
                ),
                kind.tkn_ids.clone(),
            ),
        );
        i += 1;
    }
    assert(out.deep_view() =~= kinds.deep_view().map_values(
        |k: CollectionNftsView| stored_kind(k),
    ));
    out
}

fn restore_kinds(stored: &Vec<StoredKind>) -> (out: Vec<CollectionNfts>)
    ensures
        out.deep_view() == stored.deep_view().map_values(|k: StoredKindView| restored_kind(k)),
{
    let mut out: Vec<CollectionNfts> = Vec::new();
    let mut i: usize = 0;
    while i < stored.len()
        invariant
            i <= stored.len(),
            out.len() == i,
            forall|j: int| 0 <= j < i ==> out@[j]@ == restored_kind(stored@[j].deep_view()),
        decreases stored.len() - i,
    {
        let kind = &stored[i];
        proof {
            lemma_ids_deep_view(kind.1);
        }
        out.push(
            CollectionNfts {
                nft: NftMetadata {
                    token_name: kind.0.0.clone(),
                    token_privilege_code: kind.0.1,
                    token_description: kind.0.2.clone(),
                    quantity: kind.0.3,
                    token_logo: kind.0.4.clone(),
                    price: kind.0.5,
                },
                tkn_ids: kind.1.clone(),
            },
        );
        i += 1;
    }
    assert(out.deep_view() =~= stored.deep_view().map_values(
        |k: StoredKindView| restored_kind(k),
    ));
    out
}

/// Writes a collection record out as text; `None` where the writer reports
/// an error.
pub fn encode_collection(info: &CollectionInfo) -> (text: Option<Vec<u8>>)
    ensures
        text.deep_view() == encoded(info@),
{
    let stored: StoredCollection = (
        info.owner.to_bytes(),
        info.expire_date,
        store_windows(&info.discount_windows),
        store_kinds(&info.nfts),
    );
    proof {
        lemma_bytes_deep_view(stored.0);
    }
    write_json(&stored)
}

/// Reads a collection record from text; `None` where the text holds none.
pub fn decode_collection(text: &Vec<u8>) -> (info: Option<CollectionInfo>)
    ensures
        info.deep_view() == decoded(text@),
{
    match read_json(text) {
        Some(stored) => {
            proof {
                lemma_bytes_deep_view(stored.0);
            }
            let discount_windows = restore_windows(&stored.2);
            let nfts = restore_kinds(&stored.3);
            match Address::from_bytes(stored.0) {
                Some(owner) => Some(
                    CollectionInfo { owner, expire_date: stored.1, discount_windows, nfts },
                ),
                None => None,
            }
        },
        None => None,
    }
}

/// The text under which a collection record is stored, where the record can
/// be stored: it can where it is put into text and the text holds the
/// record again.
pub open spec fn storable(info: CollectionInfoView) -> Option<Seq<u8>> {
    match encoded(info) {
        Some(text) => if decoded(text) == Some(info) {
            Some(text)
        } else {
            None
        },
        None => None,
    }
}

fn same_ids(a: &Vec<u64>, b: &Vec<u64>) -> (r: bool)
    ensures
        r == (a@ == b@),
{
    if a.len() != b.len() {
        return false;
    }
    let mut i: usize = 0;
    while i < a.len()
        invariant
            i <= a.len(),
            a.len() == b.len(),
            forall|j: int| 0 <= j < i ==> a@[j] == b@[j],
        decreases a.len() - i,
    {
        if a[i] != b[i] {
            return false;
        }
        i += 1;
    }
    assert(a@ =~= b@);
    true
}

fn same_windows(a: &Vec<DiscountWindowArg>, b: &Vec<DiscountWindowArg>) -> (r: bool)
    ensures
        r == (a@ == b@),
{
    if a.len() != b.len() {
        return false;
    }
    let mut i: usize = 0;
    while i < a.len()
        invariant
            i <= a.len(),
            a.len() == b.len(),
            forall|j: int| 0 <= j < i ==> a@[j] == b@[j],
        decreases a.len() - i,
    {
        if a[i].expire_date != b[i].expire_date || a[i].discount_percentage
            != b[i].discount_percentage {
            return false;
        }
        i += 1;
    }
    assert(a@ =~= b@);
    true
}

fn same_kind(a: &CollectionNfts, b: &CollectionNfts) -> (r: bool)
    ensures
        r == (a@ == b@),
{
    a.nft.token_name == b.nft.token_name && a.nft.token_privilege_code
        == b.nft.token_privilege_code && a.nft.token_description == b.nft.token_description
        && a.nft.quantity == b.nft.quantity && a.nft.token_logo == b.nft.token_logo && a.nft.price
        == b.nft.price && same_ids(&a.tkn_ids, &b.tkn_ids)
}

fn same_kinds(a: &Vec<CollectionNfts>, b: &Vec<CollectionNfts>) -> (r: bool)
    ensures
        r == (a.deep_view() == b.deep_view()),
{
    if a.len() != b.len() {
        assert(a.deep_view().len() != b.deep_view().len());
        return false;
    }
    let mut i: usize = 0;
    while i < a.len()
        invariant
            i <= a.len(),
            a.len() == b.len(),
            forall|j: int| 0 <= j < i ==> a@[j]@ == b@[j]@,
        decreases a.len() - i,
    {
        if !same_kind(&a[i], &b[i]) {
            assert(a.deep_view()[i as int] != b.deep_view()[i as int]);
            return false;
        }
        i += 1;
    }
    assert(a.deep_view() =~= b.deep_view());
    true
}

/// Whether two collection records are the same.
pub fn same_collection(a: &CollectionInfo, b: &CollectionInfo) -> (r: bool)
    ensures
        r == (a@ == b@),
{
    a.owner.same(&b.owner) && a.expire_date == b.expire_date && same_windows(
        &a.discount_windows,
        &b.discount_windows,
    ) && same_kinds(&a.nfts, &b.nfts)
}

/// Writes a collection record out as the text under which it is stored;
/// `None` where the text would not hold the record again.
pub fn store_collection(info: &CollectionInfo) -> (text: Option<Vec<u8>>)
    ensures
        text.deep_view() == storable(info@),
{
    match encode_collection(info) {
        None => None,
        Some(text) => {
            proof {
                lemma_bytes_deep_view(text);
            }
            match decode_collection(&text) {
                Some(back) => if same_collection(&back, info) {
                    Some(text)
                } else {
                    None
                },
                None => None,
            }
        },
    }
}

} // verus!
