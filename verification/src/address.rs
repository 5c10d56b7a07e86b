//! Addresses: the identity of a caller or of a service instance.
//!
//! An address is the byte string of a principal. Its textual form is computed
//! by the `candid` crate; everything else is decided on the bytes.

use candid::Principal;
use vstd::prelude::*;

verus! {

/// The longest byte string a principal can hold.
pub const MAX_ADDRESS_BYTES: usize = 29;

/// The text that `candid::Principal::to_text` prints for the principal with
/// these bytes.
pub uninterp spec fn principal_text(bytes: Seq<u8>) -> Seq<char>;

/// The bytes of the principal that `candid::Principal::from_text` reads from
/// a text, or `None` where it rejects the text.
pub uninterp spec fn principal_of_text(text: Seq<char>) -> Option<Seq<u8>>;

/// The bytes of the anonymous principal.
pub open spec fn anonymous_bytes() -> Seq<u8> {
    seq![4u8]
}

/// Strict order of addresses: shorter byte strings first, byte strings of one
/// length in lexicographic order. This is the order of `candid::Principal`.
pub open spec fn precedes(a: Seq<u8>, b: Seq<u8>) -> bool {
    a.len() < b.len() || (a.len() == b.len() && exists|i: int|
        0 <= i < a.len() && a[i] < b[i] && a.subrange(0, i) == b.subrange(0, i))
}

/// Calls `candid::Principal::from_slice` and `Principal::to_text`. Trusted:
/// the result is the text that the crate prints for these bytes. The crate
/// panics on more than 29 bytes, which the precondition excludes.
#[verifier::external_body]
fn text_of_bytes(bytes: &Vec<u8>) -> (text: String)
    requires
        bytes@.len() <= MAX_ADDRESS_BYTES,
    ensures
        text@ == principal_text(bytes@),
{
    Principal::from_slice(bytes.as_slice()).to_text()
}

/// Calls `candid::Principal::from_text`. Trusted: the result is the parsed
/// principal's bytes, `None` where the crate returns an error; a parsed
/// principal has at most 29 bytes.
#[verifier::external_body]
fn bytes_of_text(text: &str) -> (bytes: Option<Vec<u8>>)
    ensures
        match bytes {
            Some(b) => principal_of_text(text@) == Some(b@) && b@.len() <= MAX_ADDRESS_BYTES,
            None => principal_of_text(text@) is None,
        },
{
    match Principal::from_text(text) {
        Ok(p) => Some(p.as_slice().to_vec()),
        Err(_) => None,
    }
}

/// Calls `candid::Principal::anonymous`. Trusted: the anonymous principal is
/// the single byte 4.
#[verifier::external_body]
fn bytes_of_anonymous() -> (bytes: Vec<u8>)
    ensures
        bytes@ == anonymous_bytes(),
{
    Principal::anonymous().as_slice().to_vec()
}

/// The identity of a caller or of a service instance.
#[derive(Debug, PartialEq, Eq)]
pub struct Address {
    bytes: Vec<u8>,
}

impl View for Address {
    type V = Seq<u8>;

    closed spec fn view(&self) -> Seq<u8> {
        self.bytes@
    }
}

impl DeepView for Address {
    type V = Seq<u8>;

    open spec fn deep_view(&self) -> Seq<u8> {
        self@
    }
}

impl Clone for Address {
    fn clone(&self) -> (copy: Self)
        ensures
            copy@ == self@,
    {
        proof {
            use_type_invariant(self);
        }
        Address { bytes: self.bytes.clone() }
    }
}

impl Address {
    #[verifier::type_invariant]
    spec fn bounded(self) -> bool {
        self.bytes@.len() <= MAX_ADDRESS_BYTES
    }

    /// The address with the given bytes; `None` for more than 29 bytes.
    pub fn from_bytes(bytes: Vec<u8>) -> (r: Option<Address>)
        ensures
            match r {
                Some(a) => a@ == bytes@ && bytes@.len() <= MAX_ADDRESS_BYTES,
                None => bytes@.len() > MAX_ADDRESS_BYTES,
            },
    {
        if bytes.len() <= MAX_ADDRESS_BYTES {
            Some(Address { bytes })
        } else {
            None
        }
    }

    /// The bytes of this address.
    pub fn to_bytes(&self) -> (bytes: Vec<u8>)
        ensures
            bytes@ == self@,
            bytes@.len() <= MAX_ADDRESS_BYTES,
    {
        proof {
            use_type_invariant(self);
        }
        self.bytes.clone()
    }

    /// The address of the caller that presented no identity.
    pub fn anonymous() -> (a: Address)
        ensures
            a@ == anonymous_bytes(),
    {
        Address { bytes: bytes_of_anonymous() }
    }

    /// Reads an address from its textual form; `None` where the text is not
    /// the textual form of any address.
    pub fn from_text(text: &str) -> (r: Option<Address>)
        ensures
            match r {
                Some(a) => principal_of_text(text@) == Some(a@),
                None => principal_of_text(text@) is None,
            },
    {
        match bytes_of_text(text) {
            Some(bytes) => Some(Address { bytes }),
            None => None,
        }
    }

    /// The textual form of this address.
    pub fn to_text(&self) -> (text: String)
        ensures
            text@ == principal_text(self@),
    {
        proof {
            use_type_invariant(self);
        }
        text_of_bytes(&self.bytes)
    }

    /// Whether two addresses are the same identity.
    pub fn same(&self, other: &Address) -> (r: bool)
        ensures
            r == (self@ == other@),
    {
        if self.bytes.len() != other.bytes.len() {
            return false;
        }
        let n = self.bytes.len();
        let mut i: usize = 0;
        while i < n
            invariant
                n == self.bytes@.len(),
                n == other.bytes@.len(),
                i <= n,
                forall|j: int| 0 <= j < i ==> self.bytes@[j] == other.bytes@[j],
            decreases n - i,
        {
            if self.bytes[i] != other.bytes[i] {
                return false;
            }
            i += 1;
        }
        assert(self.bytes@ =~= other.bytes@);
        true
    }

    /// Whether this is the address of the caller that presented no identity.
    pub fn is_anonymous(&self) -> (r: bool)
        ensures
            r == (self@ == anonymous_bytes()),
    {
        let anonymous = Address::anonymous();
        self.same(&anonymous)
    }
}

} // verus!
