//! The guards that stand in front of the operations: who may call them.

use crate::address::{anonymous_bytes, principal_text, Address};
use crate::types::{Account, AccountView};
use vstd::prelude::*;

verus! {

/// Lets every caller with an identity pass.
pub fn caller_is_auth(caller: &Address) -> (checked: Result<(), String>)
    ensures
        match checked {
            Ok(_) => caller@ != anonymous_bytes(),
            Err(message) => caller@ == anonymous_bytes() && message@ == ("Anonymous Caller")@,
        },
{
    if caller.is_anonymous() {
        return Err("Anonymous Caller".to_owned());
    }
    Ok(())
}

/// Lets the minting authority pass. Where none is set, nobody passes.
pub fn owner_guard(minting_authority: &Option<Account>, caller: &Address) -> (checked: Result<
    (),
    String,
>)
    ensures
        match minting_authority.deep_view() {
            None => checked matches Err(message) && message@ == ("The canister not set owner")@,
            Some(authority) => if caller@ == authority.owner {
                checked is Ok
            } else {
                checked matches Err(message) && message@ == (
                    "The caller is not the owner of contract"
                )@
            },
        },
{
    match minting_authority {
        None => Err("The canister not set owner".to_owned()),
        Some(authority) => {
            if caller.same(&authority.owner) {
                Ok(())
            } else {
                Err("The caller is not the owner of contract".to_owned())
            }
        },
    }
}

/// Whether a caller is the marketplace whose address has the text
/// `marketplace`: no other caller may use a registry.
pub open spec fn is_marketplace(caller: Seq<u8>, marketplace: Seq<char>) -> bool {
    caller != anonymous_bytes() && principal_text(caller) == marketplace
}

/// Lets the marketplace pass, and nobody else.
pub fn authenticated_guard(caller: &Address, marketplace: &String) -> (checked: Result<(), String>)
    ensures
        match checked {
            Ok(_) => is_marketplace(caller@, marketplace@),
            Err(message) => !is_marketplace(caller@, marketplace@) && message@ == (
                "anonymous user is not allowed"
            )@,
        },
{
    if caller.is_anonymous() {
        return Err("anonymous user is not allowed".to_owned());
    }
    let text = caller.to_text();
    if text == *marketplace {
        Ok(())
    } else {
        Err("anonymous user is not allowed".to_owned())
    }
}

} // verus!
