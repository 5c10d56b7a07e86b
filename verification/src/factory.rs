//! The registry factory: a new registry is allocated with a fixed budget,
//! then its initial configuration is installed, then it is entered in the
//! factory's directory.
//!
//! The two remote steps are made by the caller of this module. A registry
//! whose installation fails stays allocated; the error names it.

use crate::address::{anonymous_bytes, principal_text, Address};
use crate::types::{
    init_arg_of, principal_account, Account, CanisterArg, CanisterArgView, InitArg, InitArgView,
};
use vstd::prelude::*;
use vstd::string::StringExecFns;

verus! {

/// The budget that a new registry is allocated with.
pub const PROVISION_BUDGET: u128 = 1_000_000_000_000;

/// Why a remote call was rejected, as the host classifies it.
#[derive(Debug, Clone, Copy, PartialEq, Eq, Structural)]
pub enum RejectCode {
    NoError,
    SysFatal,
    SysTransient,
    DestinationInvalid,
    CanisterReject,
    CanisterError,
    Unknown,
}

/// The name of a reject code.
pub open spec fn reject_name(code: RejectCode) -> Seq<char> {
    match code {
        RejectCode::NoError => ("NoError")@,
        RejectCode::SysFatal => ("SysFatal")@,
        RejectCode::SysTransient => ("SysTransient")@,
        RejectCode::DestinationInvalid => ("DestinationInvalid")@,
        RejectCode::CanisterReject => ("CanisterReject")@,
        RejectCode::CanisterError => ("CanisterError")@,
        RejectCode::Unknown => ("Unknown")@,
    }
}

impl RejectCode {
    /// The name of this reject code.
    pub fn name(self) -> (name: String)
        ensures
            name@ == reject_name(self),
    {
        match self {
            RejectCode::NoError => "NoError".to_owned(),
            RejectCode::SysFatal => "SysFatal".to_owned(),
            RejectCode::SysTransient => "SysTransient".to_owned(),
            RejectCode::DestinationInvalid => "DestinationInvalid".to_owned(),
            RejectCode::CanisterReject => "CanisterReject".to_owned(),
            RejectCode::CanisterError => "CanisterError".to_owned(),
            RejectCode::Unknown => "Unknown".to_owned(),
        }
    }
}

/// A rejected remote call.
#[derive(Debug, PartialEq, Eq)]
pub struct Reject {
    pub code: RejectCode,
    pub message: String,
}

/// Why a provisioning failed.
#[derive(Debug, PartialEq, Eq)]
pub enum ProvisionError {
    /// The caller presented no identity.
    AnonymousCaller,
    /// No registry could be allocated. Nothing is left behind.
    ResourceAllocation { code: RejectCode, message: String },
    /// The configuration could not be installed. The registry `orphan`
    /// stays allocated.
    Install { code: RejectCode, message: String, orphan: Address },
}

pub enum ProvisionErrorView {
    AnonymousCaller,
    ResourceAllocation { code: RejectCode, message: Seq<char> },
    Install { code: RejectCode, message: Seq<char>, orphan: Seq<u8> },
}

impl View for ProvisionError {
    type V = ProvisionErrorView;

    open spec fn view(&self) -> ProvisionErrorView {
        match *self {
            ProvisionError::AnonymousCaller => ProvisionErrorView::AnonymousCaller,
            ProvisionError::ResourceAllocation {
                code,
                message,
            } => ProvisionErrorView::ResourceAllocation { code, message: message@ },
            ProvisionError::Install { code, message, orphan } => ProvisionErrorView::Install {
                code,
                message: message@,
                orphan: orphan@,
            },
        }
    }
}

/// The text that reports a failed provisioning.
pub open spec fn provision_failure(error: ProvisionErrorView) -> Seq<char> {
    match error {
        ProvisionErrorView::AnonymousCaller => ("Anonymous Caller")@,
        ProvisionErrorView::ResourceAllocation { code, message } => ("Rejection Code: ")@
            + reject_name(code) + (", Message: ")@ + message,
        ProvisionErrorView::Install { code, message, orphan } => ("Code: ")@ + reject_name(code) + (
            ", Message: "
        )@ + message,
    }
}

impl ProvisionError {
    /// The text that reports this failure.
    pub fn describe(&self) -> (text: String)
        ensures
            text@ == provision_failure(self@),
    {
        match self {
            ProvisionError::AnonymousCaller => "Anonymous Caller".to_owned(),
            ProvisionError::ResourceAllocation { code, message } => {
                let text = "Rejection Code: ".to_owned();
                let text = text.concat(code.name().as_str());
                let text = text.concat(", Message: ");
                text.concat(message.as_str())
            },
            ProvisionError::Install { code, message, orphan } => {
                let text = "Code: ".to_owned();
                let text = text.concat(code.name().as_str());
                let text = text.concat(", Message: ");
                text.concat(message.as_str())
            },
        }
    }
}

/// What the host is asked for: a new registry that the factory and the
/// owner control, with a budget.
#[derive(Debug, PartialEq, Eq)]
pub struct AllocationRequest {
    pub controllers: Vec<Address>,
    pub budget: u128,
}

/// What the host is asked to install into a new registry.
#[derive(Debug, PartialEq, Eq)]
pub struct InstallRequest {
    pub canister: Address,
    pub init: InitArg,
}

/// A provisioning that waits for the new registry's address.
pub struct Allocating {
    owner: Address,
    config: CanisterArg,
}

/// A provisioning that waits for the installation.
pub struct Installing {
    owner: Address,
    canister: Address,
}

impl Allocating {
    /// For whom the registry is provisioned.
    pub closed spec fn owner(&self) -> Seq<u8> {
        self.owner@
    }

    /// The owner's choices for the registry.
    pub closed spec fn config(&self) -> CanisterArgView {
        self.config@
    }

    /// Takes the outcome of the allocation: the new registry's address, or
    /// the rejection. With an address, the installation comes next: of the
    /// owner's choices, with the owner as minting authority.
    pub fn allocated(self, outcome: Result<Address, Reject>) -> (next: Result<
        (Installing, InstallRequest),
        ProvisionError,
    >)
        ensures
            outcome matches Ok(canister) ==> (next matches Ok((state, request)) && state.owner()
                == self.owner() && state.canister() == canister@ && request.canister@ == canister@
                && request.init@ == init_arg_of(principal_account(self.owner()), self.config())),
            outcome matches Err(reject) ==> (next matches Err(error) && error@
                == (ProvisionErrorView::ResourceAllocation {
                code: reject.code,
                message: reject.message@,
            })),
    {
        match outcome {
            Err(reject) => Err(
                ProvisionError::ResourceAllocation { code: reject.code, message: reject.message },
            ),
            Ok(canister) => {
                let account = Account::of(self.owner.clone());
                let init = InitArg::from((account, self.config));
                Ok(
                    (
                        Installing { owner: self.owner, canister: canister.clone() },
                        InstallRequest { canister, init },
                    ),
                )
            },
        }
    }
}

/// The factory's directory: each registry it has provisioned, with its
/// owner, in the order of provisioning.
pub struct Directory {
    records: Vec<(Address, Address)>,
}

impl View for Directory {
    type V = Seq<(Seq<u8>, Seq<u8>)>;

    closed spec fn view(&self) -> Seq<(Seq<u8>, Seq<u8>)> {
        self.records.deep_view()
    }
}

impl Directory {
    /// A directory without entries.
    pub fn new() -> (directory: Directory)
        ensures
            directory@ == Seq::<(Seq<u8>, Seq<u8>)>::empty(),
    {
        let directory = Directory { records: Vec::new() };
        assert(directory.records.deep_view() =~= Seq::<(Seq<u8>, Seq<u8>)>::empty());
        directory
    }

    /// Enters a registry with its owner.
    pub fn insert_record(&mut self, owner: Address, canister: Address)
        ensures
            final(self)@ == old(self)@.push((canister@, owner@)),
    {
        self.records.push((canister, owner));
        assert(self.records.deep_view() =~= old(self).records.deep_view().push(
            (canister@, owner@),
        ));
    }

    /// The registries of an owner, as text, in the order of provisioning.
    /// An owner without registries is an error.
    pub fn get_principal(&self, caller: &Address) -> (found: Result<Vec<String>, String>)
        ensures
            match found {
                Ok(texts) => texts.len() > 0 && texts.deep_view() == registries_of(self@, caller@),
                Err(message) => message@ == ("this caller does not own any collection")@
                    && registries_of(self@, caller@).len() == 0,
            },
    {
        let ghost all = self.records.deep_view();
        let mut texts: Vec<String> = Vec::new();
        let mut i: usize = 0;
        assert(all.take(0) =~= Seq::<(Seq<u8>, Seq<u8>)>::empty());
        assert(texts.deep_view() =~= Seq::<Seq<char>>::empty());
        while i < self.records.len()
            invariant
                i <= self.records.len(),
                all == self.records.deep_view(),
                texts.deep_view() == registries_of(all.take(i as int), caller@),
            decreases self.records.len() - i,
        {
            let ghost before = texts.deep_view();
            proof {
                assert(all.take(i as int + 1).drop_last() =~= all.take(i as int));
                assert(all.take(i as int + 1).last() == all[i as int]);
            }
            if self.records[i].1.same(caller) {
                texts.push(self.records[i].0.to_text());
                assert(texts.deep_view() =~= before.push(principal_text(all[i as int].0)));
            }
            i += 1;
        }
        assert(all.take(self.records.len() as int) =~= all);
        if texts.len() == 0 {
            return Err("this caller does not own any collection".to_owned());
        }
        Ok(texts)
    }
}

/// The registries that a directory holds for an owner, as text.
pub open spec fn registries_of(records: Seq<(Seq<u8>, Seq<u8>)>, owner: Seq<u8>) -> Seq<Seq<char>>
    decreases records.len(),
{
    if records.len() == 0 {
        Seq::empty()
    } else {
        let rest = registries_of(records.drop_last(), owner);
        if records.last().1 == owner {
            rest.push(principal_text(records.last().0))
        } else {
            rest
        }
    }
}

impl Installing {
    /// For whom the registry is provisioned.
    pub closed spec fn owner(&self) -> Seq<u8> {
        self.owner@
    }

    /// The registry that was allocated.
    pub closed spec fn canister(&self) -> Seq<u8> {
        self.canister@
    }

    /// Takes the outcome of the installation. After an installation the
    /// registry is entered in the directory for its owner, and its address
    /// is given as text. A rejection leaves the directory as it is and names
    /// the registry that stays allocated.
    pub fn installed(self, directory: &mut Directory, outcome: Result<(), Reject>) -> (done: Result<
        String,
        ProvisionError,
    >)
        ensures
            outcome is Ok ==> (done matches Ok(text) && text@ == principal_text(self.canister())
                && final(directory)@ == old(directory)@.push((self.canister(), self.owner()))),
            outcome matches Err(reject) ==> (done matches Err(error) && error@
                == (ProvisionErrorView::Install {
                code: reject.code,
                message: reject.message@,
                orphan: self.canister(),
            }) && final(directory)@ == old(directory)@),
    {
        match outcome {
            Ok(_) => {
                let text = self.canister.to_text();
                directory.insert_record(self.owner, self.canister);
                Ok(text)
            },
            Err(reject) => Err(
                ProvisionError::Install {
                    code: reject.code,
                    message: reject.message,
                    orphan: self.canister,
                },
            ),
        }
    }
}

/// Begins the provisioning of a registry for `caller` by the factory whose
/// own address is `factory`. A caller without identity is turned away. Else
/// the allocation comes next: of a registry that the factory and the caller
/// control, with the budget [`PROVISION_BUDGET`].
pub fn mint_collection_canister(arg: CanisterArg, caller: Address, factory: Address) -> (begun:
    Result<(Allocating, AllocationRequest), ProvisionError>)
    ensures
        if caller@ == anonymous_bytes() {
            begun matches Err(error) && error@ == ProvisionErrorView::AnonymousCaller
        } else {
            begun matches Ok((state, request)) && state.owner() == caller@ && state.config() == arg@
                && request.budget == PROVISION_BUDGET && request.controllers.deep_view()
                == seq![factory@, caller@]
        },
{
    if caller.is_anonymous() {
        return Err(ProvisionError::AnonymousCaller);
    }
    let mut controllers: Vec<Address> = Vec::new();
    controllers.push(factory);
    controllers.push(caller.clone());
    assert(controllers.deep_view() =~= seq![factory@, caller@]);
    Ok(
        (
            Allocating { owner: caller, config: arg },
            AllocationRequest { controllers, budget: PROVISION_BUDGET },
        ),
    )
}

} // verus!
