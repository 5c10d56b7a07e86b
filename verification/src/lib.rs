//! Verified core of an asset marketplace made of independently deployed
//! services.
//!
//! A *registry factory* provisions one *asset registry* for each collection
//! of tokens. A registry says who owns which token and keeps a log of what
//! was done. The *marketplace orchestrator* keeps a record of each
//! collection and a sale record of each token, and drives the two
//! operations that span several services: the creation of a collection and
//! the purchase of a token.
//!
//! The library makes no remote call and reads neither the clock nor the
//! caller: callers hand these in. An operation that spans several remote
//! calls is a sequence of states; each state says which call comes next and
//! takes its outcome.
//!
//! - [`address`]: the identity of callers and services.
//! - [`types`]: the records that are exchanged and kept.
//! - [`entries`], [`store`], [`record`]: the ordered indexes in stable
//!   memory and the stored form of a collection record.
//! - [`market`]: the state of the marketplace.
//! - [`pricing`]: listed prices and the creator's discounts.
//! - [`creation`]: creating a collection.
//! - [`purchase`]: buying a token.
//! - [`query`]: the listings.
//! - [`factory`]: provisioning a registry.
//! - [`registry`]: the asset registry.
//! - [`guards`]: who may call what.
//! - [`laws`]: what holds whatever the inputs.

pub mod address;
pub mod creation;
pub mod entries;
pub mod factory;
pub mod guards;
pub mod laws;
pub mod market;
pub mod pricing;
pub mod purchase;
pub mod query;
pub mod record;
pub mod registry;
pub mod store;
pub mod types;
