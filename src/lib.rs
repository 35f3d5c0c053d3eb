//! A fixed-price marketplace over a registry of unique assets.
//!
//! The owner of an asset lists it with `ask`, any other account buys it with
//! `buy` by paying exactly the listed price, and the owner withdraws the
//! listing with `cancel`. While an asset is listed, every ownership transfer
//! other than the one made by `buy` is refused by the transfer guard.
pub mod laws;
pub mod market;
pub mod model;
pub mod store;
pub mod types;
