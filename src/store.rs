//! The listing store: which assets are for sale, and at what price.
use std::collections::HashMap;
use vstd::prelude::*;

use crate::types::{Balance, Id};

verus! {

broadcast use vstd::std_specs::hash::group_hash_axioms;

/// Storage of the current asks, from asset id to price. It holds no policy.
pub struct ListingStore {
    asks: HashMap<Id, Balance>,
}

impl View for ListingStore {
    type V = Map<Id, Balance>;

    closed spec fn view(&self) -> Map<Id, Balance> {
        self.asks@
    }
}

impl ListingStore {
    /// A store with no listing.
    pub fn new() -> (r: Self)
        ensures
            r@ == Map::<Id, Balance>::empty(),
    {
        ListingStore { asks: HashMap::new() }
    }

    /// Lists `id` at `price`, replacing any earlier price.
    pub fn set(&mut self, id: Id, price: Balance)
        ensures
            final(self)@ == old(self)@.insert(id, price),
    {
        self.asks.insert(id, price);
    }

    /// The price at which `id` is listed, if it is.
    pub fn get(&self, id: Id) -> (r: Option<Balance>)
        ensures
            r == (if self@.contains_key(id) {
                Some(self@[id])
            } else {
                None::<Balance>
            }),
    {
        match self.asks.get(&id) {
            Some(p) => Some(*p),
            None => None,
        }
    }

    /// Removes the listing of `id`, if there is one.
    pub fn remove(&mut self, id: Id)
        ensures
            final(self)@ == old(self)@.remove(id),
    {
        self.asks.remove(&id);
    }
}

} // verus!
