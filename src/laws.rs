//! Properties of the marketplace as a whole, proved over its abstract state.
use vstd::prelude::*;

use crate::model::MarketView;
use crate::types::{AccountId, Balance, Event, Id, Trade, Transfer};

verus! {

/// A listed asset is held by the transfer guard, and only while listed: every
/// plain transfer of a listed asset fails and changes nothing, whoever makes
/// it, while a buyer who pays the listed price and can afford it obtains the
/// asset; an existing asset that is not listed can be moved by its owner.
pub proof fn listing_blocks_transfers(v: MarketView, caller: AccountId, to: AccountId, id: Id)
    requires
        v.wf(),
    ensures
        v.is_listed(id) ==> {
            &&& v.transfer_result(caller, to, id).1 is Err
            &&& v.transfer_result(caller, to, id).0 == v
        },
        v.is_listed(id) && caller != v.owners[id] && v.can_pay(caller, v.owners[id], v.listings[id])
            ==> {
            &&& v.buy_result(caller, id, v.listings[id]).1 is Ok
            &&& v.buy_result(caller, id, v.listings[id]).0.owners[id] == caller
        },
        !v.is_listed(id) && v.owners.contains_key(id) ==> {
            &&& v.transfer_result(v.owners[id], to, id).1 is Ok
            &&& v.transfer_result(v.owners[id], to, id).0.owners[id] == to
        },
{
}

/// While an asset is listed its owner stays as it was when it was listed:
/// no operation on any asset changes that owner, except a successful `buy`
/// of that very asset.
pub proof fn listed_owner_is_stable(
    v: MarketView,
    id: Id,
    caller: AccountId,
    to: AccountId,
    other: Id,
    price: Balance,
)
    requires
        v.wf(),
        v.is_listed(id),
    ensures
        v.ask_result(caller, other, price).0.owners[id] == v.owners[id],
        v.cancel_result(caller, other).0.owners[id] == v.owners[id],
        v.transfer_result(caller, to, other).0.owners[id] == v.owners[id],
        v.mint_result(to, other).0.owners[id] == v.owners[id],
        other != id ==> v.buy_result(caller, other, price).0.owners[id] == v.owners[id],
        v.buy_result(caller, id, price).1 is Err ==> v.buy_result(caller, id, price).0.owners[id]
            == v.owners[id],
{
}

/// A purchase is all or nothing: when it fails the state is exactly as
/// before; when it succeeds the price moved from buyer to seller, the listing
/// is gone, the buyer owns the asset, and one transfer and one trade were
/// notified, in that order.
pub proof fn buy_is_all_or_nothing(v: MarketView, caller: AccountId, id: Id, paid: Balance)
    requires
        v.wf(),
    ensures
        v.buy_result(caller, id, paid).1 is Err ==> v.buy_result(caller, id, paid).0 == v,
        v.buy_result(caller, id, paid).1 is Ok ==> {
            let w = v.buy_result(caller, id, paid).0;
            let seller = v.owners[id];
            &&& v.owners.contains_key(id)
            &&& seller != caller
            &&& v.is_listed(id)
            &&& paid == v.listings[id]
            &&& w.funds_of(seller) == v.funds_of(seller) + paid
            &&& w.funds_of(caller) == v.funds_of(caller) - paid
            &&& forall|a: AccountId| a != seller && a != caller ==> w.funds_of(a) == v.funds_of(a)
            &&& w.listings == v.listings.remove(id)
            &&& w.owners == v.owners.insert(id, caller)
            &&& w.count_of(seller) == v.count_of(seller) - 1
            &&& w.count_of(caller) == v.count_of(caller) + 1
            &&& w.supply == v.supply
            &&& w.events == v.events + seq![
                Event::Transfer(Transfer { from: Some(seller), to: Some(caller), id }),
                Event::Trade(Trade { seller, buyer: caller, id, price: paid }),
            ]
        },
{
    let (w, r) = v.buy_result(caller, id, paid);
    if r is Ok {
        let seller = v.owners[id];
        let trade = Event::Trade(Trade { seller, buyer: caller, id, price: paid });
        let tr = Event::Transfer(Transfer { from: Some(seller), to: Some(caller), id });
        assert(w.events =~= v.events + seq![tr, trade]);
        crate::model::lemma_move_token(v, seller, caller, id);
    }
}

} // verus!
