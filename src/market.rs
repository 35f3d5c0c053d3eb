//! The marketplace engine: one owned state holding the listing store, the
//! asset registry's records, the payment ledger and the emitted notifications.
use std::collections::HashMap;
use vstd::prelude::*;

use crate::model::{lemma_mint, lemma_move_token, lemma_wf_frame, MarketView};
use crate::store::ListingStore;
use crate::types::{
    is_registry_error_of, AccountId, Balance, Error, Event, Id, PSP34Error, Trade, Transfer,
};

verus! {

broadcast use vstd::std_specs::hash::group_hash_axioms;

/// The marketplace and the registry of assets it trades.
pub struct Videown {
    asks: ListingStore,
    token_owner: HashMap<Id, AccountId>,
    owned_tokens_count: HashMap<AccountId, u128>,
    total_supply: u128,
    funds: HashMap<AccountId, Balance>,
    events: Vec<Event>,
}

impl View for Videown {
    type V = MarketView;

    closed spec fn view(&self) -> MarketView {
        MarketView {
            listings: self.asks@,
            owners: self.token_owner@,
            counts: self.owned_tokens_count@,
            supply: self.total_supply,
            funds: self.funds@,
            events: self.events@,
        }
    }
}

/// `e` is how the registry reports the marketplace error `me`.
pub open spec fn reported_as(me: Error, e: PSP34Error) -> bool {
    match me {
        Error::Psp34(p) => e == p,
        _ => is_registry_error_of(me, e),
    }
}

impl Videown {
    /// An empty marketplace: no asset, no listing, no funds, no notification.
    pub fn new() -> (r: Self)
        ensures
            r@.listings == Map::<Id, Balance>::empty(),
            r@.owners == Map::<Id, AccountId>::empty(),
            r@.counts == Map::<AccountId, u128>::empty(),
            r@.supply == 0,
            r@.funds == Map::<AccountId, Balance>::empty(),
            r@.events == Seq::<Event>::empty(),
            r@.wf(),
    {
        let r = Videown {
            asks: ListingStore::new(),
            token_owner: HashMap::new(),
            owned_tokens_count: HashMap::new(),
            total_supply: 0,
            funds: HashMap::new(),
            events: Vec::new(),
        };
        proof {
            assert forall|a: AccountId| #[trigger] r@.count_of(a) == r@.owned_by(a).len() by {
                assert(r@.owned_by(a) =~= Set::<Id>::empty());
            }
        }
        r
    }

    /// The number of assets that `owner` holds.
    pub fn balance_of(&self, owner: &AccountId) -> (r: u128)
        ensures
            r == self@.count_of(*owner),
    {
        match self.owned_tokens_count.get(owner) {
            Some(c) => *c,
            None => 0,
        }
    }

    /// Funds of `account` in the payment currency.
    pub fn native_balance(&self, account: &AccountId) -> (r: Balance)
        ensures
            r == self@.funds_of(*account),
    {
        match self.funds.get(account) {
            Some(b) => *b,
            None => 0,
        }
    }

    /// Records that `owner` received one more asset, and that the supply grew
    /// if `increase_supply` is set.
    pub fn _increase_balance(&mut self, owner: &AccountId, id: &Id, increase_supply: bool)
        requires
            old(self)@.count_of(*owner) < u128::MAX,
            increase_supply ==> old(self)@.supply < u128::MAX,
        ensures
            final(self)@ == (MarketView {
                counts: old(self)@.counts.insert(*owner, (old(self)@.count_of(*owner) + 1) as u128),
                supply: if increase_supply {
                    (old(self)@.supply + 1) as u128
                } else {
                    old(self)@.supply
                },
                ..old(self)@
            }),
    {
        let to_balance = self.balance_of(owner);
        self.owned_tokens_count.insert(*owner, to_balance + 1);
        if increase_supply {
            self.total_supply = self.total_supply + 1;
        }
    }

    /// Records that `owner` gave up one asset, and that the supply shrank if
    /// `decrease_supply` is set.
    pub fn _decrease_balance(&mut self, owner: &AccountId, id: &Id, decrease_supply: bool)
        requires
            old(self)@.count_of(*owner) >= 1,
            decrease_supply ==> old(self)@.supply >= 1,
        ensures
            final(self)@ == (MarketView {
                counts: old(self)@.counts.insert(*owner, (old(self)@.count_of(*owner) - 1) as u128),
                supply: if decrease_supply {
                    (old(self)@.supply - 1) as u128
                } else {
                    old(self)@.supply
                },
                ..old(self)@
            }),
    {
        let from_balance = self.balance_of(owner);
        self.owned_tokens_count.insert(*owner, from_balance - 1);
        if decrease_supply {
            self.total_supply = self.total_supply - 1;
        }
    }

    /// The transfer guard, consulted before every ownership change: it refuses
    /// to move a listed asset and changes nothing.
    pub fn _before_token_transfer(
        &mut self,
        _from: Option<&AccountId>,
        _to: Option<&AccountId>,
        id: &Id,
    ) -> (r: Result<(), PSP34Error>)
        ensures
            *final(self) == *old(self),
            r is Ok <==> !old(self)@.is_listed(*id),
            r matches Err(e) ==> is_registry_error_of(Error::TransferTokenInSale, e),
    {
        if self.asks.get(*id).is_some() {
            return Err(PSP34Error::from(Error::TransferTokenInSale));
        }
        Ok(())
    }

    /// The registry's move of `id` from `from` to `to`, once the guard passed.
    fn move_token(&mut self, from: AccountId, to: AccountId, id: Id)
        requires
            old(self)@.wf(),
            old(self)@.owners.contains_key(id),
            old(self)@.owners[id] == from,
        ensures
            final(self)@ == old(self)@.move_token(from, to, id),
            final(self)@.wf(),
    {
        proof {
            lemma_move_token(self@, from, to, id);
        }
        self._decrease_balance(&from, &id, false);
        self.token_owner.remove(&id);
        self._increase_balance(&to, &id, false);
        self.token_owner.insert(id, to);
        self.events.push(Event::Transfer(Transfer { from: Some(from), to: Some(to), id }));
        proof {
            assert(self@.owners =~= old(self)@.move_token(from, to, id).owners);
        }
    }

    /// The owner of `id`, or the registry's error if there is no such asset.
    fn check_token_exists(&self, id: &Id) -> (r: Result<AccountId, PSP34Error>)
        ensures
            self@.owners.contains_key(*id) ==> r == Ok::<AccountId, PSP34Error>(self@.owners[*id]),
            !self@.owners.contains_key(*id) ==> r == Err::<AccountId, PSP34Error>(
                PSP34Error::TokenNotExists,
            ),
    {
        match self.token_owner.get(id) {
            Some(o) => Ok(*o),
            None => Err(PSP34Error::TokenNotExists),
        }
    }

    /// `caller` buys `id`, paying `transferred`. Either every effect happens
    /// (payment to the seller, listing cleared, ownership to the buyer, a
    /// transfer and a trade notified) or none does.
    pub fn buy(&mut self, caller: AccountId, id: Id, transferred: Balance) -> (r: Result<(), Error>)
        requires
            old(self)@.wf(),
        ensures
            (final(self)@, r) == old(self)@.buy_result(caller, id, transferred),
            final(self)@.wf(),
    {
        let owner = match self.check_token_exists(&id) {
            Ok(o) => o,
            Err(e) => return Err(Error::from(e)),
        };
        if owner == caller {
            return Err(Error::SelfBuy);
        }
        let price = match self.asks.get(id) {
            Some(p) => p,
            None => return Err(Error::NotInSale),
        };
        if transferred != price {
            return Err(Error::NotMatchPrice);
        }
        let buyer_funds = self.native_balance(&caller);
        let seller_funds = self.native_balance(&owner);
        if buyer_funds < price || seller_funds > u128::MAX - price {
            return Err(Error::NativeTransfer);
        }
        self.funds.insert(caller, buyer_funds - price);
        self.funds.insert(owner, seller_funds + price);

        self.asks.remove(id);
        proof {
            lemma_wf_frame(old(self)@, self@);
        }
        match self._before_token_transfer(Some(&owner), Some(&caller), &id) {
            Ok(()) => {},
            Err(e) => return Err(Error::from(e)),
        }
        self.move_token(owner, caller, id);
        let ghost moved = self@;
        self.events.push(Event::Trade(Trade { seller: owner, buyer: caller, id, price }));
        proof {
            lemma_wf_frame(moved, self@);
        }
        Ok(())
    }

    /// The owner `caller` lists `id` at `price`; an earlier price is replaced.
    pub fn ask(&mut self, caller: AccountId, id: Id, price: Balance) -> (r: Result<(), Error>)
        requires
            old(self)@.wf(),
        ensures
            (final(self)@, r) == old(self)@.ask_result(caller, id, price),
            final(self)@.wf(),
    {
        let owner = match self.check_token_exists(&id) {
            Ok(o) => o,
            Err(e) => return Err(Error::from(e)),
        };
        if owner != caller {
            return Err(Error::NotTokenOwner);
        }
        self.asks.set(id, price);
        proof {
            lemma_wf_frame(old(self)@, self@);
        }
        Ok(())
    }

    /// The owner `caller` withdraws the listing of `id`.
    pub fn cancel(&mut self, caller: AccountId, id: Id) -> (r: Result<(), Error>)
        requires
            old(self)@.wf(),
        ensures
            (final(self)@, r) == old(self)@.cancel_result(caller, id),
            final(self)@.wf(),
    {
        let owner = match self.check_token_exists(&id) {
            Ok(o) => o,
            Err(e) => return Err(Error::from(e)),
        };
        if owner != caller {
            return Err(Error::NotTokenOwner);
        }
        if self.asks.get(id).is_none() {
            return Err(Error::NotInSale);
        }
        self.asks.remove(id);
        proof {
            lemma_wf_frame(old(self)@, self@);
        }
        Ok(())
    }

    /// The price at which `id` is listed, or `None` if it is not for sale.
    pub fn price(&self, id: Id) -> (r: Option<Balance>)
        ensures
            r == (if self@.is_listed(id) {
                Some(self@.listings[id])
            } else {
                None::<Balance>
            }),
    {
        self.asks.get(id)
    }

    /// A plain transfer of `id` by its owner `caller` to `to`, outside the
    /// marketplace. The transfer guard refuses it while `id` is listed.
    pub fn transfer(&mut self, caller: AccountId, to: AccountId, id: Id) -> (r: Result<(), PSP34Error>)
        requires
            old(self)@.wf(),
        ensures
            final(self)@ == old(self)@.transfer_result(caller, to, id).0,
            r is Ok <==> old(self)@.transfer_result(caller, to, id).1 is Ok,
            r matches Err(e) ==> reported_as(old(self)@.transfer_result(caller, to, id).1->Err_0, e),
            final(self)@.wf(),
    {
        let owner = self.check_token_exists(&id)?;
        if owner != caller {
            return Err(PSP34Error::NotApproved);
        }
        self._before_token_transfer(Some(&owner), Some(&to), &id)?;
        self.move_token(owner, to, id);
        Ok(())
    }

    /// The registry creates asset `id`, owned by `to`.
    pub fn mint(&mut self, to: AccountId, id: Id) -> (r: Result<(), PSP34Error>)
        requires
            old(self)@.wf(),
            old(self)@.supply < u128::MAX,
        ensures
            final(self)@ == old(self)@.mint_result(to, id).0,
            r is Ok <==> old(self)@.mint_result(to, id).1 is Ok,
            r matches Err(e) ==> reported_as(old(self)@.mint_result(to, id).1->Err_0, e),
            final(self)@.wf(),
    {
        if self.token_owner.get(&id).is_some() {
            return Err(PSP34Error::TokenExists);
        }
        proof {
            lemma_mint(self@, to, id);
        }
        self._increase_balance(&to, &id, true);
        self.token_owner.insert(id, to);
        self.events.push(Event::Transfer(Transfer { from: None, to: Some(to), id }));
        proof {
            assert(self@.owners =~= old(self)@.mint_result(to, id).0.owners);
        }
        Ok(())
    }

    /// Credits `amount` of the payment currency to `account`.
    pub fn deposit(&mut self, account: AccountId, amount: Balance)
        requires
            old(self)@.wf(),
            old(self)@.funds_of(account) + amount <= u128::MAX,
        ensures
            final(self)@ == (MarketView {
                funds: old(self)@.funds.insert(account, (old(self)@.funds_of(account) + amount) as u128),
                ..old(self)@
            }),
            final(self)@.wf(),
    {
        let current = self.native_balance(&account);
        self.funds.insert(account, current + amount);
        proof {
            lemma_wf_frame(old(self)@, self@);
        }
    }

    /// The owner of `id`, if the asset exists.
    pub fn owner_of(&self, id: Id) -> (r: Option<AccountId>)
        ensures
            r == (if self@.owners.contains_key(id) {
                Some(self@.owners[id])
            } else {
                None::<AccountId>
            }),
    {
        match self.token_owner.get(&id) {
            Some(o) => Some(*o),
            None => None,
        }
    }

    /// The number of assets in the registry.
    pub fn total_supply(&self) -> (r: u128)
        ensures
            r == self@.supply,
    {
        self.total_supply
    }

    /// The notifications emitted so far, oldest first.
    pub fn events(&self) -> (r: &Vec<Event>)
        ensures
            r@ == self@.events,
    {
        &self.events
    }
}

} // verus!
