//! The abstract state of the marketplace and what each operation does to it.
use vstd::prelude::*;
use vstd::set_lib::lemma_len_subset;

use crate::types::{AccountId, Balance, Error, Event, Id, PSP34Error, Trade, Transfer};

verus! {

/// The whole state as plain maps: the listing store, the registry's
/// ownership records, the payment ledger and the notifications emitted so far.
pub struct MarketView {
    /// Asset id to listed price.
    pub listings: Map<Id, Balance>,
    /// Asset id to owner.
    pub owners: Map<Id, AccountId>,
    /// Account to the number of assets it owns; an absent account owns none.
    pub counts: Map<AccountId, u128>,
    /// Number of assets in the registry.
    pub supply: u128,
    /// Account to funds in the payment currency; an absent account holds none.
    pub funds: Map<AccountId, Balance>,
    /// Notifications, oldest first.
    pub events: Seq<Event>,
}

impl MarketView {
    pub open spec fn is_listed(self, id: Id) -> bool {
        self.listings.contains_key(id)
    }

    pub open spec fn count_of(self, a: AccountId) -> int {
        if self.counts.contains_key(a) {
            self.counts[a] as int
        } else {
            0
        }
    }

    pub open spec fn funds_of(self, a: AccountId) -> int {
        if self.funds.contains_key(a) {
            self.funds[a] as int
        } else {
            0
        }
    }

    /// The assets that `a` owns.
    pub open spec fn owned_by(self, a: AccountId) -> Set<Id> {
        self.owners.dom().filter(|i: Id| self.owners[i] == a)
    }

    /// Well-formedness: the per-account counts and the supply agree with the
    /// ownership records, and only existing assets are listed.
    pub open spec fn wf(self) -> bool {
        &&& self.owners.dom().finite()
        &&& self.supply as int == self.owners.dom().len()
        &&& forall|a: AccountId| #[trigger] self.count_of(a) == self.owned_by(a).len()
        &&& forall|id: Id| self.listings.contains_key(id) ==> self.owners.contains_key(id)
    }

    /// The state after the registry moves `id` from `from` to `to`: the
    /// ownership record and the counts change and a transfer is notified.
    pub open spec fn move_token(self, from: AccountId, to: AccountId, id: Id) -> MarketView {
        let dec = self.counts.insert(from, (self.count_of(from) - 1) as u128);
        let to_count = if dec.contains_key(to) {
            dec[to] as int
        } else {
            0
        };
        MarketView {
            owners: self.owners.insert(id, to),
            counts: dec.insert(to, (to_count + 1) as u128),
            events: self.events.push(Event::Transfer(Transfer { from: Some(from), to: Some(to), id })),
            ..self
        }
    }

    /// `ask`: the owner lists `id` at `price`, replacing any earlier price.
    pub open spec fn ask_result(self, caller: AccountId, id: Id, price: Balance) -> (
        MarketView,
        Result<(), Error>,
    ) {
        if !self.owners.contains_key(id) {
            (self, Err(Error::Psp34(PSP34Error::TokenNotExists)))
        } else if self.owners[id] != caller {
            (self, Err(Error::NotTokenOwner))
        } else {
            (MarketView { listings: self.listings.insert(id, price), ..self }, Ok(()))
        }
    }

    /// `cancel`: the owner withdraws the listing of `id`.
    pub open spec fn cancel_result(self, caller: AccountId, id: Id) -> (
        MarketView,
        Result<(), Error>,
    ) {
        if !self.owners.contains_key(id) {
            (self, Err(Error::Psp34(PSP34Error::TokenNotExists)))
        } else if self.owners[id] != caller {
            (self, Err(Error::NotTokenOwner))
        } else if !self.is_listed(id) {
            (self, Err(Error::NotInSale))
        } else {
            (MarketView { listings: self.listings.remove(id), ..self }, Ok(()))
        }
    }

    /// Whether the ledger can move `amount` from `payer` to `payee`.
    pub open spec fn can_pay(self, payer: AccountId, payee: AccountId, amount: Balance) -> bool {
        &&& amount <= self.funds_of(payer)
        &&& self.funds_of(payee) + amount <= u128::MAX
    }

    /// The ledger after moving `amount` from `payer` to `payee`.
    pub open spec fn pay(self, payer: AccountId, payee: AccountId, amount: Balance) -> MarketView {
        let after_debit = self.funds.insert(payer, (self.funds_of(payer) - amount) as u128);
        MarketView {
            funds: after_debit.insert(payee, (self.funds_of(payee) + amount) as u128),
            ..self
        }
    }

    /// `buy`: `caller` pays `paid` for `id`. On success the payment reaches the
    /// seller, the listing is cleared, ownership moves to the buyer, and a
    /// transfer and a trade are notified, in that order.
    pub open spec fn buy_result(self, caller: AccountId, id: Id, paid: Balance) -> (
        MarketView,
        Result<(), Error>,
    ) {
        if !self.owners.contains_key(id) {
            (self, Err(Error::Psp34(PSP34Error::TokenNotExists)))
        } else if self.owners[id] == caller {
            (self, Err(Error::SelfBuy))
        } else if !self.is_listed(id) {
            (self, Err(Error::NotInSale))
        } else if paid != self.listings[id] {
            (self, Err(Error::NotMatchPrice))
        } else if !self.can_pay(caller, self.owners[id], paid) {
            (self, Err(Error::NativeTransfer))
        } else {
            let seller = self.owners[id];
            let paid_state = self.pay(caller, seller, paid);
            let unlisted = MarketView { listings: self.listings.remove(id), ..paid_state };
            let moved = unlisted.move_token(seller, caller, id);
            let trade = Event::Trade(Trade { seller, buyer: caller, id, price: paid });
            (MarketView { events: moved.events.push(trade), ..moved }, Ok(()))
        }
    }

    /// A plain transfer through the registry, made by `caller`.
    pub open spec fn transfer_result(self, caller: AccountId, to: AccountId, id: Id) -> (
        MarketView,
        Result<(), Error>,
    ) {
        if !self.owners.contains_key(id) {
            (self, Err(Error::Psp34(PSP34Error::TokenNotExists)))
        } else if self.owners[id] != caller {
            (self, Err(Error::Psp34(PSP34Error::NotApproved)))
        } else if self.is_listed(id) {
            (self, Err(Error::TransferTokenInSale))
        } else {
            (self.move_token(caller, to, id), Ok(()))
        }
    }

    /// The registry creates `id`, owned by `to`.
    pub open spec fn mint_result(self, to: AccountId, id: Id) -> (MarketView, Result<(), Error>) {
        if self.owners.contains_key(id) {
            (self, Err(Error::Psp34(PSP34Error::TokenExists)))
        } else {
            (
                MarketView {
                    owners: self.owners.insert(id, to),
                    counts: self.counts.insert(to, (self.count_of(to) + 1) as u128),
                    supply: (self.supply + 1) as u128,
                    events: self.events.push(
                        Event::Transfer(Transfer { from: None, to: Some(to), id }),
                    ),
                    ..self
                },
                Ok(()),
            )
        }
    }
}

/// Moving an asset from its owner keeps the state well formed; before the
/// move the owner's count is positive and the receiver's count has room for one more.
pub proof fn lemma_move_token(v: MarketView, from: AccountId, to: AccountId, id: Id)
    requires
        v.wf(),
        v.owners.contains_key(id),
        v.owners[id] == from,
    ensures
        v.move_token(from, to, id).wf(),
        v.count_of(from) >= 1,
        from != to ==> v.count_of(to) < u128::MAX,
{
    let w = v.move_token(from, to, id);
    let dom = v.owners.dom();
    assert(w.owners.dom() =~= dom);
    lemma_len_subset(v.owned_by(from), dom);
    assert(v.owned_by(from).contains(id));
    assert(v.owned_by(from).remove(id).len() == v.owned_by(from).len() - 1);
    if from != to {
        assert(v.owned_by(to).subset_of(dom.remove(id)));
        lemma_len_subset(v.owned_by(to), dom.remove(id));
        assert(v.count_of(to) == v.owned_by(to).len());
    }
    assert forall|a: AccountId| #[trigger] w.count_of(a) == w.owned_by(a).len() by {
        lemma_len_subset(v.owned_by(a), dom);
        assert(v.count_of(a) == v.owned_by(a).len());
        if a == to && a == from {
            assert(w.owned_by(a) =~= v.owned_by(a));
        } else if a == to {
            assert(w.owned_by(a) =~= v.owned_by(a).insert(id));
            assert(w.count_of(a) == v.count_of(a) + 1);
        } else if a == from {
            assert(w.owned_by(a) =~= v.owned_by(a).remove(id));
            assert(w.count_of(a) == v.count_of(a) - 1);
        } else {
            assert(w.owned_by(a) =~= v.owned_by(a));
            assert(w.count_of(a) == v.count_of(a));
        }
    }
}

/// Creating a new asset keeps the state well formed, provided the supply has
/// room for one more; the receiver's count has room too.
pub proof fn lemma_mint(v: MarketView, to: AccountId, id: Id)
    requires
        v.wf(),
        !v.owners.contains_key(id),
        v.supply < u128::MAX,
    ensures
        v.mint_result(to, id).0.wf(),
        v.count_of(to) < u128::MAX,
{
    let w = v.mint_result(to, id).0;
    let dom = v.owners.dom();
    assert(w.owners.dom() =~= dom.insert(id));
    assert forall|a: AccountId| #[trigger] w.count_of(a) == w.owned_by(a).len() by {
        lemma_len_subset(v.owned_by(a), dom);
        assert(v.count_of(a) == v.owned_by(a).len());
        if a == to {
            assert(w.owned_by(a) =~= v.owned_by(a).insert(id));
        } else {
            assert(w.owned_by(a) =~= v.owned_by(a));
        }
    }
    lemma_len_subset(v.owned_by(to), dom);
    assert(v.count_of(to) == v.owned_by(to).len());
}

/// Well-formedness survives any change that leaves the registry alone and
/// lists no new asset.
pub proof fn lemma_wf_frame(v: MarketView, w: MarketView)
    requires
        v.wf(),
        w.owners == v.owners,
        w.counts == v.counts,
        w.supply == v.supply,
        forall|id: Id| w.listings.contains_key(id) ==> v.owners.contains_key(id),
    ensures
        w.wf(),
{
    assert forall|a: AccountId| #[trigger] w.count_of(a) == w.owned_by(a).len() by {
        assert(v.count_of(a) == v.owned_by(a).len());
    }
}

} // verus!
