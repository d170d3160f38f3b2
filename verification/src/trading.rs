//! Escrowed peer-to-peer trade offers.
//!
//! [`Trading`] manages two-party offers: a seller proposes to exchange a
//! fixed amount of one resource for a fixed amount of another.  An offer
//! is created active and terminates exactly once, through one successful
//! acceptance or one successful cancellation; every later attempt reports
//! `NotActive`.  Acceptance settles both legs of the exchange through the
//! resource ledger atomically: if either leg cannot be covered, nothing
//! moves and the offer stays active.  Offer ids are assigned from a
//! single monotonic counter, so offer `i` sits at slot `i - 1`.

use crate::economy::EconomyContract;
use std::collections::HashMap;
use vstd::prelude::*;

verus! {

/// One escrowed trade offer.  Amounts are immutable after creation; only
/// the `active` flag ever changes, and only from `true` to `false`.
#[derive(Clone, Copy, Debug, PartialEq, Eq, Structural)]
pub struct TradeOffer {
    pub id: u32,
    pub seller: u64,
    pub sell_resource: u64,
    pub sell_amount: u64,
    pub buy_resource: u64,
    pub buy_amount: u64,
    pub active: bool,
}

/// Expected trading failures, reported as values, never as aborts.
#[derive(Clone, Copy, Debug, PartialEq, Eq, Structural)]
pub enum TradeError {
    InvalidAmount,
    NotFound,
    NotActive,
    SelfTrade,
    Unauthorized,
    InsufficientBalance,
}

/// The subsequence of offers that are still active, in id order.
pub open spec fn active_offers(s: Seq<TradeOffer>) -> Seq<TradeOffer>
    decreases s.len(),
{
    if s.len() == 0 {
        Seq::<TradeOffer>::empty()
    } else {
        let rest = active_offers(s.drop_last());
        if s.last().active {
            rest.push(s.last())
        } else {
            rest
        }
    }
}

/// The net balance movement of the exchange of `offer` between its seller
/// and `buyer`, at the (player, resource) pair `(p, r)`: the seller gives
/// the sell amount and receives the buy amount, the buyer the inverse.
pub open spec fn exchange_delta(offer: TradeOffer, buyer: u64, p: u64, r: u64) -> int {
    (if p == offer.seller && r == offer.sell_resource {
        -(offer.sell_amount as int)
    } else {
        0
    }) + (if p == buyer && r == offer.buy_resource {
        -(offer.buy_amount as int)
    } else {
        0
    }) + (if p == buyer && r == offer.sell_resource {
        offer.sell_amount as int
    } else {
        0
    }) + (if p == offer.seller && r == offer.buy_resource {
        offer.buy_amount as int
    } else {
        0
    })
}

/// Both legs of the exchange can be settled: the seller holds the sell
/// amount, the buyer holds the buy amount, and neither credited balance
/// leaves the machine range.
pub open spec fn exchange_allowed(ledger: EconomyContract, offer: TradeOffer, buyer: u64) -> bool {
    &&& ledger.balance(offer.seller, offer.sell_resource) >= offer.sell_amount
    &&& ledger.balance(buyer, offer.buy_resource) >= offer.buy_amount
    &&& ledger.balance(buyer, offer.sell_resource) - (if offer.sell_resource
        == offer.buy_resource {
        offer.buy_amount as int
    } else {
        0
    }) + offer.sell_amount <= u64::MAX
    &&& ledger.balance(offer.seller, offer.buy_resource) - (if offer.sell_resource
        == offer.buy_resource {
        offer.sell_amount as int
    } else {
        0
    }) + offer.buy_amount <= u64::MAX
}

/// The trade offer book.
pub struct Trading {
    /// Every offer ever created; the offer with id `i` sits at slot
    /// `i - 1` and is never removed.
    pub offers: Vec<TradeOffer>,
    /// The ids of the offers each player has created, in creation order.
    pub player_offers: HashMap<u64, Vec<u32>>,
}

impl Trading {
    /// Whether an offer with this id exists.
    pub open spec fn has_offer(self, id: u32) -> bool {
        1 <= id <= self.offers@.len()
    }

    /// The offer with id `id`.
    pub open spec fn offer(self, id: u32) -> TradeOffer
        recommends
            self.has_offer(id),
    {
        self.offers@[id - 1]
    }

    /// The ids of the offers `player` has created, in creation order.
    pub open spec fn offers_of(self, player: u64) -> Seq<u32> {
        if self.player_offers@.contains_key(player) {
            self.player_offers@[player]@
        } else {
            Seq::<u32>::empty()
        }
    }

    /// Offer ids are dense and positive, and every stored offer has
    /// positive amounts.
    pub open spec fn wf(self) -> bool {
        &&& self.offers@.len() <= u32::MAX
        &&& forall|i: int|
            0 <= i < self.offers@.len() ==> (#[trigger] self.offers@[i]).id == i + 1
        &&& forall|i: int|
            0 <= i < self.offers@.len() ==> (#[trigger] self.offers@[i]).sell_amount > 0
                && self.offers@[i].buy_amount > 0
    }

    /// An empty offer book.
    pub fn new() -> (book: Self)
        ensures
            book.wf(),
            book.offers@ == Seq::<TradeOffer>::empty(),
            forall|p: u64| #[trigger] book.offers_of(p) == Seq::<u32>::empty(),
    {
        Trading { offers: Vec::new(), player_offers: HashMap::new() }
    }

    /// Appends one offer id to a player's list, creating it on first use.
    fn append_player_offer(&mut self, player: u64, id: u32)
        ensures
            final(self).offers_of(player) == old(self).offers_of(player).push(id),
            forall|p: u64|
                p != player ==> #[trigger] final(self).offers_of(p) == old(self).offers_of(p),
            final(self).offers == old(self).offers,
    {
        let ghost pre = *self;
        let mut ids: Vec<u32> = match self.player_offers.remove(&player) {
            Some(v) => v,
            None => Vec::new(),
        };
        proof {
            assert(ids@ =~= pre.offers_of(player));
        }
        ids.push(id);
        self.player_offers.insert(player, ids);
    }

    /// Creates a new active offer under the next monotonic id and records
    /// it under the seller.  Rejects a zero amount on either side with
    /// `InvalidAmount` and changes nothing; the seller's funds are not
    /// locked at creation time, availability is checked at acceptance.
    pub fn create_offer(
        &mut self,
        seller: u64,
        sell_resource: u64,
        sell_amount: u64,
        buy_resource: u64,
        buy_amount: u64,
    ) -> (result: Result<u32, TradeError>)
        requires
            old(self).wf(),
            old(self).offers@.len() < u32::MAX,
        ensures
            final(self).wf(),
            result == if sell_amount == 0 || buy_amount == 0 {
                Result::<u32, TradeError>::Err(TradeError::InvalidAmount)
            } else {
                Result::<u32, TradeError>::Ok((old(self).offers@.len() + 1) as u32)
            },
            result is Err ==> *final(self) == *old(self),
            result matches Ok(id) ==> {
                &&& final(self).offers@ == old(self).offers@.push(
                    TradeOffer {
                        id,
                        seller,
                        sell_resource,
                        sell_amount,
                        buy_resource,
                        buy_amount,
                        active: true,
                    },
                )
                &&& final(self).offers_of(seller) == old(self).offers_of(seller).push(id)
                &&& forall|p: u64|
                    p != seller ==> #[trigger] final(self).offers_of(p) == old(self).offers_of(p)
            },
    {
        if sell_amount == 0 || buy_amount == 0 {
            return Err(TradeError::InvalidAmount);
        }
        let id: u32 = self.offers.len() as u32 + 1;
        let offer = TradeOffer {
            id,
            seller,
            sell_resource,
            sell_amount,
            buy_resource,
            buy_amount,
            active: true,
        };
        self.offers.push(offer);
        self.append_player_offer(seller, id);
        Ok(id)
    }

    /// Accepts an active offer on behalf of `buyer`: settles both legs of
    /// the exchange through the ledger and terminates the offer.  Fails
    /// with `NotFound` for an unknown id, `NotActive` for a terminated
    /// offer (on every subsequent call), `SelfTrade` when the buyer is the
    /// seller, and `InsufficientBalance` when either leg cannot be
    /// covered; on every failure both the book and the ledger are
    /// unchanged, so there is never a partial exchange.
    pub fn accept_offer(&mut self, ledger: &mut EconomyContract, buyer: u64, offer_id: u32) -> (result:
        Result<(), TradeError>)
        requires
            old(self).wf(),
        ensures
            final(self).wf(),
            result == if !old(self).has_offer(offer_id) {
                Result::<(), TradeError>::Err(TradeError::NotFound)
            } else if !old(self).offer(offer_id).active {
                Result::<(), TradeError>::Err(TradeError::NotActive)
            } else if old(self).offer(offer_id).seller == buyer {
                Result::<(), TradeError>::Err(TradeError::SelfTrade)
            } else if !exchange_allowed(*old(ledger), old(self).offer(offer_id), buyer) {
                Result::<(), TradeError>::Err(TradeError::InsufficientBalance)
            } else {
                Result::<(), TradeError>::Ok(())
            },
            result is Err ==> *final(self) == *old(self) && *final(ledger) == *old(ledger),
            result is Ok ==> final(self).offers@ == old(self).offers@.update(
                offer_id - 1,
                TradeOffer { active: false, ..old(self).offer(offer_id) },
            ),
            result is Ok ==> final(self).player_offers == old(self).player_offers,
            result is Ok ==> forall|p: u64, r: u64| #[trigger]
                final(ledger).balance(p, r) == old(ledger).balance(p, r) + exchange_delta(
                    old(self).offer(offer_id),
                    buyer,
                    p,
                    r,
                ),
            result is Ok ==> final(ledger).history == old(ledger).history,
            final(ledger).prices == old(ledger).prices,
    {
        if offer_id < 1 || offer_id as usize > self.offers.len() {
            return Err(TradeError::NotFound);
        }
        let idx = (offer_id - 1) as usize;
        let offer = self.offers[idx];
        if !offer.active {
            return Err(TradeError::NotActive);
        }
        if offer.seller == buyer {
            return Err(TradeError::SelfTrade);
        }
        let seller_sell = ledger.get_balance(offer.seller, offer.sell_resource);
        if seller_sell < offer.sell_amount {
            return Err(TradeError::InsufficientBalance);
        }
        let buyer_buy = ledger.get_balance(buyer, offer.buy_resource);
        if buyer_buy < offer.buy_amount {
            return Err(TradeError::InsufficientBalance);
        }
        let buyer_sell_after: u64 = if offer.sell_resource == offer.buy_resource {
            buyer_buy - offer.buy_amount
        } else {
            ledger.get_balance(buyer, offer.sell_resource)
        };
        if buyer_sell_after > u64::MAX - offer.sell_amount {
            return Err(TradeError::InsufficientBalance);
        }
        let seller_buy_after: u64 = if offer.sell_resource == offer.buy_resource {
            seller_sell - offer.sell_amount
        } else {
            ledger.get_balance(offer.seller, offer.buy_resource)
        };
        if seller_buy_after > u64::MAX - offer.buy_amount {
            return Err(TradeError::InsufficientBalance);
        }
        let ghost l0 = *ledger;
        let ok1 = ledger.debit(offer.seller, offer.sell_resource, offer.sell_amount);
        let ghost l1 = *ledger;
        let ok2 = ledger.debit(buyer, offer.buy_resource, offer.buy_amount);
        let ghost l2 = *ledger;
        let ok3 = ledger.credit(buyer, offer.sell_resource, offer.sell_amount);
        let ghost l3 = *ledger;
        let ok4 = ledger.credit(offer.seller, offer.buy_resource, offer.buy_amount);
        proof {
            assert(ok1);
            assert(ok2);
            assert(ok3);
            assert(ok4);
            assert forall|p: u64, r: u64| #[trigger]
                ledger.balance(p, r) == l0.balance(p, r) + exchange_delta(
                    offer,
                    buyer,
                    p,
                    r,
                ) by {
                assert(l1.balance(p, r) == if p == offer.seller && r == offer.sell_resource {
                    l0.balance(p, r) - offer.sell_amount
                } else {
                    l0.balance(p, r) as int
                });
                assert(l2.balance(p, r) == if p == buyer && r == offer.buy_resource {
                    l1.balance(p, r) - offer.buy_amount
                } else {
                    l1.balance(p, r) as int
                });
                assert(l3.balance(p, r) == if p == buyer && r == offer.sell_resource {
                    l2.balance(p, r) + offer.sell_amount
                } else {
                    l2.balance(p, r) as int
                });
            }
        }
        let slot = &mut self.offers[idx];
        slot.active = false;
        Ok(())
    }

    /// Cancels an active offer.  Only the seller may cancel: any other
    /// caller gets `Unauthorized` and the offer stays active.  A
    /// terminated offer reports `NotActive` on every subsequent call.  No
    /// resources move.
    pub fn cancel_offer(&mut self, caller: u64, offer_id: u32) -> (result: Result<(), TradeError>)
        requires
            old(self).wf(),
        ensures
            final(self).wf(),
            result == if !old(self).has_offer(offer_id) {
                Result::<(), TradeError>::Err(TradeError::NotFound)
            } else if old(self).offer(offer_id).seller != caller {
                Result::<(), TradeError>::Err(TradeError::Unauthorized)
            } else if !old(self).offer(offer_id).active {
                Result::<(), TradeError>::Err(TradeError::NotActive)
            } else {
                Result::<(), TradeError>::Ok(())
            },
            result is Err ==> *final(self) == *old(self),
            result is Ok ==> final(self).offers@ == old(self).offers@.update(
                offer_id - 1,
                TradeOffer { active: false, ..old(self).offer(offer_id) },
            ),
            result is Ok ==> final(self).player_offers == old(self).player_offers,
    {
        if offer_id < 1 || offer_id as usize > self.offers.len() {
            return Err(TradeError::NotFound);
        }
        let idx = (offer_id - 1) as usize;
        let offer = self.offers[idx];
        if offer.seller != caller {
            return Err(TradeError::Unauthorized);
        }
        if !offer.active {
            return Err(TradeError::NotActive);
        }
        let slot = &mut self.offers[idx];
        slot.active = false;
        Ok(())
    }

    /// Every offer that is currently active, in id order.
    pub fn get_active_offers(&self) -> (active: Vec<TradeOffer>)
        ensures
            active@ == active_offers(self.offers@),
    {
        let mut out: Vec<TradeOffer> = Vec::new();
        let mut i: usize = 0;
        while i < self.offers.len()
            invariant
                i <= self.offers.len(),
                out@ == active_offers(self.offers@.take(i as int)),
            decreases self.offers.len() - i,
        {
            let offer = self.offers[i];
            if offer.active {
                out.push(offer);
            }
            proof {
                let taken = self.offers@.take(i + 1);
                assert(taken.drop_last() =~= self.offers@.take(i as int));
                assert(taken.last() == self.offers@[i as int]);
            }
            i = i + 1;
        }
        proof {
            assert(self.offers@.take(self.offers@.len() as int) =~= self.offers@);
        }
        out
    }

    /// The ids of the offers `player` has created, in creation order.
    pub fn get_player_offers(&self, player: u64) -> (ids: Vec<u32>)
        ensures
            ids@ == self.offers_of(player),
    {
        match self.player_offers.get(&player) {
            Some(stored) => {
                let mut out: Vec<u32> = Vec::new();
                let mut i: usize = 0;
                while i < stored.len()
                    invariant
                        i <= stored.len(),
                        out@ == stored@.take(i as int),
                    decreases stored.len() - i,
                {
                    out.push(stored[i]);
                    proof {
                        assert(stored@.take(i + 1) =~= stored@.take(i as int).push(
                            stored@[i as int],
                        ));
                    }
                    i = i + 1;
                }
                proof {
                    assert(stored@.take(stored@.len() as int) =~= stored@);
                }
                out
            },
            None => Vec::new(),
        }
    }

    /// The number of offers ever created (the current id counter).
    pub fn offer_count(&self) -> (count: u32)
        requires
            self.wf(),
        ensures
            count == self.offers@.len(),
    {
        self.offers.len() as u32
    }

    /// The offer with this id, or `None` for an id never assigned.
    pub fn get_offer_details(&self, offer_id: u32) -> (result: Option<TradeOffer>)
        ensures
            result == if self.has_offer(offer_id) {
                Some(self.offer(offer_id))
            } else {
                None::<TradeOffer>
            },
    {
        if offer_id >= 1 && offer_id as usize <= self.offers.len() {
            Some(self.offers[(offer_id - 1) as usize])
        } else {
            None
        }
    }
}

} // verus!
