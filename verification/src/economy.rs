//! The resource ledger.
//!
//! [`EconomyContract`] owns every per-player resource balance, the price
//! record of each resource kind, and an append-only transaction log per
//! player.  Balances are non-negative by construction (they are unsigned
//! and every debit is checked), transfers and trades are all-or-nothing,
//! and the total quantity of a resource is conserved by every transfer,
//! purchase and sale.

use crate::keys::{lemma_pair_key_injective, pack_pair, pair_key};
use crate::pricing::{current_price, price_at, MAX_BASE_PRICE};
use std::collections::HashMap;
use vstd::prelude::*;

verus! {

/// The volatility percentage assigned to every newly initialized resource.
pub const DEFAULT_VOLATILITY: u64 = 10;

/// What kind of ledger movement a transaction records.
#[derive(Clone, Copy, Debug, PartialEq, Eq, Structural)]
pub enum TxKind {
    Transfer,
    Buy,
    Sell,
}

/// One completed ledger movement.  Immutable once appended to a log.
/// `price` is the resolved unit price for market trades and 0 for plain
/// transfers.
#[derive(Clone, Copy, Debug, PartialEq, Eq, Structural)]
pub struct Transaction {
    pub timestamp: u64,
    pub kind: TxKind,
    pub resource: u64,
    pub amount: u64,
    pub price: u64,
    pub counterparty: u64,
}

/// The stored pricing parameters of one resource kind.
#[derive(Clone, Copy, Debug, PartialEq, Eq, Structural)]
pub struct ResourcePrice {
    pub base_price: u64,
    pub volatility: u64,
    pub last_update: u64,
}

/// Expected ledger failures, reported as values, never as aborts.
#[derive(Clone, Copy, Debug, PartialEq, Eq, Structural)]
pub enum LedgerError {
    AlreadyExists,
}

/// The resource ledger: balances, price records and transaction logs.
pub struct EconomyContract {
    /// Balance of each (player, resource) pair, keyed by the packed pair.
    pub balances: HashMap<u128, u64>,
    /// Price record of each initialized resource kind.
    pub prices: HashMap<u64, ResourcePrice>,
    /// Append-only transaction log of each player.
    pub history: HashMap<u64, Vec<Transaction>>,
}

impl EconomyContract {
    /// The balance of `player` in `resource`; players with no prior
    /// activity hold zero of everything.
    pub open spec fn balance(self, player: u64, resource: u64) -> u64 {
        if self.balances@.contains_key(pair_key(player, resource)) {
            self.balances@[pair_key(player, resource)]
        } else {
            0
        }
    }

    /// The transaction log of `player`, oldest first; empty for players
    /// with no prior activity.
    pub open spec fn history_of(self, player: u64) -> Seq<Transaction> {
        if self.history@.contains_key(player) {
            self.history@[player]@
        } else {
            Seq::<Transaction>::empty()
        }
    }

    /// Whether a price record exists for `resource`.
    pub open spec fn has_resource(self, resource: u64) -> bool {
        self.prices@.contains_key(resource)
    }

    /// The price record of `resource`.
    pub open spec fn price_record(self, resource: u64) -> ResourcePrice
        recommends
            self.has_resource(resource),
    {
        self.prices@[resource]
    }

    /// Every stored price record admits price computation without
    /// overflow: the base price is bounded and the volatility is a
    /// percentage.
    pub open spec fn wf(self) -> bool {
        forall|r: u64| #[trigger]
            self.prices@.contains_key(r) ==> self.prices@[r].base_price <= MAX_BASE_PRICE
                && self.prices@[r].volatility <= 100
    }

    /// The clock reads at or after the reference point of `resource`'s
    /// price record.  The platform clock is monotonic and records are
    /// written at a past clock reading, so every caller can supply this.
    pub open spec fn clock_ok(self, resource: u64, now: u64) -> bool {
        self.has_resource(resource) ==> now >= self.price_record(resource).last_update
    }

    /// An empty ledger: no balances, no price records, no history.
    pub fn new() -> (ledger: Self)
        ensures
            ledger.wf(),
            forall|p: u64, r: u64| #[trigger] ledger.balance(p, r) == 0,
            forall|p: u64| #[trigger] ledger.history_of(p) == Seq::<Transaction>::empty(),
            forall|r: u64| !(#[trigger] ledger.has_resource(r)),
    {
        EconomyContract {
            balances: HashMap::new(),
            prices: HashMap::new(),
            history: HashMap::new(),
        }
    }

    /// After writing the balance of one (player, resource) pair, that
    /// pair holds the written amount and every other pair is untouched.
    proof fn lemma_balance_update(pre: Self, post: Self, player: u64, resource: u64, amount: u64)
        requires
            post.balances@ == pre.balances@.insert(pair_key(player, resource), amount),
        ensures
            post.balance(player, resource) == amount,
            forall|p: u64, r: u64|
                !(p == player && r == resource) ==> #[trigger] post.balance(p, r) == pre.balance(
                    p,
                    r,
                ),
    {
        assert forall|p: u64, r: u64| !(p == player && r == resource) implies #[trigger] post
            .balance(p, r) == pre.balance(p, r) by {
            if pair_key(p, r) == pair_key(player, resource) {
                lemma_pair_key_injective(p, r, player, resource);
            }
        }
    }

    /// Writes the balance of one (player, resource) pair.
    fn set_balance(&mut self, player: u64, resource: u64, amount: u64)
        ensures
            final(self).balances@ == old(self).balances@.insert(
                pair_key(player, resource),
                amount,
            ),
            final(self).prices == old(self).prices,
            final(self).history == old(self).history,
    {
        let k = pack_pair(player, resource);
        self.balances.insert(k, amount);
    }

    /// Returns the balance of `player` in `resource`; 0 for unknown
    /// entries, never an error.
    pub fn get_balance(&self, player: u64, resource: u64) -> (amount: u64)
        ensures
            amount == self.balance(player, resource),
    {
        let k = pack_pair(player, resource);
        match self.balances.get(&k) {
            Some(v) => *v,
            None => 0,
        }
    }

    /// Atomically adds `amount` to one balance.  Fails (and changes
    /// nothing) exactly when the balance would exceed the machine range.
    pub fn credit(&mut self, player: u64, resource: u64, amount: u64) -> (ok: bool)
        ensures
            ok == (old(self).balance(player, resource) + amount <= u64::MAX),
            ok ==> final(self).balance(player, resource) == old(self).balance(player, resource)
                + amount,
            ok ==> forall|p: u64, r: u64|
                !(p == player && r == resource) ==> #[trigger] final(self).balance(p, r) == old(self).balance(p, r),
            !ok ==> *final(self) == *old(self),
            final(self).prices == old(self).prices,
            final(self).history == old(self).history,
    {
        let current = self.get_balance(player, resource);
        if amount > u64::MAX - current {
            return false;
        }
        self.set_balance(player, resource, current + amount);
        proof {
            Self::lemma_balance_update(*old(self), *self, player, resource, (current + amount) as u64);
        }
        true
    }

    /// Atomically subtracts `amount` from one balance.  Fails (and
    /// changes nothing) exactly when the balance is insufficient, so a
    /// balance never goes negative.
    pub fn debit(&mut self, player: u64, resource: u64, amount: u64) -> (ok: bool)
        ensures
            ok == (amount <= old(self).balance(player, resource)),
            ok ==> final(self).balance(player, resource) == old(self).balance(player, resource)
                - amount,
            ok ==> forall|p: u64, r: u64|
                !(p == player && r == resource) ==> #[trigger] final(self).balance(p, r) == old(self).balance(p, r),
            !ok ==> *final(self) == *old(self),
            final(self).prices == old(self).prices,
            final(self).history == old(self).history,
    {
        let current = self.get_balance(player, resource);
        if amount > current {
            return false;
        }
        self.set_balance(player, resource, current - amount);
        proof {
            Self::lemma_balance_update(*old(self), *self, player, resource, (current - amount) as u64);
        }
        true
    }

    /// Appends one transaction to a player's log, creating the log on
    /// first use.  Nothing else changes.
    fn append_history(&mut self, player: u64, tx: Transaction)
        ensures
            final(self).history_of(player) == old(self).history_of(player).push(tx),
            forall|p: u64|
                p != player ==> #[trigger] final(self).history_of(p) == old(self).history_of(p),
            final(self).balances == old(self).balances,
            final(self).prices == old(self).prices,
    {
        let ghost pre = *self;
        let mut entries: Vec<Transaction> = match self.history.remove(&player) {
            Some(v) => v,
            None => Vec::new(),
        };
        proof {
            assert(entries@ =~= pre.history_of(player));
        }
        entries.push(tx);
        self.history.insert(player, entries);
    }

    /// Creates the price record of a new resource kind with the default
    /// volatility and the current time as reference point.  Fails with
    /// `AlreadyExists` (and changes nothing) exactly when the resource was
    /// initialized before.
    pub fn initialize_resource(&mut self, resource: u64, base_price: u64, now: u64) -> (result:
        Result<(), LedgerError>)
        requires
            old(self).wf(),
            base_price <= MAX_BASE_PRICE,
        ensures
            final(self).wf(),
            result == if old(self).has_resource(resource) {
                Result::<(), LedgerError>::Err(LedgerError::AlreadyExists)
            } else {
                Result::<(), LedgerError>::Ok(())
            },
            result is Err ==> *final(self) == *old(self),
            result is Ok ==> final(self).prices@ == old(self).prices@.insert(
                resource,
                ResourcePrice { base_price, volatility: DEFAULT_VOLATILITY, last_update: now },
            ),
            final(self).balances == old(self).balances,
            final(self).history == old(self).history,
    {
        if self.prices.contains_key(&resource) {
            return Err(LedgerError::AlreadyExists);
        }
        let record = ResourcePrice { base_price, volatility: DEFAULT_VOLATILITY, last_update: now };
        self.prices.insert(resource, record);
        Ok(())
    }

    /// The current price of `resource` at time `now`: the base price
    /// modulated by the bounded deterministic wave.  `None` exactly when
    /// the resource was never initialized.
    pub fn get_resource_price(&self, resource: u64, now: u64) -> (result: Option<u64>)
        requires
            self.wf(),
            self.clock_ok(resource, now),
        ensures
            match result {
                Some(price) => self.has_resource(resource) && price == current_price(
                    self.price_record(resource).base_price as int,
                    self.price_record(resource).volatility as int,
                    now - self.price_record(resource).last_update,
                ),
                None => !self.has_resource(resource),
            },
    {
        match self.prices.get(&resource) {
            Some(record) => {
                let elapsed = now - record.last_update;
                Some(price_at(record.base_price, record.volatility, elapsed))
            },
            None => None,
        }
    }

    /// Whether a transfer of `amount` of `resource` from `from` to `to`
    /// can be executed: the amount is positive, the sender holds it, and
    /// the receiver's balance stays within the machine range.
    pub open spec fn transfer_allowed(self, from: u64, to: u64, resource: u64, amount: u64) -> bool {
        &&& amount > 0
        &&& self.balance(from, resource) >= amount
        &&& (from == to || self.balance(to, resource) + amount <= u64::MAX)
    }

    /// Atomically moves `amount` of `resource` from `from` to `to`,
    /// appending a `Transfer` transaction to the sender's log.  Returns
    /// `false` and changes nothing when the amount is zero or the sender's
    /// balance is insufficient.  The total quantity held by sender and
    /// receiver together is conserved.
    pub fn transfer_resources(
        &mut self,
        from: u64,
        to: u64,
        resource: u64,
        amount: u64,
        now: u64,
    ) -> (ok: bool)
        requires
            old(self).wf(),
        ensures
            final(self).wf(),
            ok == old(self).transfer_allowed(from, to, resource, amount),
            !ok ==> *final(self) == *old(self),
            ok ==> final(self).balance(from, resource) + final(self).balance(to, resource) == old(self).balance(from, resource) + old(self).balance(to, resource),
            ok && from != to ==> final(self).balance(from, resource) == old(self).balance(
                from,
                resource,
            ) - amount,
            ok && from != to ==> final(self).balance(to, resource) == old(self).balance(
                to,
                resource,
            ) + amount,
            ok && from == to ==> final(self).balance(from, resource) == old(self).balance(
                from,
                resource,
            ),
            ok ==> forall|p: u64, r: u64|
                !(p == from && r == resource) && !(p == to && r == resource) ==> #[trigger] final(self).balance(p, r) == old(self).balance(p, r),
            ok ==> final(self).history_of(from) == old(self).history_of(from).push(
                Transaction {
                    timestamp: now,
                    kind: TxKind::Transfer,
                    resource,
                    amount,
                    price: 0,
                    counterparty: to,
                },
            ),
            ok ==> forall|p: u64|
                p != from ==> #[trigger] final(self).history_of(p) == old(self).history_of(p),
            final(self).prices == old(self).prices,
    {
        if amount == 0 {
            return false;
        }
        let from_balance = self.get_balance(from, resource);
        if from_balance < amount {
            return false;
        }
        if from != to {
            let to_balance = self.get_balance(to, resource);
            if to_balance > u64::MAX - amount {
                return false;
            }
            self.set_balance(from, resource, from_balance - amount);
            proof {
                Self::lemma_balance_update(
                    *old(self),
                    *self,
                    from,
                    resource,
                    (from_balance - amount) as u64,
                );
            }
            let ghost mid = *self;
            self.set_balance(to, resource, to_balance + amount);
            proof {
                Self::lemma_balance_update(mid, *self, to, resource, (to_balance + amount) as u64);
            }
        }
        let tx = Transaction {
            timestamp: now,
            kind: TxKind::Transfer,
            resource,
            amount,
            price: 0,
            counterparty: to,
        };
        self.append_history(from, tx);
        true
    }

    /// Whether a market trade moving `amount` of `resource` from `seller`
    /// to `buyer` can be executed.
    pub open spec fn trade_allowed(self, buyer: u64, seller: u64, resource: u64, amount: u64) -> bool {
        &&& self.balance(seller, resource) >= amount
        &&& (buyer == seller || self.balance(buyer, resource) + amount <= u64::MAX)
    }

    /// Moves `amount` of `resource` from `seller` to `buyer` at the
    /// current market price, appending a `Buy` transaction with the
    /// resolved unit price to the buyer's log.  Payment settlement in a
    /// counter-currency is outside this ledger: only the traded resource
    /// moves.  Returns `false` and changes nothing when the seller's
    /// balance is insufficient.
    pub fn buy_resources(
        &mut self,
        buyer: u64,
        seller: u64,
        resource: u64,
        amount: u64,
        now: u64,
    ) -> (ok: bool)
        requires
            old(self).wf(),
            old(self).has_resource(resource),
            old(self).clock_ok(resource, now),
        ensures
            final(self).wf(),
            ok == old(self).trade_allowed(buyer, seller, resource, amount),
            !ok ==> *final(self) == *old(self),
            ok ==> final(self).balance(buyer, resource) + final(self).balance(seller, resource)
                == old(self).balance(buyer, resource) + old(self).balance(seller, resource),
            ok && buyer != seller ==> final(self).balance(seller, resource) == old(self).balance(
                seller,
                resource,
            ) - amount,
            ok && buyer != seller ==> final(self).balance(buyer, resource) == old(self).balance(
                buyer,
                resource,
            ) + amount,
            ok && buyer == seller ==> final(self).balance(buyer, resource) == old(self).balance(
                buyer,
                resource,
            ),
            ok ==> forall|p: u64, r: u64|
                !(p == buyer && r == resource) && !(p == seller && r == resource)
                    ==> #[trigger] final(self).balance(p, r) == old(self).balance(p, r),
            ok ==> final(self).history_of(buyer) == old(self).history_of(buyer).push(
                Transaction {
                    timestamp: now,
                    kind: TxKind::Buy,
                    resource,
                    amount,
                    price: current_price(
                        old(self).price_record(resource).base_price as int,
                        old(self).price_record(resource).volatility as int,
                        now - old(self).price_record(resource).last_update,
                    ) as u64,
                    counterparty: seller,
                },
            ),
            ok ==> forall|p: u64|
                p != buyer ==> #[trigger] final(self).history_of(p) == old(self).history_of(p),
            final(self).prices == old(self).prices,
    {
        let price_lookup = self.get_resource_price(resource, now);
        let price = match price_lookup {
            Some(p) => p,
            None => 0,
        };
        let seller_balance = self.get_balance(seller, resource);
        if seller_balance < amount {
            return false;
        }
        if buyer != seller {
            let buyer_balance = self.get_balance(buyer, resource);
            if buyer_balance > u64::MAX - amount {
                return false;
            }
            self.set_balance(seller, resource, seller_balance - amount);
            proof {
                Self::lemma_balance_update(
                    *old(self),
                    *self,
                    seller,
                    resource,
                    (seller_balance - amount) as u64,
                );
            }
            let ghost mid = *self;
            self.set_balance(buyer, resource, buyer_balance + amount);
            proof {
                Self::lemma_balance_update(mid, *self, buyer, resource, (buyer_balance + amount) as u64);
            }
        }
        let tx = Transaction {
            timestamp: now,
            kind: TxKind::Buy,
            resource,
            amount,
            price,
            counterparty: seller,
        };
        self.append_history(buyer, tx);
        true
    }

    /// Moves `amount` of `resource` from `seller` to `buyer` at the
    /// current market price, appending a `Sell` transaction with the
    /// resolved unit price to the seller's log.  Symmetric to
    /// [`Self::buy_resources`] with the log entry on the seller's side.
    pub fn sell_resources(
        &mut self,
        seller: u64,
        buyer: u64,
        resource: u64,
        amount: u64,
        now: u64,
    ) -> (ok: bool)
        requires
            old(self).wf(),
            old(self).has_resource(resource),
            old(self).clock_ok(resource, now),
        ensures
            final(self).wf(),
            ok == old(self).trade_allowed(buyer, seller, resource, amount),
            !ok ==> *final(self) == *old(self),
            ok ==> final(self).balance(buyer, resource) + final(self).balance(seller, resource)
                == old(self).balance(buyer, resource) + old(self).balance(seller, resource),
            ok && buyer != seller ==> final(self).balance(seller, resource) == old(self).balance(
                seller,
                resource,
            ) - amount,
            ok && buyer != seller ==> final(self).balance(buyer, resource) == old(self).balance(
                buyer,
                resource,
            ) + amount,
            ok && buyer == seller ==> final(self).balance(buyer, resource) == old(self).balance(
                buyer,
                resource,
            ),
            ok ==> forall|p: u64, r: u64|
                !(p == buyer && r == resource) && !(p == seller && r == resource)
                    ==> #[trigger] final(self).balance(p, r) == old(self).balance(p, r),
            ok ==> final(self).history_of(seller) == old(self).history_of(seller).push(
                Transaction {
                    timestamp: now,
                    kind: TxKind::Sell,
                    resource,
                    amount,
                    price: current_price(
                        old(self).price_record(resource).base_price as int,
                        old(self).price_record(resource).volatility as int,
                        now - old(self).price_record(resource).last_update,
                    ) as u64,
                    counterparty: buyer,
                },
            ),
            ok ==> forall|p: u64|
                p != seller ==> #[trigger] final(self).history_of(p) == old(self).history_of(p),
            final(self).prices == old(self).prices,
    {
        let price_lookup = self.get_resource_price(resource, now);
        let price = match price_lookup {
            Some(p) => p,
            None => 0,
        };
        let seller_balance = self.get_balance(seller, resource);
        if seller_balance < amount {
            return false;
        }
        if buyer != seller {
            let buyer_balance = self.get_balance(buyer, resource);
            if buyer_balance > u64::MAX - amount {
                return false;
            }
            self.set_balance(seller, resource, seller_balance - amount);
            proof {
                Self::lemma_balance_update(
                    *old(self),
                    *self,
                    seller,
                    resource,
                    (seller_balance - amount) as u64,
                );
            }
            let ghost mid = *self;
            self.set_balance(buyer, resource, buyer_balance + amount);
            proof {
                Self::lemma_balance_update(mid, *self, buyer, resource, (buyer_balance + amount) as u64);
            }
        }
        let tx = Transaction {
            timestamp: now,
            kind: TxKind::Sell,
            resource,
            amount,
            price,
            counterparty: buyer,
        };
        self.append_history(seller, tx);
        true
    }

    /// The transaction log of `player`, oldest first; empty for players
    /// with no prior activity.  Entries are never mutated, reordered or
    /// evicted.
    pub fn get_transaction_history(&self, player: u64) -> (log: Vec<Transaction>)
        ensures
            log@ == self.history_of(player),
    {
        match self.history.get(&player) {
            Some(entries) => {
                let mut out: Vec<Transaction> = Vec::new();
                let mut i: usize = 0;
                while i < entries.len()
                    invariant
                        i <= entries.len(),
                        out@ == entries@.take(i as int),
                    decreases entries.len() - i,
                {
                    out.push(entries[i]);
                    proof {
                        assert(entries@.take(i + 1) =~= entries@.take(i as int).push(
                            entries@[i as int],
                        ));
                    }
                    i = i + 1;
                }
                proof {
                    assert(entries@.take(entries@.len() as int) =~= entries@);
                }
                out
            },
            None => Vec::new(),
        }
    }

    /// Market trend analysis is not part of this design: every resource
    /// reports a neutral trend.
    pub fn get_market_trend(&self, _resource: u64) -> (trend: i64)
        ensures
            trend == 0,
    {
        0
    }
}

} // verus!
