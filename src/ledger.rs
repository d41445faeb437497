//! The ledger: construction, queries, and the state transitions that move,
//! create and destroy tokens or grant spending rights.
use vstd::prelude::*;

use crate::storage::{
    allowance_entries, allowance_map_get, allowance_map_insert, allowance_map_new,
    balance_entries, balance_map_get, balance_map_insert, balance_map_new, no_allowances,
    no_balances, value_or_zero, AccountId, AllowanceMap, BalanceMap,
};
use crate::sum::{
    lemma_entry_within_total, lemma_total_of_insert, lemma_total_of_nonzero, nonzero_entries,
    total_of,
};

verus! {

/// A movement of tokens between two accounts.
#[derive(Clone, Copy, Debug, PartialEq, Eq)]
pub struct Transfer {
    pub from: Option<AccountId>,
    pub to: Option<AccountId>,
    pub value: u128,
}

/// A grant of spending rights from `owner` to `spender`.
#[derive(Clone, Copy, Debug, PartialEq, Eq)]
pub struct Approval {
    pub owner: AccountId,
    pub spender: AccountId,
    pub value: u128,
}

/// What a successful operation reports, in the order the operations happened.
#[derive(Clone, Copy, Debug, PartialEq, Eq)]
pub enum Event {
    Transfer(Transfer),
    Approval(Approval),
}

/// Why an operation was refused.
#[derive(Clone, Copy, Debug, PartialEq, Eq, Structural)]
pub enum Error {
    /// A balance or an allowance is below the amount asked for.
    InsufficientBalance,
    /// The result would not fit in a `u128`.
    Overflow,
}

pub type Result<T> = core::result::Result<T, Error>;

/// The event that reports `value` moved from `from` to `to`.
pub open spec fn transfer_event(from: AccountId, to: AccountId, value: u128) -> Event {
    Event::Transfer(Transfer { from: Some(from), to: Some(to), value })
}

/// The event that reports `value` granted by `owner` to `spender`.
pub open spec fn approval_event(owner: AccountId, spender: AccountId, value: u128) -> Event {
    Event::Approval(Approval { owner, spender, value })
}

/// The balance table after `v` is taken from `from` and then given to `to`;
/// where `from == to` the table ends as it began.
pub open spec fn moved(m: Map<AccountId, u128>, from: AccountId, to: AccountId, v: u128) -> Map<
    AccountId,
    u128,
> {
    let debited = m.insert(from, (value_or_zero(m, from) - v) as u128);
    debited.insert(to, (value_or_zero(debited, to) + v) as u128)
}

/// Moving tokens from an account to itself leaves every balance as it was.
pub proof fn self_transfer_keeps_balances(m: Map<AccountId, u128>, a: AccountId, v: u128)
    requires
        v <= value_or_zero(m, a),
    ensures
        forall|k: AccountId| #[trigger] value_or_zero(moved(m, a, a, v), k) == value_or_zero(m, k),
{
}

/// The token ledger.
pub struct Erc20 {
    total_supply: u128,
    balances: BalanceMap,
    allowance: AllowanceMap,
    events: Vec<Event>,
}

impl Erc20 {
    /// The recorded total supply.
    pub closed spec fn supply(&self) -> u128 {
        self.total_supply
    }

    /// The balance table, entries of zero included.
    pub closed spec fn balances(&self) -> Map<AccountId, u128> {
        balance_entries(self.balances)
    }

    /// The allowance table, keyed by (owner, spender).
    pub closed spec fn allowances(&self) -> Map<(AccountId, AccountId), u128> {
        allowance_entries(self.allowance)
    }

    /// Every event emitted so far, oldest first.
    pub closed spec fn emitted(&self) -> Seq<Event> {
        self.events@
    }

    /// The balance of `a`; an account without an entry holds zero.
    pub open spec fn balance_at(&self, a: AccountId) -> u128 {
        value_or_zero(self.balances(), a)
    }

    /// What `spender` may move out of `owner`'s balance; zero without an entry.
    pub open spec fn allowance_at(&self, owner: AccountId, spender: AccountId) -> u128 {
        value_or_zero(self.allowances(), (owner, spender))
    }

    /// The ledger's invariant: the balance table is finite and the total
    /// supply is the sum of all balances.
    pub open spec fn well_formed(&self) -> bool {
        &&& self.balances().dom().finite()
        &&& self.supply() == total_of(self.balances())
    }

    /// In every well-formed ledger, the total supply is the sum of all
    /// non-zero balances.
    pub proof fn supply_is_sum_of_balances(&self)
        requires
            self.well_formed(),
        ensures
            self.supply() == total_of(nonzero_entries(self.balances())),
    {
        lemma_total_of_nonzero(self.balances());
    }

    /// In every well-formed ledger, no account holds more than the total
    /// supply, so every balance is a non-negative amount within it.
    pub proof fn balance_within_supply(&self, a: AccountId)
        requires
            self.well_formed(),
        ensures
            0 <= self.balance_at(a) <= self.supply(),
    {
        lemma_entry_within_total(self.balances(), a);
    }

    /// A ledger whose whole `initial_supply` belongs to `creator`.
    pub fn new(initial_supply: u128, creator: AccountId) -> (r: Self)
        ensures
            r.well_formed(),
            r.supply() == initial_supply,
            r.balances() == no_balances().insert(creator, initial_supply),
            r.allowances() == no_allowances(),
            r.emitted() == Seq::<Event>::empty(),
    {
        let mut balances = balance_map_new();
        balance_map_insert(&mut balances, creator, initial_supply);
        let r = Erc20 {
            total_supply: initial_supply,
            balances,
            allowance: allowance_map_new(),
            events: Vec::new(),
        };
        proof {
            lemma_total_of_insert(no_balances(), creator, initial_supply);
            assert(total_of(no_balances()) == 0);
        }
        r
    }

    /// The total supply.
    pub fn get_total_supply(&self) -> (r: u128)
        ensures
            r == self.supply(),
    {
        self.total_supply
    }

    /// The balance of `owner`.
    pub fn balance_of(&self, owner: AccountId) -> (r: u128)
        ensures
            r == self.balance_at(owner),
    {
        self.balance_or_zero(owner)
    }

    fn balance_or_zero(&self, owner: AccountId) -> (r: u128)
        ensures
            r == self.balance_at(owner),
    {
        match balance_map_get(&self.balances, owner) {
            Some(v) => v,
            None => 0,
        }
    }

    fn allowance_or_zero(&self, owner: AccountId, spender: AccountId) -> (r: u128)
        ensures
            r == self.allowance_at(owner, spender),
    {
        match allowance_map_get(&self.allowance, owner, spender) {
            Some(v) => v,
            None => 0,
        }
    }

    /// What `spender` may move out of `owner`'s balance.
    pub fn allowance(&self, owner: AccountId, spender: AccountId) -> (r: u128)
        ensures
            r == self.allowance_at(owner, spender),
    {
        self.allowance_or_zero(owner, spender)
    }

    /// Every event emitted so far, oldest first.
    pub fn events(&self) -> (r: &Vec<Event>)
        ensures
            r@ == self.emitted(),
    {
        &self.events
    }

    /// Writes `v` as the balance of `a`, keeping the invariant with the
    /// supply moved by the difference.
    fn set_balance(&mut self, a: AccountId, v: u128)
        requires
            old(self).balances().dom().finite(),
        ensures
            final(self).balances() == old(self).balances().insert(a, v),
            final(self).balances().dom().finite(),
            total_of(final(self).balances()) == total_of(old(self).balances()) - old(
                self,
            ).balance_at(a) + v,
            final(self).supply() == old(self).supply(),
            final(self).allowances() == old(self).allowances(),
            final(self).emitted() == old(self).emitted(),
    {
        proof {
            lemma_total_of_insert(self.balances(), a, v);
        }
        balance_map_insert(&mut self.balances, a, v);
    }

    /// Takes `v` from `from` and gives it to `to`; the caller has checked
    /// that `from` holds at least `v`.
    fn move_balance(&mut self, from: AccountId, to: AccountId, v: u128)
        requires
            old(self).well_formed(),
            v <= old(self).balance_at(from),
        ensures
            final(self).well_formed(),
            final(self).balances() == moved(old(self).balances(), from, to, v),
            final(self).supply() == old(self).supply(),
            final(self).allowances() == old(self).allowances(),
            final(self).emitted() == old(self).emitted(),
    {
        let from_balance = self.balance_or_zero(from);
        self.set_balance(from, from_balance - v);
        let to_balance = self.balance_or_zero(to);
        proof {
            lemma_entry_within_total(self.balances(), to);
        }
        self.set_balance(to, to_balance + v);
    }

    /// Moves `amount` from `caller` to `to`. Refused, with nothing changed,
    /// where `caller` holds less than `amount`.
    pub fn transfer(&mut self, caller: AccountId, to: AccountId, amount: u128) -> (r: Result<()>)
        requires
            old(self).well_formed(),
        ensures
            final(self).well_formed(),
            r == (if amount <= old(self).balance_at(caller) {
                Result::<()>::Ok(())
            } else {
                Result::<()>::Err(Error::InsufficientBalance)
            }),
            r is Err ==> *final(self) == *old(self),
            r is Ok ==> final(self).balances() == moved(old(self).balances(), caller, to, amount),
            r is Ok ==> final(self).allowances() == old(self).allowances(),
            r is Ok ==> final(self).emitted() == old(self).emitted().push(
                transfer_event(caller, to, amount),
            ),
            final(self).supply() == old(self).supply(),
    {
        let from_balance = self.balance_or_zero(caller);
        if from_balance < amount {
            return Err(Error::InsufficientBalance);
        }
        self.move_balance(caller, to, amount);
        self.events.push(Event::Transfer(Transfer { from: Some(caller), to: Some(to), value: amount }));
        Ok(())
    }

    /// Adds `value` to what `spender` may move out of `caller`'s balance.
    /// Refused, with nothing changed, where `caller` holds less than `value`,
    /// or where the new allowance would not fit in a `u128`.
    pub fn approve(&mut self, caller: AccountId, spender: AccountId, value: u128) -> (r: Result<
        (),
    >)
        requires
            old(self).well_formed(),
        ensures
            final(self).well_formed(),
            r == (if value > old(self).balance_at(caller) {
                Result::<()>::Err(Error::InsufficientBalance)
            } else if old(self).allowance_at(caller, spender) + value > u128::MAX {
                Result::<()>::Err(Error::Overflow)
            } else {
                Result::<()>::Ok(())
            }),
            r is Err ==> *final(self) == *old(self),
            r is Ok ==> final(self).allowances() == old(self).allowances().insert(
                (caller, spender),
                (old(self).allowance_at(caller, spender) + value) as u128,
            ),
            r is Ok ==> final(self).emitted() == old(self).emitted().push(
                approval_event(caller, spender, value),
            ),
            final(self).balances() == old(self).balances(),
            final(self).supply() == old(self).supply(),
    {
        let from_balance = self.balance_or_zero(caller);
        if from_balance < value {
            return Err(Error::InsufficientBalance);
        }
        let allowance_balance = self.allowance_or_zero(caller, spender);
        match allowance_balance.checked_add(value) {
            None => Err(Error::Overflow),
            Some(sum) => {
                allowance_map_insert(&mut self.allowance, caller, spender, sum);
                self.events.push(Event::Approval(Approval { owner: caller, spender, value }));
                Ok(())
            },
        }
    }

    /// Moves `value` from `from` to `to`. Refused, with nothing changed,
    /// where the allowance that `from` granted to `to` is below `value`, or
    /// where `from` holds less than `value`. The allowance is left as it was.
    pub fn transfer_from(&mut self, from: AccountId, to: AccountId, value: u128) -> (r: Result<()>)
        requires
            old(self).well_formed(),
        ensures
            final(self).well_formed(),
            r == (if value <= old(self).allowance_at(from, to) && value <= old(self).balance_at(
                from,
            ) {
                Result::<()>::Ok(())
            } else {
                Result::<()>::Err(Error::InsufficientBalance)
            }),
            r is Err ==> *final(self) == *old(self),
            r is Ok ==> final(self).balances() == moved(old(self).balances(), from, to, value),
            r is Ok ==> final(self).emitted() == old(self).emitted().push(
                transfer_event(from, to, value),
            ),
            final(self).allowances() == old(self).allowances(),
            final(self).supply() == old(self).supply(),
    {
        let allowance_balance = self.allowance_or_zero(from, to);
        if allowance_balance < value {
            return Err(Error::InsufficientBalance);
        }
        let from_balance = self.balance_or_zero(from);
        if from_balance < value {
            return Err(Error::InsufficientBalance);
        }
        self.move_balance(from, to, value);
        self.events.push(Event::Transfer(Transfer { from: Some(from), to: Some(to), value }));
        Ok(())
    }

    /// Destroys `value` tokens of `from`. Refused, with nothing changed,
    /// where `from` holds less than `value`.
    pub fn burn(&mut self, from: AccountId, value: u128) -> (r: Result<()>)
        requires
            old(self).well_formed(),
        ensures
            final(self).well_formed(),
            r == (if value <= old(self).balance_at(from) {
                Result::<()>::Ok(())
            } else {
                Result::<()>::Err(Error::InsufficientBalance)
            }),
            r is Err ==> *final(self) == *old(self),
            r is Ok ==> final(self).balances() == old(self).balances().insert(
                from,
                (old(self).balance_at(from) - value) as u128,
            ),
            r is Ok ==> final(self).supply() == old(self).supply() - value,
            final(self).allowances() == old(self).allowances(),
            final(self).emitted() == old(self).emitted(),
    {
        let from_balance = self.balance_or_zero(from);
        if from_balance < value {
            return Err(Error::InsufficientBalance);
        }
        proof {
            lemma_entry_within_total(self.balances(), from);
        }
        self.set_balance(from, from_balance - value);
        self.total_supply = self.total_supply - value;
        Ok(())
    }

    /// Creates `value` new tokens for `to`. Refused, with nothing changed,
    /// where the total supply would not fit in a `u128`.
    pub fn mint(&mut self, to: AccountId, value: u128) -> (r: Result<()>)
        requires
            old(self).well_formed(),
        ensures
            final(self).well_formed(),
            r == (if old(self).supply() + value <= u128::MAX {
                Result::<()>::Ok(())
            } else {
                Result::<()>::Err(Error::Overflow)
            }),
            r is Err ==> *final(self) == *old(self),
            r is Ok ==> final(self).balances() == old(self).balances().insert(
                to,
                (old(self).balance_at(to) + value) as u128,
            ),
            r is Ok ==> final(self).supply() == old(self).supply() + value,
            final(self).allowances() == old(self).allowances(),
            final(self).emitted() == old(self).emitted(),
    {
        let new_supply = match self.total_supply.checked_add(value) {
            None => {
                return Err(Error::Overflow);
            },
            Some(s) => s,
        };
        let to_balance = self.balance_or_zero(to);
        proof {
            lemma_entry_within_total(self.balances(), to);
        }
        self.set_balance(to, to_balance + value);
        self.total_supply = new_supply;
        Ok(())
    }
}

} // verus!
