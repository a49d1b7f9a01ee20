//! The token ledger: balances, allowances, a fixed total supply, and the
//! notifications that the operations emit.
use vstd::prelude::*;
use crate::account::AccountId;
use crate::entries::{
    keys_unique, lookup, total, lemma_lookup_at, lemma_lookup_absent, lemma_lookup_update,
    lemma_lookup_push, lemma_total_update, lemma_total_nonneg, lemma_total_two, lemma_total_one,
};

verus! {

/// An amount of token units.
pub type Balance = u128;

/// Notification that `value` units moved from `from` to `to`.
#[derive(Clone, Copy, Debug, PartialEq, Eq)]
pub struct Transfer {
    pub from: AccountId,
    pub to: AccountId,
    pub value: Balance,
}

/// Notification that owner `from` allowed spender `to` to move up to `value` units.
#[derive(Clone, Copy, Debug, PartialEq, Eq)]
pub struct Approval {
    pub from: AccountId,
    pub to: AccountId,
    pub value: Balance,
}

/// A notification emitted by an operation of the ledger.
#[derive(Clone, Copy, Debug, PartialEq, Eq)]
pub enum Event {
    Transfer(Transfer),
    Approval(Approval),
}

/// Why an operation was rejected; a rejected operation changes nothing.
#[derive(Clone, Copy, Debug, PartialEq, Eq, Structural)]
pub enum Error {
    /// The value exceeds the sender's balance.
    BalanceTooLow,
    /// The value exceeds what the owner allowed the spender to move.
    AllowanceTooLow,
}

/// The ledger. Balances and allowances are sparse: an account or pair without
/// an entry holds zero. Notifications are kept in order of emission until the
/// host takes them.
#[derive(Debug)]
pub struct Erc20 {
    total_supply: Balance,
    balances: Vec<(AccountId, Balance)>,
    allowances: Vec<((AccountId, AccountId), Balance)>,
    events: Vec<Event>,
}

impl Erc20 {
    /// Each account and each pair has at most one entry, and the balances add
    /// up to the total supply.
    pub closed spec fn wf(self) -> bool {
        &&& keys_unique(self.balances@)
        &&& keys_unique(self.allowances@)
        &&& total(self.balances@) == self.total_supply
    }

    pub closed spec fn spec_total_supply(self) -> nat {
        self.total_supply as nat
    }

    /// The balance of `who`: zero where it has no entry.
    pub closed spec fn spec_balance(self, who: AccountId) -> nat {
        lookup(self.balances@, who)
    }

    /// What `spender` may still move out of `owner`'s balance.
    pub closed spec fn spec_allowance(self, owner: AccountId, spender: AccountId) -> nat {
        lookup(self.allowances@, (owner, spender))
    }

    /// The sum of the balances of all accounts.
    pub closed spec fn spec_balance_sum(self) -> int {
        total(self.balances@)
    }

    /// The notifications emitted and not yet taken, oldest first.
    pub closed spec fn spec_events(self) -> Seq<Event> {
        self.events@
    }

    /// Every balance of `self` is the same in `next`.
    pub open spec fn same_balances(self, next: Erc20) -> bool {
        forall|a: AccountId| #[trigger] next.spec_balance(a) == self.spec_balance(a)
    }

    /// Every allowance of `self` is the same in `next`.
    pub open spec fn same_allowances(self, next: Erc20) -> bool {
        forall|o: AccountId, s: AccountId| #[trigger]
            next.spec_allowance(o, s) == self.spec_allowance(o, s)
    }

    /// The balance of `a` once `value` units have moved from `from` to `to`;
    /// moving to oneself changes nothing.
    pub open spec fn moved_balance(
        self,
        from: AccountId,
        to: AccountId,
        value: nat,
        a: AccountId,
    ) -> int {
        if from == to {
            self.spec_balance(a) as int
        } else if a == from {
            self.spec_balance(a) - value
        } else if a == to {
            (self.spec_balance(a) + value) as int
        } else {
            self.spec_balance(a) as int
        }
    }

    /// `next` is `self` after a successful move of `value` units from `from` to
    /// `to`, which emitted one Transfer notification.
    pub open spec fn moved(self, next: Erc20, from: AccountId, to: AccountId, value: Balance) -> bool {
        &&& next.wf()
        &&& next.spec_total_supply() == self.spec_total_supply()
        &&& forall|a: AccountId| #[trigger]
            next.spec_balance(a) == self.moved_balance(from, to, value as nat, a)
        &&& next.spec_events() == self.spec_events().push(
            Event::Transfer(Transfer { from, to, value }),
        )
    }

    /// The outcome of moving `value` units from `from` to `to`: rejected with
    /// `BalanceTooLow`, and nothing changed, exactly when `from` holds less.
    pub open spec fn move_outcome(
        self,
        next: Erc20,
        from: AccountId,
        to: AccountId,
        value: Balance,
        r: Result<(), Error>,
    ) -> bool {
        if value > self.spec_balance(from) {
            r == Err::<(), Error>(Error::BalanceTooLow) && next == self
        } else {
            &&& r == Ok::<(), Error>(())
            &&& self.moved(next, from, to, value)
            &&& self.same_allowances(next)
        }
    }

    /// The outcome of `owner` allowing `spender` to move `value` units: it always
    /// succeeds, overwrites that one allowance and emits one Approval notification.
    pub open spec fn approve_outcome(
        self,
        next: Erc20,
        owner: AccountId,
        spender: AccountId,
        value: Balance,
        r: Result<(), Error>,
    ) -> bool {
        &&& r == Ok::<(), Error>(())
        &&& next.wf()
        &&& next.spec_total_supply() == self.spec_total_supply()
        &&& self.same_balances(next)
        &&& forall|o: AccountId, s: AccountId| #[trigger]
            next.spec_allowance(o, s) == if o == owner && s == spender {
                value as nat
            } else {
                self.spec_allowance(o, s)
            }
        &&& next.spec_events() == self.spec_events().push(
            Event::Approval(Approval { from: owner, to: spender, value }),
        )
    }

    /// The outcome of `spender` moving `value` units from `from` to `to` under
    /// an allowance: rejected with `AllowanceTooLow` where the allowance is
    /// short, else with `BalanceTooLow` where the balance is, and then nothing
    /// changed; otherwise the allowance shrinks by `value` and the units move.
    pub open spec fn transfer_from_outcome(
        self,
        next: Erc20,
        spender: AccountId,
        from: AccountId,
        to: AccountId,
        value: Balance,
        r: Result<(), Error>,
    ) -> bool {
        if value > self.spec_allowance(from, spender) {
            r == Err::<(), Error>(Error::AllowanceTooLow) && next == self
        } else if value > self.spec_balance(from) {
            r == Err::<(), Error>(Error::BalanceTooLow) && next == self
        } else {
            &&& r == Ok::<(), Error>(())
            &&& self.moved(next, from, to, value)
            &&& forall|o: AccountId, s: AccountId| #[trigger]
                next.spec_allowance(o, s) == if o == from && s == spender {
                    self.spec_allowance(o, s) - value
                } else {
                    self.spec_allowance(o, s) as int
                }
        }
    }
}

impl Erc20 {
    /// The index of the entry of `who` among the balances, if it has one.
    fn find_balance(&self, who: &AccountId) -> (r: Option<usize>)
        ensures
            match r {
                Some(i) => i < self.balances@.len() && self.balances@[i as int].0 == *who,
                None => forall|i: int|
                    0 <= i < self.balances@.len() ==> self.balances@[i].0 != *who,
            },
    {
        let mut i: usize = 0;
        while i < self.balances.len()
            invariant
                i <= self.balances@.len(),
                forall|k: int| 0 <= k < i ==> self.balances@[k].0 != *who,
            decreases self.balances@.len() - i,
        {
            if self.balances[i].0 == *who {
                return Some(i);
            }
            i = i + 1;
        }
        None
    }

    /// The index of the entry of the pair `(owner, spender)` among the
    /// allowances, if it has one.
    fn find_allowance(&self, owner: &AccountId, spender: &AccountId) -> (r: Option<usize>)
        ensures
            match r {
                Some(i) => i < self.allowances@.len() && self.allowances@[i as int].0 == (
                *owner,
                *spender,
                ),
                None => forall|i: int|
                    0 <= i < self.allowances@.len() ==> self.allowances@[i].0 != (
                    *owner,
                    *spender,
                    ),
            },
    {
        let mut i: usize = 0;
        while i < self.allowances.len()
            invariant
                i <= self.allowances@.len(),
                forall|k: int| 0 <= k < i ==> self.allowances@[k].0 != (*owner, *spender),
            decreases self.allowances@.len() - i,
        {
            let key = self.allowances[i].0;
            if key.0 == *owner && key.1 == *spender {
                return Some(i);
            }
            i = i + 1;
        }
        None
    }

    /// Sets the balance of `who` to `v`; the other fields stay as they were.
    fn set_balance(&mut self, who: &AccountId, v: Balance)
        requires
            keys_unique(old(self).balances@),
        ensures
            keys_unique(final(self).balances@),
            forall|a: AccountId| #[trigger]
                lookup(final(self).balances@, a) == if a == *who {
                    v as nat
                } else {
                    lookup(old(self).balances@, a)
                },
            total(final(self).balances@) == total(old(self).balances@) - lookup(
                old(self).balances@,
                *who,
            ) + v,
            final(self).total_supply == old(self).total_supply,
            final(self).allowances == old(self).allowances,
            final(self).events == old(self).events,
    {
        match self.find_balance(who) {
            Some(i) => {
                proof {
                    lemma_lookup_at(self.balances@, i as int);
                    lemma_lookup_update(self.balances@, i as int, v);
                    lemma_total_update(self.balances@, i as int, (*who, v));
                }
                self.balances.set(i, (*who, v));
            },
            None => {
                proof {
                    lemma_lookup_absent(self.balances@, *who);
                    lemma_lookup_push(self.balances@, *who, v);
                }
                self.balances.push((*who, v));
            },
        }
    }

    /// Sets what `spender` may move out of `owner`'s balance to `v`; the other
    /// fields stay as they were.
    fn set_allowance(&mut self, owner: &AccountId, spender: &AccountId, v: Balance)
        requires
            keys_unique(old(self).allowances@),
        ensures
            keys_unique(final(self).allowances@),
            forall|o: AccountId, s: AccountId| #[trigger]
                lookup(final(self).allowances@, (o, s)) == if o == *owner && s == *spender {
                    v as nat
                } else {
                    lookup(old(self).allowances@, (o, s))
                },
            final(self).total_supply == old(self).total_supply,
            final(self).balances == old(self).balances,
            final(self).events == old(self).events,
    {
        match self.find_allowance(owner, spender) {
            Some(i) => {
                proof {
                    lemma_lookup_update(self.allowances@, i as int, v);
                }
                self.allowances.set(i, ((*owner, *spender), v));
            },
            None => {
                proof {
                    lemma_lookup_push(self.allowances@, (*owner, *spender), v);
                }
                self.allowances.push(((*owner, *spender), v));
            },
        }
    }

    /// Two distinct accounts together hold no more than the total supply.
    proof fn lemma_two_balances(self, a: AccountId, b: AccountId)
        requires
            self.wf(),
            a != b,
        ensures
            self.spec_balance(a) + self.spec_balance(b) <= self.spec_total_supply(),
    {
        let s = self.balances@;
        lemma_total_nonneg(s);
        if exists|i: int| 0 <= i < s.len() && s[i].0 == a {
            let i = choose|i: int| 0 <= i < s.len() && s[i].0 == a;
            lemma_lookup_at(s, i);
            if exists|j: int| 0 <= j < s.len() && s[j].0 == b {
                let j = choose|j: int| 0 <= j < s.len() && s[j].0 == b;
                lemma_lookup_at(s, j);
                lemma_total_two(s, i, j);
            } else {
                lemma_lookup_absent(s, b);
                lemma_total_one(s, i);
            }
        } else {
            lemma_lookup_absent(s, a);
            if exists|j: int| 0 <= j < s.len() && s[j].0 == b {
                let j = choose|j: int| 0 <= j < s.len() && s[j].0 == b;
                lemma_lookup_at(s, j);
                lemma_total_one(s, j);
            } else {
                lemma_lookup_absent(s, b);
            }
        }
    }

    /// A ledger in which `caller` holds the whole `total_supply`.
    pub fn new(caller: AccountId, total_supply: Balance) -> (r: Erc20)
        ensures
            r.wf(),
            r.spec_total_supply() == total_supply,
            forall|a: AccountId| #[trigger]
                r.spec_balance(a) == if a == caller {
                    total_supply as nat
                } else {
                    0
                },
            forall|o: AccountId, s: AccountId| #[trigger] r.spec_allowance(o, s) == 0,
            r.spec_events() == Seq::<Event>::empty(),
    {
        let mut balances: Vec<(AccountId, Balance)> = Vec::new();
        proof {
            lemma_lookup_push(balances@, caller, total_supply);
        }
        balances.push((caller, total_supply));
        Erc20 { total_supply, balances, allowances: Vec::new(), events: Vec::new() }
    }

    pub fn total_supply(&self) -> (r: Balance)
        ensures
            r == self.spec_total_supply(),
    {
        self.total_supply
    }

    /// The balance of `who`, zero where it has none.
    pub fn balance_of(&self, who: AccountId) -> (r: Balance)
        requires
            self.wf(),
        ensures
            r == self.spec_balance(who),
    {
        match self.find_balance(&who) {
            Some(i) => {
                proof {
                    lemma_lookup_at(self.balances@, i as int);
                }
                self.balances[i].1
            },
            None => {
                proof {
                    lemma_lookup_absent(self.balances@, who);
                }
                0
            },
        }
    }

    /// What `spender` may still move out of `owner`'s balance, zero where
    /// nothing was approved.
    pub fn allowance(&self, owner: AccountId, spender: AccountId) -> (r: Balance)
        requires
            self.wf(),
        ensures
            r == self.spec_allowance(owner, spender),
    {
        match self.find_allowance(&owner, &spender) {
            Some(i) => {
                proof {
                    lemma_lookup_at(self.allowances@, i as int);
                }
                self.allowances[i].1
            },
            None => {
                proof {
                    lemma_lookup_absent(self.allowances@, (owner, spender));
                }
                0
            },
        }
    }

    /// Moves `value` units from `from` to `to` and emits a Transfer
    /// notification, or fails with `BalanceTooLow` and changes nothing.
    pub fn transfer_helper(&mut self, from: &AccountId, to: &AccountId, value: Balance) -> (r:
        Result<(), Error>)
        requires
            old(self).wf(),
        ensures
            old(self).move_outcome(*final(self), *from, *to, value, r),
    {
        let balance_from = self.balance_of(*from);
        let balance_to = self.balance_of(*to);
        if value > balance_from {
            return Err(Error::BalanceTooLow);
        }
        if !(*from == *to) {
            proof {
                self.lemma_two_balances(*from, *to);
            }
            self.set_balance(from, balance_from - value);
            self.set_balance(to, balance_to + value);
        }
        self.events.push(Event::Transfer(Transfer { from: *from, to: *to, value }));
        Ok(())
    }

    /// `caller` sends `value` of its units to `to`.
    pub fn transfer(&mut self, caller: AccountId, to: AccountId, value: Balance) -> (r: Result<
        (),
        Error,
    >)
        requires
            old(self).wf(),
        ensures
            old(self).move_outcome(*final(self), caller, to, value, r),
    {
        self.transfer_helper(&caller, &to, value)
    }

    /// `caller` allows `spender` to move up to `value` of its units, replacing
    /// any earlier allowance, and an Approval notification is emitted.
    pub fn approve(&mut self, caller: AccountId, spender: AccountId, value: Balance) -> (r: Result<
        (),
        Error,
    >)
        requires
            old(self).wf(),
        ensures
            old(self).approve_outcome(*final(self), caller, spender, value, r),
    {
        self.set_allowance(&caller, &spender, value);
        self.events.push(Event::Approval(Approval { from: caller, to: spender, value }));
        Ok(())
    }

    /// `caller` moves `value` units from `from` to `to` under the allowance
    /// that `from` gave it. Both checks come before any change, so a rejected
    /// call leaves the allowance as it was.
    pub fn transfer_from(
        &mut self,
        caller: AccountId,
        from: AccountId,
        to: AccountId,
        value: Balance,
    ) -> (r: Result<(), Error>)
        requires
            old(self).wf(),
        ensures
            old(self).transfer_from_outcome(*final(self), caller, from, to, value, r),
    {
        let allowance = self.allowance(from, caller);
        if allowance < value {
            return Err(Error::AllowanceTooLow);
        }
        let balance_from = self.balance_of(from);
        if value > balance_from {
            return Err(Error::BalanceTooLow);
        }
        self.set_allowance(&from, &caller, allowance - value);
        self.transfer_helper(&from, &to, value)
    }

    /// The notifications emitted and not yet taken, oldest first.
    pub fn events(&self) -> (r: &Vec<Event>)
        ensures
            r@ == self.spec_events(),
    {
        &self.events
    }

    /// Hands the pending notifications to the host, oldest first, and clears them.
    pub fn take_events(&mut self) -> (r: Vec<Event>)
        requires
            old(self).wf(),
        ensures
            r@ == old(self).spec_events(),
            final(self).wf(),
            final(self).spec_events() == Seq::<Event>::empty(),
            final(self).spec_total_supply() == old(self).spec_total_supply(),
            old(self).same_balances(*final(self)),
            old(self).same_allowances(*final(self)),
    {
        let mut r: Vec<Event> = Vec::new();
        r.append(&mut self.events);
        r
    }
}

/// In every well-formed ledger the balances of all accounts add up to the
/// total supply.
pub proof fn lemma_conservation(l: Erc20)
    requires
        l.wf(),
    ensures
        l.spec_balance_sum() == l.spec_total_supply(),
{
}

} // verus!
