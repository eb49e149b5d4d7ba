//! The reservation ledger: the currency capability the forum draws deposits
//! from. Each account holds a free and a reserved balance; reserving moves
//! value from free to reserved and fails, changing nothing, when the free
//! balance does not cover the amount.

use vstd::prelude::*;

use crate::types::Error;

verus! {

/// One account's balances.
#[derive(Clone, Copy, PartialEq, Eq, Debug)]
pub struct AccountRecord {
    pub account: u64,
    pub free: u64,
    pub reserved: u64,
}

/// The ledger: a table of account balances, one row per account.
#[derive(Clone, PartialEq, Eq, Debug)]
pub struct Ledger {
    pub accounts: Vec<AccountRecord>,
}

impl Ledger {
    /// Well-formedness: one row per account, and each account's total
    /// balance representable.
    pub open spec fn wf(self) -> bool {
        &&& forall|i: int, j: int|
            0 <= i < self.accounts@.len() && 0 <= j < self.accounts@.len()
                && #[trigger] self.accounts@[i].account == #[trigger] self.accounts@[j].account
                ==> i == j
        &&& forall|i: int|
            0 <= i < self.accounts@.len()
                ==> (#[trigger] self.accounts@[i]).free + self.accounts@[i].reserved <= u64::MAX
    }

    pub open spec fn has_account(self, who: u64) -> bool {
        exists|i: int| 0 <= i < self.accounts@.len() && (#[trigger] self.accounts@[i]).account == who
    }

    pub open spec fn account_index(self, who: u64) -> int {
        choose|i: int| 0 <= i < self.accounts@.len() && (#[trigger] self.accounts@[i]).account == who
    }

    /// The free balance of `who`; an account without a row holds nothing.
    pub open spec fn free_of(self, who: u64) -> u64 {
        if self.has_account(who) {
            self.accounts@[self.account_index(who)].free
        } else {
            0
        }
    }

    /// The reserved balance of `who`; an account without a row holds nothing.
    pub open spec fn reserved_of(self, who: u64) -> u64 {
        if self.has_account(who) {
            self.accounts@[self.account_index(who)].reserved
        } else {
            0
        }
    }

    /// In a well-formed ledger a matching row pins down the account's index.
    pub proof fn lemma_index_is(self, who: u64, i: int)
        requires
            self.wf(),
            0 <= i < self.accounts@.len(),
            self.accounts@[i].account == who,
        ensures
            self.has_account(who),
            self.account_index(who) == i,
            self.free_of(who) == self.accounts@[i].free,
            self.reserved_of(who) == self.accounts@[i].reserved,
    {
        assert(self.has_account(who));
        let j = self.account_index(who);
        assert(0 <= j < self.accounts@.len() && self.accounts@[j].account == who);
    }

    /// An empty ledger.
    pub fn new() -> (r: Ledger)
        ensures
            r.wf(),
            r.accounts@.len() == 0,
            forall|a: u64| !r.has_account(a),
            forall|a: u64| r.free_of(a) == 0 && r.reserved_of(a) == 0,
    {
        Ledger { accounts: Vec::new() }
    }

    /// Opens an account with an initial free balance. Nothing happens, and
    /// `false` comes back, when the account already has a row.
    pub fn endow(&mut self, who: u64, amount: u64) -> (r: bool)
        requires
            old(self).wf(),
        ensures
            final(self).wf(),
            r == !old(self).has_account(who),
            !r ==> *final(self) == *old(self),
            r ==> final(self).free_of(who) == amount && final(self).reserved_of(who) == 0,
            forall|a: u64|
                a != who
                    ==> final(self).free_of(a) == old(self).free_of(a) && final(self).reserved_of(a)
                        == old(self).reserved_of(a),
    {
        let n = self.accounts.len();
        let mut i: usize = 0;
        while i < n
            invariant
                n == self.accounts@.len(),
                i <= n,
                forall|j: int| 0 <= j < i ==> (#[trigger] self.accounts@[j]).account != who,
                self.wf(),
                *self == *old(self),
            decreases n - i,
        {
            if self.accounts[i].account == who {
                proof {
                    self.lemma_index_is(who, i as int);
                }
                return false;
            }
            i += 1;
        }
        let ghost prior = *self;
        self.accounts.push(AccountRecord { account: who, free: amount, reserved: 0 });
        proof {
            let len = prior.accounts@.len() as int;
            assert(!prior.has_account(who));
            assert(self.wf());
            self.lemma_index_is(who, len);
            assert forall|a: u64|
                a != who
                    implies self.free_of(a) == prior.free_of(a) && self.reserved_of(a)
                        == prior.reserved_of(a) by {
                if prior.has_account(a) {
                    let j = prior.account_index(a);
                    assert(self.accounts@[j] == prior.accounts@[j]);
                    self.lemma_index_is(a, j);
                } else {
                    assert(!self.has_account(a)) by {
                        if self.has_account(a) {
                            let j = self.account_index(a);
                            assert(0 <= j < self.accounts@.len());
                            assert(j != len);
                            assert(prior.accounts@[j].account == a);
                        }
                    }
                }
            }
        }
        true
    }

    /// The free balance, read back.
    pub fn free_balance(&self, who: u64) -> (r: u64)
        requires
            self.wf(),
        ensures
            r == self.free_of(who),
    {
        let n = self.accounts.len();
        let mut i: usize = 0;
        while i < n
            invariant
                n == self.accounts@.len(),
                i <= n,
                forall|j: int| 0 <= j < i ==> (#[trigger] self.accounts@[j]).account != who,
                self.wf(),
            decreases n - i,
        {
            if self.accounts[i].account == who {
                proof {
                    self.lemma_index_is(who, i as int);
                }
                return self.accounts[i].free;
            }
            i += 1;
        }
        proof {
            if self.has_account(who) {
                let j = self.account_index(who);
                assert(self.accounts@[j].account == who);
            }
        }
        0
    }

    /// The reserved balance, read back.
    pub fn reserved_balance(&self, who: u64) -> (r: u64)
        requires
            self.wf(),
        ensures
            r == self.reserved_of(who),
    {
        let n = self.accounts.len();
        let mut i: usize = 0;
        while i < n
            invariant
                n == self.accounts@.len(),
                i <= n,
                forall|j: int| 0 <= j < i ==> (#[trigger] self.accounts@[j]).account != who,
                self.wf(),
            decreases n - i,
        {
            if self.accounts[i].account == who {
                proof {
                    self.lemma_index_is(who, i as int);
                }
                return self.accounts[i].reserved;
            }
            i += 1;
        }
        proof {
            if self.has_account(who) {
                let j = self.account_index(who);
                assert(self.accounts@[j].account == who);
            }
        }
        0
    }

    /// Moves `amount` from `who`'s free balance to its reserved balance.
    /// Succeeds exactly when the free balance covers the amount; on failure
    /// the ledger is untouched.
    pub fn reserve(&mut self, who: u64, amount: u64) -> (r: Result<(), Error>)
        requires
            old(self).wf(),
        ensures
            final(self).wf(),
            r is Ok <==> amount <= old(self).free_of(who),
            r is Err ==> r == Err::<(), Error>(Error::InsufficientBalance)
                && *final(self) == *old(self),
            r is Ok ==> final(self).free_of(who) == old(self).free_of(who) - amount
                && final(self).reserved_of(who) == old(self).reserved_of(who) + amount,
            forall|a: u64|
                a != who
                    ==> final(self).free_of(a) == old(self).free_of(a) && final(self).reserved_of(a)
                        == old(self).reserved_of(a),
    {
        let n = self.accounts.len();
        let mut i: usize = 0;
        while i < n
            invariant
                n == self.accounts@.len(),
                i <= n,
                forall|j: int| 0 <= j < i ==> (#[trigger] self.accounts@[j]).account != who,
                self.wf(),
                *self == *old(self),
            decreases n - i,
        {
            if self.accounts[i].account == who {
                proof {
                    self.lemma_index_is(who, i as int);
                }
                let row = self.accounts[i];
                if amount <= row.free {
                    let ghost prior = *self;
                    self.accounts.set(
                        i,
                        AccountRecord {
                            account: who,
                            free: row.free - amount,
                            reserved: row.reserved + amount,
                        },
                    );
                    proof {
                        assert forall|x: int, y: int|
                            0 <= x < self.accounts@.len() && 0 <= y < self.accounts@.len()
                                && #[trigger] self.accounts@[x].account
                                == #[trigger] self.accounts@[y].account implies x == y by {
                            assert(prior.accounts@[x].account == self.accounts@[x].account);
                            assert(prior.accounts@[y].account == self.accounts@[y].account);
                        }
                        self.lemma_index_is(who, i as int);
                        assert forall|a: u64|
                            a != who
                                implies self.free_of(a) == prior.free_of(a)
                                && self.reserved_of(a) == prior.reserved_of(a) by {
                            if prior.has_account(a) {
                                let j = prior.account_index(a);
                                assert(j != i as int);
                                assert(self.accounts@[j] == prior.accounts@[j]);
                                self.lemma_index_is(a, j);
                            } else {
                                if self.has_account(a) {
                                    let j = self.account_index(a);
                                    assert(j != i as int);
                                    assert(prior.accounts@[j].account == a);
                                }
                            }
                        }
                    }
                    return Ok(());
                } else {
                    return Err(Error::InsufficientBalance);
                }
            }
            i += 1;
        }
        proof {
            if self.has_account(who) {
                let j = self.account_index(who);
                assert(self.accounts@[j].account == who);
            }
        }
        if amount == 0 {
            Ok(())
        } else {
            Err(Error::InsufficientBalance)
        }
    }
}

} // verus!
