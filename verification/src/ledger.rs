//! In-memory model of the multi-asset ledger the dispatcher executes
//! against: authoritative balances per (currency, account) and total
//! issuance per currency.
//!
//! Read operations never mutate state on any path; the single write
//! operation, `transfer`, is all-or-nothing: on any rejection the ledger
//! is left exactly as it was. Issuance is tracked separately from the
//! balances and a transfer never touches it.
//!
//! Policy, stated once and deliberately: every currency — the native
//! token included — routes through this one ledger interface; there is
//! no separate balance store that bypasses it.

use vstd::prelude::*;

use crate::currency::{CurrencyId, CurrencyIdView};
use crate::errors::LedgerError;

verus! {

/// Native account identifier, as handed out by the address mapping.
pub type AccountId = u64;

struct BalanceEntry {
    currency: CurrencyId,
    account: AccountId,
    amount: u128,
}

struct IssuanceEntry {
    currency: CurrencyId,
    amount: u128,
}

spec fn balance_match(e: BalanceEntry, c: CurrencyIdView, a: AccountId) -> bool {
    e.currency@ == c && e.account == a
}

spec fn issuance_match(e: IssuanceEntry, c: CurrencyIdView) -> bool {
    e.currency@ == c
}

spec fn bal_in(s: Seq<BalanceEntry>, c: CurrencyIdView, a: AccountId) -> u128
    decreases s.len(),
{
    if s.len() == 0 {
        0u128
    } else if balance_match(s[0], c, a) {
        s[0].amount
    } else {
        bal_in(s.skip(1), c, a)
    }
}

spec fn iss_in(s: Seq<IssuanceEntry>, c: CurrencyIdView) -> u128
    decreases s.len(),
{
    if s.len() == 0 {
        0u128
    } else if issuance_match(s[0], c) {
        s[0].amount
    } else {
        iss_in(s.skip(1), c)
    }
}

proof fn lemma_bal_update(s: Seq<BalanceEntry>, i: int, e: BalanceEntry)
    requires
        0 <= i < s.len(),
        e.currency@ == s[i].currency@,
        e.account == s[i].account,
        forall|j: int| 0 <= j < i ==> !balance_match(s[j], e.currency@, e.account),
    ensures
        bal_in(s.update(i, e), e.currency@, e.account) == e.amount,
        forall|c: CurrencyIdView, a: AccountId|
            !(c == e.currency@ && a == e.account) ==> #[trigger] bal_in(s.update(i, e), c, a)
                == bal_in(s, c, a),
    decreases i,
{
    let t = s.update(i, e);
    if i == 0 {
        assert(t[0] == e);
        assert(t.skip(1) =~= s.skip(1));
        assert(bal_in(t, e.currency@, e.account) == e.amount);
        assert forall|c: CurrencyIdView, a: AccountId|
            !(c == e.currency@ && a == e.account) implies #[trigger] bal_in(t, c, a) == bal_in(
            s,
            c,
            a,
        ) by {
            assert(!balance_match(e, c, a));
            assert(!balance_match(s[0], c, a));
        }
    } else {
        assert(!balance_match(s[0], e.currency@, e.account));
        assert(t[0] == s[0]);
        assert(t.skip(1) =~= s.skip(1).update(i - 1, e));
        assert(s.skip(1)[i - 1] == s[i]);
        assert forall|j: int| 0 <= j < i - 1 implies !balance_match(
            s.skip(1)[j],
            e.currency@,
            e.account,
        ) by {
            assert(s.skip(1)[j] == s[j + 1]);
        }
        lemma_bal_update(s.skip(1), i - 1, e);
        assert(bal_in(t, e.currency@, e.account) == e.amount);
        assert forall|c: CurrencyIdView, a: AccountId|
            !(c == e.currency@ && a == e.account) implies #[trigger] bal_in(t, c, a) == bal_in(
            s,
            c,
            a,
        ) by {
            if balance_match(s[0], c, a) {
            } else {
                assert(bal_in(t, c, a) == bal_in(t.skip(1), c, a));
                assert(bal_in(s, c, a) == bal_in(s.skip(1), c, a));
            }
        }
    }
}

proof fn lemma_bal_push(s: Seq<BalanceEntry>, e: BalanceEntry)
    requires
        forall|j: int| 0 <= j < s.len() ==> !balance_match(s[j], e.currency@, e.account),
    ensures
        bal_in(s.push(e), e.currency@, e.account) == e.amount,
        forall|c: CurrencyIdView, a: AccountId|
            !(c == e.currency@ && a == e.account) ==> #[trigger] bal_in(s.push(e), c, a) == bal_in(
                s,
                c,
                a,
            ),
    decreases s.len(),
{
    let t = s.push(e);
    if s.len() == 0 {
        assert(t[0] == e);
        assert(t.skip(1) =~= Seq::<BalanceEntry>::empty());
        assert forall|c: CurrencyIdView, a: AccountId|
            !(c == e.currency@ && a == e.account) implies #[trigger] bal_in(t, c, a) == bal_in(
            s,
            c,
            a,
        ) by {
            assert(!balance_match(e, c, a));
            assert(bal_in(t.skip(1), c, a) == 0);
        }
    } else {
        assert(t[0] == s[0]);
        assert(t.skip(1) =~= s.skip(1).push(e));
        assert forall|j: int| 0 <= j < s.skip(1).len() implies !balance_match(
            s.skip(1)[j],
            e.currency@,
            e.account,
        ) by {
            assert(s.skip(1)[j] == s[j + 1]);
        }
        lemma_bal_push(s.skip(1), e);
        assert(!balance_match(s[0], e.currency@, e.account));
        assert(bal_in(t, e.currency@, e.account) == e.amount);
        assert forall|c: CurrencyIdView, a: AccountId|
            !(c == e.currency@ && a == e.account) implies #[trigger] bal_in(t, c, a) == bal_in(
            s,
            c,
            a,
        ) by {
            if balance_match(s[0], c, a) {
            } else {
                assert(bal_in(t, c, a) == bal_in(t.skip(1), c, a));
                assert(bal_in(s, c, a) == bal_in(s.skip(1), c, a));
            }
        }
    }
}

proof fn lemma_iss_update(s: Seq<IssuanceEntry>, i: int, e: IssuanceEntry)
    requires
        0 <= i < s.len(),
        e.currency@ == s[i].currency@,
        forall|j: int| 0 <= j < i ==> !issuance_match(s[j], e.currency@),
    ensures
        iss_in(s.update(i, e), e.currency@) == e.amount,
        forall|c: CurrencyIdView|
            c != e.currency@ ==> #[trigger] iss_in(s.update(i, e), c) == iss_in(s, c),
    decreases i,
{
    let t = s.update(i, e);
    if i == 0 {
        assert(t[0] == e);
        assert(t.skip(1) =~= s.skip(1));
        assert forall|c: CurrencyIdView| c != e.currency@ implies #[trigger] iss_in(t, c)
            == iss_in(s, c) by {
            assert(!issuance_match(e, c));
            assert(!issuance_match(s[0], c));
        }
    } else {
        assert(!issuance_match(s[0], e.currency@));
        assert(t[0] == s[0]);
        assert(t.skip(1) =~= s.skip(1).update(i - 1, e));
        assert(s.skip(1)[i - 1] == s[i]);
        assert forall|j: int| 0 <= j < i - 1 implies !issuance_match(
            s.skip(1)[j],
            e.currency@,
        ) by {
            assert(s.skip(1)[j] == s[j + 1]);
        }
        lemma_iss_update(s.skip(1), i - 1, e);
        assert(iss_in(t, e.currency@) == e.amount);
        assert forall|c: CurrencyIdView| c != e.currency@ implies #[trigger] iss_in(t, c)
            == iss_in(s, c) by {
            if issuance_match(s[0], c) {
            } else {
                assert(iss_in(t, c) == iss_in(t.skip(1), c));
                assert(iss_in(s, c) == iss_in(s.skip(1), c));
            }
        }
    }
}

proof fn lemma_iss_push(s: Seq<IssuanceEntry>, e: IssuanceEntry)
    requires
        forall|j: int| 0 <= j < s.len() ==> !issuance_match(s[j], e.currency@),
    ensures
        iss_in(s.push(e), e.currency@) == e.amount,
        forall|c: CurrencyIdView| c != e.currency@ ==> #[trigger] iss_in(s.push(e), c) == iss_in(s, c),
    decreases s.len(),
{
    let t = s.push(e);
    if s.len() == 0 {
        assert(t[0] == e);
        assert(t.skip(1) =~= Seq::<IssuanceEntry>::empty());
        assert forall|c: CurrencyIdView| c != e.currency@ implies #[trigger] iss_in(t, c)
            == iss_in(s, c) by {
            assert(!issuance_match(e, c));
            assert(iss_in(t.skip(1), c) == 0);
        }
    } else {
        assert(t[0] == s[0]);
        assert(t.skip(1) =~= s.skip(1).push(e));
        assert forall|j: int| 0 <= j < s.skip(1).len() implies !issuance_match(
            s.skip(1)[j],
            e.currency@,
        ) by {
            assert(s.skip(1)[j] == s[j + 1]);
        }
        lemma_iss_push(s.skip(1), e);
        assert(!issuance_match(s[0], e.currency@));
        assert forall|c: CurrencyIdView| c != e.currency@ implies #[trigger] iss_in(t, c)
            == iss_in(s, c) by {
            if issuance_match(s[0], c) {
            } else {
                assert(iss_in(t, c) == iss_in(t.skip(1), c));
                assert(iss_in(s, c) == iss_in(s.skip(1), c));
            }
        }
    }
}

/// The ledger: balances per (currency, account) and issuance per
/// currency.
pub struct Ledger {
    balances: Vec<BalanceEntry>,
    issuances: Vec<IssuanceEntry>,
}

impl Ledger {
    /// Balance the ledger holds for an account in a currency; zero where
    /// no amount was ever deposited.
    pub closed spec fn balance_of_spec(self, c: CurrencyIdView, who: AccountId) -> u128 {
        bal_in(self.balances@, c, who)
    }

    /// Aggregate issuance the ledger records for a currency.
    pub closed spec fn issuance_spec(self, c: CurrencyIdView) -> u128 {
        iss_in(self.issuances@, c)
    }

    /// True when the two ledgers report the same balance for every
    /// account and the same issuance for every currency.
    pub open spec fn same_state(self, other: Ledger) -> bool {
        (forall|c: CurrencyIdView, a: AccountId|
            #[trigger] self.balance_of_spec(c, a) == other.balance_of_spec(c, a))
            && (forall|c: CurrencyIdView| #[trigger] self.issuance_spec(c) == other.issuance_spec(c))
    }

    /// An empty ledger: every balance and every issuance is zero.
    pub fn new() -> (r: Ledger)
        ensures
            forall|c: CurrencyIdView, a: AccountId| #[trigger] r.balance_of_spec(c, a) == 0,
            forall|c: CurrencyIdView| #[trigger] r.issuance_spec(c) == 0,
    {
        let r = Ledger { balances: Vec::new(), issuances: Vec::new() };
        proof {
            assert forall|c: CurrencyIdView, a: AccountId| #[trigger] r.balance_of_spec(c, a)
                == 0 by {
                assert(r.balances@.len() == 0);
            }
            assert forall|c: CurrencyIdView| #[trigger] r.issuance_spec(c) == 0 by {
                assert(r.issuances@.len() == 0);
            }
        }
        r
    }

    /// Reads the total balance of an account in a currency.
    pub fn total_balance(&self, currency_id: &CurrencyId, who: AccountId) -> (r: u128)
        ensures
            r == self.balance_of_spec(currency_id@, who),
    {
        let n = self.balances.len();
        let mut i: usize = 0;
        proof {
            assert(self.balances@.skip(0) =~= self.balances@);
        }
        while i < n
            invariant
                n == self.balances@.len(),
                i <= n,
                bal_in(self.balances@.skip(i as int), currency_id@, who) == bal_in(
                    self.balances@,
                    currency_id@,
                    who,
                ),
            decreases n - i,
        {
            let e = &self.balances[i];
            proof {
                assert(self.balances@.skip(i as int)[0] == self.balances@[i as int]);
            }
            if e.currency == *currency_id && e.account == who {
                return e.amount;
            }
            proof {
                assert(self.balances@.skip(i as int).skip(1) =~= self.balances@.skip(i as int + 1));
            }
            i += 1;
        }
        proof {
            assert(self.balances@.skip(n as int) =~= Seq::<BalanceEntry>::empty());
        }
        0
    }

    /// Reads the aggregate issuance of a currency.
    pub fn total_issuance(&self, currency_id: &CurrencyId) -> (r: u128)
        ensures
            r == self.issuance_spec(currency_id@),
    {
        let n = self.issuances.len();
        let mut i: usize = 0;
        proof {
            assert(self.issuances@.skip(0) =~= self.issuances@);
        }
        while i < n
            invariant
                n == self.issuances@.len(),
                i <= n,
                iss_in(self.issuances@.skip(i as int), currency_id@) == iss_in(
                    self.issuances@,
                    currency_id@,
                ),
            decreases n - i,
        {
            let e = &self.issuances[i];
            proof {
                assert(self.issuances@.skip(i as int)[0] == self.issuances@[i as int]);
            }
            if e.currency == *currency_id {
                return e.amount;
            }
            proof {
                assert(self.issuances@.skip(i as int).skip(1) =~= self.issuances@.skip(
                    i as int + 1,
                ));
            }
            i += 1;
        }
        proof {
            assert(self.issuances@.skip(n as int) =~= Seq::<IssuanceEntry>::empty());
        }
        0
    }

    /// Overwrites the balance of one account in one currency, leaving
    /// every other balance and every issuance untouched.
    fn set_balance(&mut self, currency_id: &CurrencyId, who: AccountId, value: u128)
        requires
            currency_id.wf(),
        ensures
            final(self).balance_of_spec(currency_id@, who) == value,
            forall|c: CurrencyIdView, a: AccountId|
                !(c == currency_id@ && a == who) ==> #[trigger] final(self).balance_of_spec(c, a)
                    == old(self).balance_of_spec(c, a),
            forall|c: CurrencyIdView|
                #[trigger] final(self).issuance_spec(c) == old(self).issuance_spec(c),
    {
        let n = self.balances.len();
        let mut i: usize = 0;
        while i < n
            invariant
                currency_id.wf(),
                n == self.balances@.len(),
                i <= n,
                self.balances@ == old(self).balances@,
                self.issuances@ == old(self).issuances@,
                forall|j: int| 0 <= j < i ==> !balance_match(self.balances@[j], currency_id@, who),
            decreases n - i,
        {
            let found = self.balances[i].currency == *currency_id && self.balances[i].account
                == who;
            if found {
                let e = self.balances.remove(i);
                let replacement = BalanceEntry { currency: e.currency, account: e.account, amount: value };
                proof {
                    assert(replacement.currency@ == old(self).balances@[i as int].currency@);
                }
                self.balances.insert(i, replacement);
                proof {
                    assert(self.balances@ =~= old(self).balances@.update(i as int, replacement));
                    lemma_bal_update(old(self).balances@, i as int, replacement);
                }
                return ;
            }
            i += 1;
        }
        let fresh = BalanceEntry { currency: currency_id.clone(), account: who, amount: value };
        self.balances.push(fresh);
        proof {
            lemma_bal_push(old(self).balances@, fresh);
        }
    }

    /// Overwrites the issuance of one currency, leaving every other
    /// issuance and every balance untouched.
    fn set_issuance(&mut self, currency_id: &CurrencyId, value: u128)
        requires
            currency_id.wf(),
        ensures
            final(self).issuance_spec(currency_id@) == value,
            forall|c: CurrencyIdView|
                c != currency_id@ ==> #[trigger] final(self).issuance_spec(c) == old(
                    self,
                ).issuance_spec(c),
            forall|c: CurrencyIdView, a: AccountId|
                #[trigger] final(self).balance_of_spec(c, a) == old(self).balance_of_spec(c, a),
    {
        let n = self.issuances.len();
        let mut i: usize = 0;
        while i < n
            invariant
                currency_id.wf(),
                n == self.issuances@.len(),
                i <= n,
                self.balances@ == old(self).balances@,
                self.issuances@ == old(self).issuances@,
                forall|j: int| 0 <= j < i ==> !issuance_match(self.issuances@[j], currency_id@),
            decreases n - i,
        {
            let found = self.issuances[i].currency == *currency_id;
            if found {
                let e = self.issuances.remove(i);
                let replacement = IssuanceEntry { currency: e.currency, amount: value };
                proof {
                    assert(replacement.currency@ == old(self).issuances@[i as int].currency@);
                }
                self.issuances.insert(i, replacement);
                proof {
                    assert(self.issuances@ =~= old(self).issuances@.update(i as int, replacement));
                    lemma_iss_update(old(self).issuances@, i as int, replacement);
                }
                return ;
            }
            i += 1;
        }
        let fresh = IssuanceEntry { currency: currency_id.clone(), amount: value };
        self.issuances.push(fresh);
        proof {
            lemma_iss_push(old(self).issuances@, fresh);
        }
    }

    /// Credits an account and the currency's issuance by the same
    /// amount; rejected whole when either sum would overflow.
    pub fn deposit(&mut self, currency_id: &CurrencyId, who: AccountId, amount: u128) -> (r: Result<
        (),
        LedgerError,
    >)
        requires
            currency_id.wf(),
        ensures
            ({
                let b = old(self).balance_of_spec(currency_id@, who);
                let t = old(self).issuance_spec(currency_id@);
                if b + amount > u128::MAX || t + amount > u128::MAX {
                    r == Err::<(), LedgerError>(LedgerError::Overflow) && final(self).same_state(
                        *old(self),
                    )
                } else {
                    &&& r == Ok::<(), LedgerError>(())
                    &&& final(self).balance_of_spec(currency_id@, who) == b + amount
                    &&& final(self).issuance_spec(currency_id@) == t + amount
                    &&& forall|c: CurrencyIdView, a: AccountId|
                        !(c == currency_id@ && a == who) ==> #[trigger] final(self).balance_of_spec(
                            c,
                            a,
                        ) == old(self).balance_of_spec(c, a)
                    &&& forall|c: CurrencyIdView|
                        c != currency_id@ ==> #[trigger] final(self).issuance_spec(c) == old(
                            self,
                        ).issuance_spec(c)
                }
            }),
    {
        let b = self.total_balance(currency_id, who);
        if amount > u128::MAX - b {
            return Err(LedgerError::Overflow);
        }
        let t = self.total_issuance(currency_id);
        if amount > u128::MAX - t {
            return Err(LedgerError::Overflow);
        }
        self.set_balance(currency_id, who, b + amount);
        self.set_issuance(currency_id, t + amount);
        Ok(())
    }

    /// Moves an amount of one currency between two accounts. Rejections
    /// leave the ledger exactly as it was: a debit larger than the
    /// sender's balance, or a credit that would overflow the recipient's
    /// balance, changes nothing. A successful transfer debits the sender
    /// and credits the recipient by exactly the amount once, touches no
    /// other balance, and leaves every issuance unchanged.
    pub fn transfer(
        &mut self,
        currency_id: &CurrencyId,
        from: AccountId,
        to: AccountId,
        amount: u128,
    ) -> (r: Result<(), LedgerError>)
        requires
            currency_id.wf(),
        ensures
            ({
                let bf = old(self).balance_of_spec(currency_id@, from);
                let bt = old(self).balance_of_spec(currency_id@, to);
                &&& bf < amount ==> r == Err::<(), LedgerError>(LedgerError::InsufficientBalance)
                    && final(self).same_state(*old(self))
                &&& bf >= amount && from == to ==> r == Ok::<(), LedgerError>(())
                    && final(self).same_state(*old(self))
                &&& bf >= amount && from != to && bt + amount > u128::MAX ==> r == Err::<
                    (),
                    LedgerError,
                >(LedgerError::Overflow) && final(self).same_state(*old(self))
                &&& bf >= amount && from != to && bt + amount <= u128::MAX ==> {
                    &&& r == Ok::<(), LedgerError>(())
                    &&& final(self).balance_of_spec(currency_id@, from) == bf - amount
                    &&& final(self).balance_of_spec(currency_id@, to) == bt + amount
                    &&& forall|c: CurrencyIdView, a: AccountId|
                        !(c == currency_id@ && (a == from || a == to))
                            ==> #[trigger] final(self).balance_of_spec(c, a)
                            == old(self).balance_of_spec(c, a)
                    &&& forall|c: CurrencyIdView|
                        #[trigger] final(self).issuance_spec(c) == old(self).issuance_spec(c)
                }
            }),
    {
        let bf = self.total_balance(currency_id, from);
        if bf < amount {
            return Err(LedgerError::InsufficientBalance);
        }
        if from == to {
            return Ok(());
        }
        let bt = self.total_balance(currency_id, to);
        if amount > u128::MAX - bt {
            return Err(LedgerError::Overflow);
        }
        self.set_balance(currency_id, from, bf - amount);
        self.set_balance(currency_id, to, bt + amount);
        Ok(())
    }
}

} // verus!
