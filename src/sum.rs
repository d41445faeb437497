//! The sum of the values of a finite balance table, and how it changes when
//! one entry is written.
use vstd::prelude::*;

use vstd::set_lib::lemma_len_subset;

use crate::storage::{value_or_zero, AccountId};

verus! {

/// The sum of all values in `m` (zero where `m` is infinite).
pub open spec fn total_of(m: Map<AccountId, u128>) -> int
    decreases m.dom().len(),
{
    if m.dom().finite() && m.dom().len() > 0 {
        let k = m.dom().choose();
        m[k] + total_of(m.remove(k))
    } else {
        0
    }
}

/// The entries of `m` whose value is not zero.
pub open spec fn nonzero_entries(m: Map<AccountId, u128>) -> Map<AccountId, u128> {
    m.restrict(m.dom().filter(|k: AccountId| m[k] != 0))
}

/// Taking one entry out lowers the sum by exactly its value, whichever entry
/// it is.
pub proof fn lemma_total_of_remove(m: Map<AccountId, u128>, k: AccountId)
    requires
        m.dom().finite(),
        m.dom().contains(k),
    ensures
        total_of(m) == m[k] + total_of(m.remove(k)),
    decreases m.dom().len(),
{
    let c = m.dom().choose();
    if c != k {
        lemma_total_of_remove(m.remove(c), k);
        lemma_total_of_remove(m.remove(k), c);
        assert(m.remove(c).remove(k) =~= m.remove(k).remove(c));
    }
}

/// The sum of values that are never negative is never negative.
pub proof fn lemma_total_of_nonneg(m: Map<AccountId, u128>)
    ensures
        total_of(m) >= 0,
    decreases m.dom().len(),
{
    if m.dom().finite() && m.dom().len() > 0 {
        let k = m.dom().choose();
        lemma_total_of_nonneg(m.remove(k));
    }
}

/// Writing `v` under `k` replaces that entry's share of the sum by `v`.
pub proof fn lemma_total_of_insert(m: Map<AccountId, u128>, k: AccountId, v: u128)
    requires
        m.dom().finite(),
    ensures
        total_of(m.insert(k, v)) == total_of(m) - value_or_zero(m, k) + v,
{
    let n = m.insert(k, v);
    lemma_total_of_remove(n, k);
    if m.dom().contains(k) {
        lemma_total_of_remove(m, k);
        assert(n.remove(k) =~= m.remove(k));
    } else {
        assert(n.remove(k) =~= m);
    }
}

/// No single entry exceeds the sum.
pub proof fn lemma_entry_within_total(m: Map<AccountId, u128>, k: AccountId)
    requires
        m.dom().finite(),
    ensures
        value_or_zero(m, k) <= total_of(m),
{
    lemma_total_of_nonneg(m);
    if m.dom().contains(k) {
        lemma_total_of_remove(m, k);
        lemma_total_of_nonneg(m.remove(k));
    }
}

/// Entries of zero add nothing: the sum over all entries is the sum over
/// the non-zero ones.
pub proof fn lemma_total_of_nonzero(m: Map<AccountId, u128>)
    requires
        m.dom().finite(),
    ensures
        total_of(m) == total_of(nonzero_entries(m)),
    decreases m.dom().len(),
{
    let n = nonzero_entries(m);
    if m.dom().len() > 0 {
        let c = m.dom().choose();
        let r = m.remove(c);
        lemma_total_of_nonzero(r);
        if m[c] == 0 {
            assert(nonzero_entries(r) =~= n);
        } else {
            assert(n.dom().subset_of(m.dom()));
            lemma_len_subset(n.dom(), m.dom());
            lemma_total_of_remove(n, c);
            assert(n.remove(c) =~= nonzero_entries(r));
        }
    } else {
        assert(m.dom() =~= Set::<AccountId>::empty());
        assert(n =~= m);
    }
}

} // verus!
