//! The ledger's two key-value stores, each held in ink!'s storage `HashMap`
//! and seen by the proofs as a `Map` of its entries.
use vstd::prelude::*;

verus! {

/// Identifier of a participant: 32 opaque bytes, compared by value.
#[derive(Clone, Copy, Debug, PartialEq, Eq, Hash)]
pub struct AccountId {
    pub bytes: [u8; 32],
}

impl AccountId {
    /// The account with the given 32 bytes.
    pub fn new(bytes: [u8; 32]) -> (r: AccountId)
        ensures
            r.bytes == bytes,
    {
        AccountId { bytes }
    }
}

/// The value stored under `k`, or zero where `k` has no entry.
pub open spec fn value_or_zero<K>(m: Map<K, u128>, k: K) -> u128 {
    if m.contains_key(k) {
        m[k]
    } else {
        0
    }
}

/// A balance table without entries.
pub open spec fn no_balances() -> Map<AccountId, u128> {
    Map::empty()
}

/// An allowance table without entries.
pub open spec fn no_allowances() -> Map<(AccountId, AccountId), u128> {
    Map::empty()
}

/// Balances by account, kept in an `ink_storage::collections::HashMap`.
#[verifier::external_body]
pub struct BalanceMap {
    inner: ink_storage::collections::HashMap<[u8; 32], u128>,
}

/// The entries that a `BalanceMap` holds.
pub uninterp spec fn balance_entries(m: BalanceMap) -> Map<AccountId, u128>;

/// Relies on `ink_storage::collections::HashMap::new`: the map starts empty.
#[verifier::external_body]
pub(crate) fn balance_map_new() -> (r: BalanceMap)
    ensures
        balance_entries(r) == no_balances(),
{
    BalanceMap { inner: <ink_storage::collections::HashMap<[u8; 32], u128>>::new() }
}

/// Relies on `ink_storage::collections::HashMap::get`: the value stored under
/// the key, if there is one.
#[verifier::external_body]
pub(crate) fn balance_map_get(m: &BalanceMap, a: AccountId) -> (r: Option<u128>)
    ensures
        r == (if balance_entries(*m).contains_key(a) {
            Some(balance_entries(*m)[a])
        } else {
            None
        }),
{
    m.inner.get(&a.bytes).copied()
}

/// Relies on `ink_storage::collections::HashMap::insert`: the key maps to the
/// new value afterwards, and every other entry stays as it was.
#[verifier::external_body]
pub(crate) fn balance_map_insert(m: &mut BalanceMap, a: AccountId, v: u128)
    ensures
        balance_entries(*final(m)) == balance_entries(*old(m)).insert(a, v),
{
    m.inner.insert(a.bytes, v);
}

/// Allowances by (owner, spender), kept in an `ink_storage::collections::HashMap`.
#[verifier::external_body]
pub struct AllowanceMap {
    inner: ink_storage::collections::HashMap<([u8; 32], [u8; 32]), u128>,
}

/// The entries that an `AllowanceMap` holds.
pub uninterp spec fn allowance_entries(m: AllowanceMap) -> Map<(AccountId, AccountId), u128>;

/// Relies on `ink_storage::collections::HashMap::new`: the map starts empty.
#[verifier::external_body]
pub(crate) fn allowance_map_new() -> (r: AllowanceMap)
    ensures
        allowance_entries(r) == no_allowances(),
{
    AllowanceMap { inner: <ink_storage::collections::HashMap<([u8; 32], [u8; 32]), u128>>::new() }
}

/// Relies on `ink_storage::collections::HashMap::get`: the value stored under
/// the pair, if there is one.
#[verifier::external_body]
pub(crate) fn allowance_map_get(m: &AllowanceMap, owner: AccountId, spender: AccountId) -> (r:
    Option<u128>)
    ensures
        r == (if allowance_entries(*m).contains_key((owner, spender)) {
            Some(allowance_entries(*m)[(owner, spender)])
        } else {
            None
        }),
{
    m.inner.get(&(owner.bytes, spender.bytes)).copied()
}

/// Relies on `ink_storage::collections::HashMap::insert`: the pair maps to the
/// new value afterwards, and every other entry stays as it was.
#[verifier::external_body]
pub(crate) fn allowance_map_insert(
    m: &mut AllowanceMap,
    owner: AccountId,
    spender: AccountId,
    v: u128,
)
    ensures
        allowance_entries(*final(m)) == allowance_entries(*old(m)).insert((owner, spender), v),
{
    m.inner.insert((owner.bytes, spender.bytes), v);
}

} // verus!
