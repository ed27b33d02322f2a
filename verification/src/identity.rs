//! Identities: opaque ledger addresses that are only ever compared.

use anchor_lang::prelude::Pubkey;
use vstd::prelude::*;

verus! {

/// The ledger's address type. Proofs see nothing inside an address; code tells
/// two addresses apart through [`same_key`] alone.
#[verifier::external_type_specification]
#[verifier::external_body]
pub struct ExPubkey(Pubkey);

/// `Pubkey` is `Copy`, and its `clone` is the derived one: the clone is the
/// same address.
pub assume_specification[ <Pubkey as Clone>::clone ](key: &Pubkey) -> (copy: Pubkey)
    ensures
        copy == *key,
;

/// Calls `Pubkey`'s `==`, which compares the 32 address bytes: the result
/// says whether the two are the same address.
#[verifier::external_body]
pub(crate) fn same_key(a: &Pubkey, b: &Pubkey) -> (r: bool)
    ensures
        r == (*a == *b),
{
    a == b
}

/// Whether `key` occurs in `keys`.
pub fn contains_key(keys: &Vec<Pubkey>, key: &Pubkey) -> (r: bool)
    ensures
        r == keys@.contains(*key),
{
    let mut i: usize = 0;
    while i < keys.len()
        invariant
            i <= keys.len(),
            forall|j: int| 0 <= j < i ==> keys@[j] != *key,
        decreases keys.len() - i,
    {
        if same_key(&keys[i], key) {
            return true;
        }
        i += 1;
    }
    false
}

/// Whether no key occurs twice in `keys`.
pub fn all_distinct(keys: &Vec<Pubkey>) -> (r: bool)
    ensures
        r == keys@.no_duplicates(),
{
    let mut i: usize = 0;
    while i < keys.len()
        invariant
            i <= keys.len(),
            forall|a: int, b: int| 0 <= a < b < i ==> keys@[a] != keys@[b],
        decreases keys.len() - i,
    {
        let mut j: usize = 0;
        while j < i
            invariant
                j <= i,
                i < keys.len(),
                forall|a: int, b: int| 0 <= a < b < i ==> keys@[a] != keys@[b],
                forall|a: int| 0 <= a < j ==> keys@[a] != keys@[i as int],
            decreases i - j,
        {
            if same_key(&keys[j], &keys[i]) {
                assert(keys@[j as int] == keys@[i as int]);
                return false;
            }
            j += 1;
        }
        i += 1;
    }
    assert forall|a: int, b: int| 0 <= a < keys@.len() && 0 <= b < keys@.len() && a != b implies
        keys@[a] != keys@[b] by {
        if a < b {
            assert(keys@[a] != keys@[b]);
        } else {
            assert(keys@[b] != keys@[a]);
        }
    }
    true
}

} // verus!
