//! Account and contract addresses, by the bytes that identify them.
use vstd::prelude::*;

verus! {

/// An address, by its encoded bytes.
#[derive(Clone, Debug)]
pub struct AccountId {
    pub bytes: Vec<u8>,
}

impl View for AccountId {
    type V = Seq<u8>;

    open spec fn view(&self) -> Seq<u8> {
        self.bytes@
    }
}

impl AccountId {
    /// A copy of this address.
    pub fn duplicate(&self) -> (r: AccountId)
        ensures
            r@ == self@,
    {
        AccountId { bytes: self.bytes.clone() }
    }
}

/// Whether two addresses are the same.
pub fn same_account(a: &AccountId, b: &AccountId) -> (r: bool)
    ensures
        r == (a@ == b@),
{
    if a.bytes.len() != b.bytes.len() {
        return false;
    }
    let mut i: usize = 0;
    while i < a.bytes.len()
        invariant
            a.bytes.len() == b.bytes.len(),
            i <= a.bytes.len(),
            forall|j: int| 0 <= j < i ==> a@[j] == b@[j],
        decreases a.bytes.len() - i,
    {
        if a.bytes[i] != b.bytes[i] {
            return false;
        }
        i = i + 1;
    }
    assert(a@ =~= b@);
    true
}

/// Index of the first entry of `v` equal to `a`, if any.
pub fn first_index_of(v: &Vec<AccountId>, a: &AccountId) -> (r: Option<usize>)
    ensures
        match r {
            Some(k) => k < v@.len() && v@[k as int]@ == a@ && forall|j: int|
                0 <= j < k ==> v@[j]@ != a@,
            None => forall|j: int| 0 <= j < v@.len() ==> v@[j]@ != a@,
        },
{
    let mut i: usize = 0;
    while i < v.len()
        invariant
            i <= v.len(),
            forall|j: int| 0 <= j < i ==> v@[j]@ != a@,
        decreases v.len() - i,
    {
        if same_account(&v[i], a) {
            return Some(i);
        }
        i = i + 1;
    }
    None
}

/// `a` is one of the addresses of `v`.
pub open spec fn has_account(v: Seq<AccountId>, a: Seq<u8>) -> bool {
    exists|j: int| 0 <= j < v.len() && v[j]@ == a
}

/// Whether `a` is one of the addresses of `v`.
pub fn contains_account(v: &Vec<AccountId>, a: &AccountId) -> (r: bool)
    ensures
        r == has_account(v@, a@),
{
    match first_index_of(v, a) {
        Some(_) => true,
        None => false,
    }
}

} // verus!
