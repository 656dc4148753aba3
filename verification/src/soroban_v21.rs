//! Soroban v21 (Protocol 21) support.
//!
//! Protocol 21 added the host functions `invoke_contract_check` (an
//! `invoke_contract` that returns a `Result` instead of trapping), the PRNG
//! functions `prng_u64_in_inclusive_range`, `prng_bytes_new` and
//! `prng_vec_shuffle`, and the conversions `string_copy_to_slice` and
//! `bytes_copy_to_slice`; the storage method `extend_ttl`; and the types
//! `MuxedAddress` and `Prng`. The helpers here let the analysis recognise them.
use vstd::prelude::*;
use crate::text::chars_of;

verus! {

/// All host-function names introduced or promoted in Soroban v21.
pub const V21_HOST_FUNCTIONS: [&'static str; 6] = [
    "invoke_contract_check",
    "prng_u64_in_inclusive_range",
    "prng_bytes_new",
    "prng_vec_shuffle",
    "string_copy_to_slice",
    "bytes_copy_to_slice",
];

/// Storage methods that modify state, including the v21 `extend_ttl`.
pub const STORAGE_MUTATION_METHODS: [&'static str; 4] = ["set", "update", "remove", "extend_ttl"];

/// External-call methods that can trigger reentrancy.
pub const EXTERNAL_CALL_METHODS: [&'static str; 2] = ["invoke_contract", "invoke_contract_check"];

/// New Soroban v21 type names that the parser should recognise.
pub const V21_TYPE_NAMES: [&'static str; 2] = ["MuxedAddress", "Prng"];

/// Whether two char vectors are equal.
pub fn chars_eq(a: &Vec<char>, b: &Vec<char>) -> (r: bool)
    ensures
        r == (a@ == b@),
{
    if a.len() != b.len() {
        return false;
    }
    let mut i: usize = 0;
    while i < a.len()
        invariant
            a.len() == b.len(),
            i <= a.len(),
            forall|j: int| 0 <= j < i ==> a@[j] == b@[j],
        decreases a.len() - i,
    {
        if a[i] != b[i] {
            return false;
        }
        i = i + 1;
    }
    assert(a@ =~= b@);
    true
}

/// Whether two strings hold the same chars.
pub fn str_eq(a: &str, b: &str) -> (r: bool)
    ensures
        r == (a@ == b@),
{
    let x = chars_of(a);
    let y = chars_of(b);
    chars_eq(&x, &y)
}

/// Some entry of `list` equals `s`.
pub open spec fn listed(list: Seq<&str>, s: Seq<char>) -> bool {
    exists|i: int| 0 <= i < list.len() && list[i]@ == s
}

/// Whether some entry of `list` equals `s`.
pub fn list_contains(list: &[&str], s: &str) -> (r: bool)
    ensures
        r == listed(list@, s@),
{
    let mut i: usize = 0;
    while i < list.len()
        invariant
            i <= list@.len(),
            forall|j: int| 0 <= j < i ==> list@[j]@ != s@,
        decreases list@.len() - i,
    {
        if str_eq(list[i], s) {
            return true;
        }
        i = i + 1;
    }
    false
}

/// Returns `true` if `method` is a storage-mutating operation (including v21).
pub fn is_storage_mutation(method: &str) -> (r: bool)
    ensures
        r == listed(STORAGE_MUTATION_METHODS@, method@),
{
    list_contains(&STORAGE_MUTATION_METHODS, method)
}

/// Returns `true` if `method` is an external contract call (including v21).
pub fn is_external_call(method: &str) -> (r: bool)
    ensures
        r == listed(EXTERNAL_CALL_METHODS@, method@),
{
    list_contains(&EXTERNAL_CALL_METHODS, method)
}

/// Returns `true` if `method` is a v21 PRNG host function.
pub fn is_prng_function(method: &str) -> (r: bool)
    ensures
        r == (method@ == "prng_u64_in_inclusive_range"@ || method@ == "prng_bytes_new"@
            || method@ == "prng_vec_shuffle"@),
{
    str_eq(method, "prng_u64_in_inclusive_range") || str_eq(method, "prng_bytes_new") || str_eq(
        method,
        "prng_vec_shuffle",
    )
}

/// No method is both an external call and a storage mutation.
pub proof fn law_external_calls_are_not_storage_mutations(m: Seq<char>)
    ensures
        listed(EXTERNAL_CALL_METHODS@, m) ==> !listed(STORAGE_MUTATION_METHODS@, m),
{
    reveal_strlit("set");
    reveal_strlit("update");
    reveal_strlit("remove");
    reveal_strlit("extend_ttl");
    reveal_strlit("invoke_contract");
    reveal_strlit("invoke_contract_check");
    if listed(EXTERNAL_CALL_METHODS@, m) {
        assert(m.len() >= 15);
        assert forall|i: int| 0 <= i < 4 implies STORAGE_MUTATION_METHODS@[i]@ != m by {
            assert(STORAGE_MUTATION_METHODS@[i]@.len() <= 10);
        }
    }
}

/// Every PRNG host function is one of the v21 host functions.
pub proof fn law_prng_functions_are_v21_host_functions(m: Seq<char>)
    ensures
        (m == "prng_u64_in_inclusive_range"@ || m == "prng_bytes_new"@ || m
            == "prng_vec_shuffle"@) ==> listed(V21_HOST_FUNCTIONS@, m),
{
    assert(V21_HOST_FUNCTIONS@[1]@ == "prng_u64_in_inclusive_range"@);
    assert(V21_HOST_FUNCTIONS@[2]@ == "prng_bytes_new"@);
    assert(V21_HOST_FUNCTIONS@[3]@ == "prng_vec_shuffle"@);
}

/// The checked invocation added in v21 is both an external call and a v21
/// host function, and `extend_ttl` mutates storage.
pub proof fn law_v21_additions_are_recognised()
    ensures
        listed(EXTERNAL_CALL_METHODS@, "invoke_contract_check"@),
        listed(V21_HOST_FUNCTIONS@, "invoke_contract_check"@),
        listed(STORAGE_MUTATION_METHODS@, "extend_ttl"@),
{
    assert(EXTERNAL_CALL_METHODS@[1]@ == "invoke_contract_check"@);
    assert(V21_HOST_FUNCTIONS@[0]@ == "invoke_contract_check"@);
    assert(STORAGE_MUTATION_METHODS@[3]@ == "extend_ttl"@);
}

} // verus!
