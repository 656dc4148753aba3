use sanctifier::soroban_v21::{
    is_external_call, is_prng_function, is_storage_mutation, str_eq, V21_HOST_FUNCTIONS,
    V21_TYPE_NAMES,
};

#[test]
fn extend_ttl_is_storage_mutation() {
    assert!(is_storage_mutation("extend_ttl"));
    assert!(is_storage_mutation("set"));
    assert!(is_storage_mutation("remove"));
    assert!(!is_storage_mutation("get"));
}

#[test]
fn invoke_contract_check_is_external_call() {
    assert!(is_external_call("invoke_contract_check"));
    assert!(is_external_call("invoke_contract"));
    assert!(!is_external_call("get"));
}

#[test]
fn v21_host_functions_are_listed() {
    assert!(V21_HOST_FUNCTIONS.contains(&"invoke_contract_check"));
    assert!(V21_HOST_FUNCTIONS.contains(&"prng_u64_in_inclusive_range"));
}

#[test]
fn v21_types_are_listed() {
    assert!(V21_TYPE_NAMES.contains(&"MuxedAddress"));
    assert!(V21_TYPE_NAMES.contains(&"Prng"));
}

#[test]
fn update_is_storage_mutation_but_not_external_call() {
    assert!(is_storage_mutation("update"));
    assert!(!is_external_call("update"));
    assert!(!is_storage_mutation("invoke_contract"));
    assert!(!is_storage_mutation("Set"));
    assert!(!is_storage_mutation(""));
}

#[test]
fn prng_functions_are_recognised() {
    assert!(is_prng_function("prng_u64_in_inclusive_range"));
    assert!(is_prng_function("prng_bytes_new"));
    assert!(is_prng_function("prng_vec_shuffle"));
    assert!(!is_prng_function("prng"));
    assert!(!is_prng_function("prng_bytes_new_x"));
    for f in ["prng_u64_in_inclusive_range", "prng_bytes_new", "prng_vec_shuffle"] {
        assert!(V21_HOST_FUNCTIONS.contains(&f));
    }
}

#[test]
fn str_eq_compares_chars() {
    assert!(str_eq("abc", "abc"));
    assert!(!str_eq("abc", "abd"));
    assert!(!str_eq("abc", "ab"));
    assert!(str_eq("", ""));
    assert!(str_eq("héllo", "héllo"));
}
