use sanctifier::custom_yaml_rules::{AstMatcher, YamlCustomRule, YamlRuleWrapper, YamlSeverity};
use sanctifier::custom_yaml_rules::{function_call_violations, method_call_violations};
use sanctifier::missing_state_event::{
    check_impl_functions as missing_event_in, is_privileged_function, is_privileged_key,
    MissingStateEventRule,
};
use sanctifier::rules::{Rule, Severity};
use sanctifier::syntax::{parse_source, Expression, Statement};
use sanctifier::unchecked_external_call::{
    check_impl_functions as unchecked_calls_in, ident_looks_like_client, method_looks_read_only,
    UncheckedExternalCallRule,
};

#[test]
fn flags_admin_change_without_event() {
    let rule = MissingStateEventRule::new();
    let source = r#"
            impl MyContract {
                pub fn set_admin(env: Env, new_admin: Address) {
                    env.storage().persistent().set(&symbol_short!("admin"), &new_admin);
                }
            }
        "#;
    let violations = rule.check(source);
    assert!(!violations.is_empty(), "admin change without event should be flagged");
}

#[test]
fn no_violation_when_event_emitted() {
    let rule = MissingStateEventRule::new();
    let source = r#"
            impl MyContract {
                pub fn set_admin(env: Env, new_admin: Address) {
                    env.storage().persistent().set(&symbol_short!("admin"), &new_admin);
                    env.events().publish(("admin_changed",), new_admin);
                }
            }
        "#;
    let violations = rule.check(source);
    assert!(violations.is_empty(), "admin change with event should not be flagged");
}

#[test]
fn non_privileged_function_not_flagged() {
    let rule = MissingStateEventRule::new();
    let source = r#"
            impl MyContract {
                pub fn set_balance(env: Env, user: Address, amount: i128) {
                    env.storage().persistent().set(&user, &amount);
                }
            }
        "#;
    let violations = rule.check(source);
    assert!(violations.is_empty(), "non-privileged function should not be flagged");
}

#[test]
fn missing_event_violation_has_exact_fields() {
    let rule = MissingStateEventRule::new();
    let source = "impl C {\n    fn get_admin(env: Env) {}\n\n    pub fn set_admin(env: Env, a: Address) {\n        env.storage().instance().set(&DataKey::Admin, &a);\n    }\n}\n";
    let violations = rule.check(source);
    assert_eq!(violations.len(), 1);
    let v = &violations[0];
    assert_eq!(v.rule_name, "missing_state_event");
    assert_eq!(v.severity, Severity::Warning);
    assert_eq!(v.message, "Function 'set_admin' changes privileged state without emitting an event");
    assert_eq!(v.location, "line 4");
    assert_eq!(
        v.suggestion.as_deref(),
        Some("Add env.events().publish() after state changes for off-chain observability")
    );
    assert_eq!(rule.name(), "missing_state_event");
    assert!(rule.fix(source).is_empty());
    assert!(rule.check("this is not rust {").is_empty());
}

#[test]
fn mutation_inside_if_branch_is_seen() {
    let rule = MissingStateEventRule::new();
    let source = "impl C {\n    fn Pause(env: Env, flag: bool) {\n        if flag {\n            env.storage().instance().set(&PAUSED, &true);\n        }\n    }\n}\n";
    assert_eq!(rule.check(source).len(), 1);
    let outside = "struct S;\nfn pause(env: Env) { env.storage().instance().set(&PAUSED, &true); }\n";
    assert!(rule.check(outside).is_empty());
}

#[test]
fn source_is_parsed_into_impl_functions() {
    let file = parse_source("struct S;\nimpl S {\n    const N: u32 = 1;\n    fn a(&self) { x.f(&y, z); }\n}\nimpl T { fn b() {} }\n");
    assert_eq!(file.functions.len(), 2);
    assert_eq!(file.functions[0].name, "a");
    assert_eq!(file.functions[0].line, 4);
    assert_eq!(file.functions[1].name, "b");
    match &file.functions[0].body[0] {
        Statement::Expression { expr: Expression::MethodCall { method, receiver_text, call_text, arg_texts, .. }, semi } => {
            assert_eq!(method, "f");
            assert_eq!(receiver_text, "x");
            assert_eq!(call_text, "x . f (& y , z) . receiver");
            assert_eq!(arg_texts, &vec!["& y".to_string(), "z".to_string()]);
            assert!(*semi);
        }
        _ => panic!("expected a method call statement"),
    }
    assert!(parse_source("fn (").functions.is_empty());
}

#[test]
fn privileged_names_and_keys() {
    assert!(is_privileged_function("set_admin"));
    assert!(is_privileged_function("TransferOwnership"));
    assert!(!is_privileged_function("transfer"));
    assert!(is_privileged_function("transfer_OWNERSHIP"));
    assert!(is_privileged_function("unpause"));
    assert!(!is_privileged_function("set_balance"));
    assert!(is_privileged_key("& DataKey :: Admin"));
    assert!(is_privileged_key("AUTH_KEY"));
    assert!(!is_privileged_key("& user"));
}

#[test]
fn flags_unchecked_invoke_contract() {
    let rule = UncheckedExternalCallRule::new();
    let source = r#"
            impl MyContract {
                pub fn call_external(env: Env, contract_id: Address) {
                    TokenClient::new(&env, &contract_id).transfer(&from, &to, &amount);
                }
            }
        "#;
    let violations = rule.check(source);
    assert!(!violations.is_empty(), "unchecked external call should be flagged");
}

#[test]
fn no_violation_when_result_is_stored() {
    let rule = UncheckedExternalCallRule::new();
    let source = r#"
            impl MyContract {
                pub fn call_external(env: Env, contract_id: Address) {
                    let result = TokenClient::new(&env, &contract_id).transfer(&from, &to, &amount);
                    result.unwrap();
                }
            }
        "#;
    let violations = rule.check(source);
    assert!(violations.is_empty(), "checked external call should not be flagged");
}

#[test]
fn read_only_methods_not_flagged() {
    let rule = UncheckedExternalCallRule::new();
    let source = r#"
            impl MyContract {
                pub fn check_balance(env: Env, contract_id: Address) {
                    TokenClient::new(&env, &contract_id).balance(&user);
                }
            }
        "#;
    let violations = rule.check(source);
    assert!(violations.is_empty(), "read-only methods should not be flagged");
}

#[test]
fn unchecked_call_violation_fields_and_order() {
    let rule = UncheckedExternalCallRule::new();
    let source = "impl C {\n    fn f(env: Env) {\n        env.invoke_contract(&id, &f, args);\n        {\n            TokenClient::new(&env, &id).mint(&to, &1);\n        }\n        TokenClient::new(&env, &id).burn(&from, &1)\n    }\n}\n";
    let v = rule.check(source);
    assert_eq!(v.len(), 2);
    assert_eq!(v[0].location, "line 3");
    assert_eq!(v[1].location, "line 5");
    assert_eq!(v[0].rule_name, "unchecked_external_call");
    assert_eq!(v[0].message, "External contract call result is not checked or handled");
    assert_eq!(
        v[0].suggestion.as_deref(),
        Some("Store the result in a variable and handle errors with match, ?, or .unwrap_or()")
    );
}

#[test]
fn client_and_read_only_names() {
    assert!(ident_looks_like_client("TokenClient"));
    assert!(ident_looks_like_client("token_client"));
    assert!(ident_looks_like_client("CLIENT"));
    assert!(!ident_looks_like_client("client_id"));
    assert!(method_looks_read_only("balance"));
    assert!(method_looks_read_only("get_price"));
    assert!(method_looks_read_only("is_paused"));
    assert!(method_looks_read_only("has_role"));
    assert!(!method_looks_read_only("transfer"));
    assert!(!method_looks_read_only("getter"));
}

#[test]
fn test_yaml_rule_function_call() {
    let rule = YamlCustomRule {
        id: "no_unsafe_transfer".to_string(),
        name: "No Unsafe Transfer".to_string(),
        description: "Avoid using unsafe_transfer".to_string(),
        severity: YamlSeverity::Error,
        matcher: AstMatcher::FunctionCall { name: "unsafe_transfer".to_string(), args: vec![] },
    };
    let wrapper = YamlRuleWrapper::new(rule);
    let source = r#"
            impl MyContract {
                pub fn do_transfer(env: Env) {
                    unsafe_transfer(&env, &from, &to);
                }
            }
        "#;
    let violations = wrapper.check(source);
    assert!(!violations.is_empty());
    assert_eq!(violations[0].message, "Avoid using unsafe_transfer: unsafe_transfer");
    assert_eq!(violations[0].location, "line 4");
    assert_eq!(violations[0].severity, Severity::Error);
    assert_eq!(violations[0].rule_name, "no_unsafe_transfer");
}

#[test]
fn yaml_function_rule_requires_listed_arguments() {
    let make = |args: Vec<&str>| YamlRuleWrapper::new(YamlCustomRule {
        id: "r".to_string(),
        name: "r".to_string(),
        description: "d".to_string(),
        severity: YamlSeverity::Error,
        matcher: AstMatcher::FunctionCall {
            name: "unsafe_transfer".to_string(),
            args: args.iter().map(|a| a.to_string()).collect(),
        },
    });
    let source = "impl C { fn f(env: Env) { unsafe_transfer(&env, &from, &to); } }";
    assert!(make(vec!["amount"]).check(source).is_empty());
    assert_eq!(make(vec!["from", "to"]).check(source).len(), 1);
    assert_eq!(make(vec!["*env"]).check(source).len(), 1);
    assert!(make(vec!["from", "amount"]).check(source).is_empty());
}

#[test]
fn test_yaml_rule_method_call() {
    let rule = YamlCustomRule {
        id: "no_direct_remove".to_string(),
        name: "No Direct Remove".to_string(),
        description: "Use safe_remove instead of direct remove".to_string(),
        severity: YamlSeverity::Warning,
        matcher: AstMatcher::MethodCall {
            method: "remove".to_string(),
            receiver: Some("storage".to_string()),
        },
    };
    let wrapper = YamlRuleWrapper::new(rule);
    let source = r#"
            impl MyContract {
                pub fn delete_data(env: Env, key: Symbol) {
                    env.storage().persistent().remove(&key);
                }
            }
        "#;
    let violations = wrapper.check(source);
    assert!(!violations.is_empty());
    assert_eq!(violations.len(), 1);
    assert_eq!(violations[0].message, "Use safe_remove instead of direct remove: remove");
    assert_eq!(violations[0].severity, Severity::Warning);
}

#[test]
fn yaml_receiver_pattern_reads_the_receiver_only() {
    let wrapper = YamlRuleWrapper::new(YamlCustomRule {
        id: "r".to_string(),
        name: "r".to_string(),
        description: "d".to_string(),
        severity: YamlSeverity::Warning,
        matcher: AstMatcher::MethodCall { method: "set".to_string(), receiver: Some("storage".to_string()) },
    });
    assert!(wrapper.check("impl C { fn f(env: Env) { cache.set(storage_key, v); } }").is_empty());
    assert_eq!(
        wrapper.check("impl C { fn f(env: Env) { env.storage().instance().set(k, v); } }").len(),
        1
    );
}

#[test]
fn yaml_storage_rule_checks_operation_and_key() {
    let make = |key: Option<&str>| YamlRuleWrapper::new(YamlCustomRule {
        id: "admin_writes".to_string(),
        name: "Admin writes".to_string(),
        description: "Admin key written".to_string(),
        severity: YamlSeverity::Info,
        matcher: AstMatcher::StorageOperation {
            operation: "set".to_string(),
            key_pattern: key.map(|k| k.to_string()),
        },
    });
    let source = "impl C {\n    fn set_admin(env: Env, a: Address) {\n        env.storage().persistent().set(&symbol_short!(\"admin\"), &a);
    }
}
";
    let v = make(Some("*admin*")).check(source);
    assert_eq!(v.len(), 1);
    assert_eq!(v[0].message, "Admin key written: storage.set");
    assert_eq!(v[0].severity, Severity::Info);
    assert_eq!(v[0].location, "line 3");
    assert_eq!(make(None).check(source).len(), 1);
    assert_eq!(make(Some("owner")).check(source).len(), 0);
    // The storage check searches the call's text, arguments included.
    assert_eq!(make(None).check("impl C { fn f() { cache.set(storage_key, v); } }").len(), 1);
    assert!(make(None).check("impl C { fn f() { cache.set(key, v); } }").is_empty());
}

#[test]
fn yaml_regex_rule_reports_matching_lines() {
    let wrapper = YamlRuleWrapper::new(YamlCustomRule {
        id: "no_unwrap".to_string(),
        name: "No unwrap".to_string(),
        description: "unwrap may panic".to_string(),
        severity: YamlSeverity::Warning,
        matcher: AstMatcher::Regex { pattern: r"\.unwrap\(\)".to_string() },
    });
    let src = "let a = x.unwrap();\nlet b = 1;\r\nlet c = y.unwrap();";
    let v = wrapper.check(src);
    assert_eq!(v.len(), 2);
    assert_eq!(v[0].location, "line 1");
    assert_eq!(v[1].location, "line 3");
    assert_eq!(v[0].message, "unwrap may panic");
    let bad = YamlRuleWrapper::new(YamlCustomRule {
        id: "bad".to_string(),
        name: "Bad".to_string(),
        description: "bad".to_string(),
        severity: YamlSeverity::Error,
        matcher: AstMatcher::Regex { pattern: "(".to_string() },
    });
    assert!(bad.check(src).is_empty());
    assert_eq!(wrapper.name(), "no_unwrap");
    assert_eq!(wrapper.description(), "unwrap may panic");
}

#[test]
fn yaml_severity_converts() {
    assert_eq!(Severity::from(YamlSeverity::Error), Severity::Error);
    assert_eq!(Severity::from(YamlSeverity::Warning), Severity::Warning);
    assert_eq!(Severity::from(YamlSeverity::Info), Severity::Info);
}

#[test]
fn rules_over_parsed_functions() {
    let file = parse_source(
        "impl C {\n    fn set_owner(env: Env) {\n        env.storage().instance().set(&OWNER, &o);\n        env.invoke_contract(&id, &f, a);\n        helper(&amount);\n        cache.set(k, v);\n    }\n}\n",
    );
    let m = missing_event_in(&file.functions);
    assert_eq!(m.len(), 1);
    assert_eq!(m[0].location, "line 2");
    let u = unchecked_calls_in(&file.functions);
    assert_eq!(u.len(), 1);
    assert_eq!(u[0].location, "line 4");
    let rule = YamlCustomRule {
        id: "r".to_string(),
        name: "r".to_string(),
        description: "d".to_string(),
        severity: YamlSeverity::Info,
        matcher: AstMatcher::Regex { pattern: String::new() },
    };
    let f = function_call_violations(&file.functions, "help*", &vec!["amount".to_string()], &rule);
    assert_eq!(f.len(), 1);
    assert_eq!(f[0].message, "d: helper");
    assert_eq!(f[0].location, "line 5");
    let c = method_call_violations(&file.functions, "set", Some("cache"), &rule);
    assert_eq!(c.len(), 1);
    assert_eq!(c[0].location, "line 6");
}
