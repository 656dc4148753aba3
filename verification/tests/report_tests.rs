use sanctifier::report::{infer_contract_name, junit_suite, xml_escape};

#[test]
fn xml_special_chars_become_entities() {
    assert_eq!(
        xml_escape("a<b & \"c\" 'd'>"),
        "a&lt;b &amp; &quot;c&quot; &apos;d&apos;&gt;"
    );
    assert_eq!(xml_escape("plain text"), "plain text");
    assert_eq!(xml_escape("&amp;"), "&amp;amp;");
    assert_eq!(xml_escape(""), "");
    let escaped = xml_escape("<x y='1'>\"</x>");
    assert!(!escaped.contains('<') && !escaped.contains('>'));
    assert!(!escaped.contains('"') && !escaped.contains('\''));
}

#[test]
fn junit_suite_counts_tests_and_failures() {
    let cases = vec![
        "    <testcase name=\"ok\"/>".to_string(),
        "    <testcase name=\"bad\"><failure message=\"m\">x</failure></testcase>".to_string(),
    ];
    assert_eq!(
        junit_suite("auth_gaps", &cases),
        "  <testsuite name=\"auth_gaps\" tests=\"2\" failures=\"1\" errors=\"0\" time=\"0\">\n    <testcase name=\"ok\"/>\n    <testcase name=\"bad\"><failure message=\"m\">x</failure></testcase>\n  </testsuite>"
    );
    assert_eq!(
        junit_suite("empty", &[]),
        "  <testsuite name=\"empty\" tests=\"0\" failures=\"0\" errors=\"0\" time=\"0\">\n  </testsuite>"
    );
}

#[test]
fn contract_name_follows_the_contract_attribute() {
    assert_eq!(infer_contract_name("#[contract]\npub struct Token;\n"), Some("Token".to_string()));
    assert_eq!(
        infer_contract_name("use soroban_sdk::contract;\n\n  #[contract]\nstruct  Vault ;;\n"),
        Some("Vault".to_string())
    );
    assert_eq!(
        infer_contract_name("#[contract]\n#[derive(Clone)]\npub struct Escrow {\n    a: u32,\n}\n"),
        Some("Escrow".to_string())
    );
    assert_eq!(
        infer_contract_name("pub struct Helper;\n#[contract]\npub struct Main;\n"),
        Some("Main".to_string())
    );
}

#[test]
fn contract_name_absent() {
    assert_eq!(infer_contract_name("pub struct Plain;\n"), None);
    assert_eq!(infer_contract_name("#[contract]\npub struct ;\n"), None);
    assert_eq!(infer_contract_name("#[contract]\nimpl Token {}\n"), None);
    assert_eq!(infer_contract_name(""), None);
}
