use policy_validator::validate_policy;
use policy_validator::validate_syntax;

const SCHEMA: &str = r#"{
    "": {
        "entityTypes": {
            "User": {
                "shape": {
                    "type": "Record",
                    "attributes": { "age": { "type": "Long" } }
                }
            },
            "Photo": {}
        },
        "actions": {
            "view": {
                "appliesTo": {
                    "principalTypes": ["User"],
                    "resourceTypes": ["Photo"]
                }
            }
        }
    }
}"#;

const AMBIGUOUS_SCHEMA: &str = r#"{
    "": {
        "entityTypes": {
            "User": {},
            "Doc": {
                "shape": {
                    "type": "Record",
                    "attributes": { "owner": { "type": "Boolean" } }
                }
            },
            "Pic": {}
        },
        "actions": {
            "view": {
                "appliesTo": {
                    "principalTypes": ["User"],
                    "resourceTypes": ["Doc", "Pic"]
                }
            }
        }
    }
}"#;

#[test]
fn empty_policy_text_is_well_formed() {
    let r = validate_syntax("");
    assert!(r.valid);
    assert!(r.error().is_none());
}

#[test]
fn malformed_expression_reports_parse_error() {
    let r = validate_syntax("permit(principal, action, resource) when { 1 + };");
    assert!(!r.valid);
    let payload = r.error().expect("an invalid result carries a payload");
    assert!(!payload.is_empty());
}

#[test]
fn parse_error_payload_is_not_the_input() {
    let text = "this is not a policy";
    let r = validate_syntax(text);
    assert!(!r.valid);
    let payload = r.error().expect("an invalid result carries a payload");
    assert_ne!(payload, text);
}

#[test]
fn attribute_type_mismatch_is_flagged() {
    let policy = r#"permit(principal, action, resource) when { principal.age > "10" };"#;
    let r = validate_policy(SCHEMA, policy);
    assert!(!r.valid);
    let payload = r.error().expect("an invalid result carries a payload");
    assert!(payload.contains("Unexpected type"), "payload was: {payload}");
}

#[test]
fn consistent_schema_and_policy_pass() {
    let policy = "permit(principal, action, resource);";
    let r = validate_policy(SCHEMA, policy);
    assert_eq!(r.error(), None, "expected no diagnostics");
    assert!(r.valid);
}

#[test]
fn guarded_attribute_comparison_passes() {
    let policy = "permit(principal, action, resource) when { principal.age > 10 };";
    let r = validate_policy(SCHEMA, policy);
    assert_eq!(r.error(), None, "expected no diagnostics");
    assert!(r.valid);
}

#[test]
fn malformed_schema_reports_fixed_message() {
    let r = validate_policy("not a schema", "permit(principal, action, resource);");
    assert!(!r.valid);
    assert_eq!(r.error(), Some("Invalid schema".to_string()));
}

#[test]
fn malformed_schema_message_ignores_policy_content() {
    let r = validate_policy("[1, 2]", "this is not even a policy");
    assert!(!r.valid);
    assert_eq!(r.error(), Some("Invalid schema".to_string()));
}

#[test]
fn unparsable_policy_set_reports_fixed_message() {
    let r = validate_policy(SCHEMA, "permit(principal, action, resource) when { 1 + };");
    assert!(!r.valid);
    assert_eq!(r.error(), Some("Failed to create policy set".to_string()));
}

#[test]
fn syntax_check_is_idempotent() {
    for text in ["", "permit(principal, action, resource);", "nonsense {"] {
        let a = validate_syntax(text);
        let b = validate_syntax(text);
        assert_eq!(a.valid, b.valid);
        assert_eq!(a.error(), b.error());
    }
}

#[test]
fn validation_is_idempotent() {
    let policy = r#"permit(principal, action, resource) when { principal.age > "10" };"#;
    let a = validate_policy(SCHEMA, policy);
    let b = validate_policy(SCHEMA, policy);
    assert_eq!(a.valid, b.valid);
    assert_eq!(a.error(), b.error());
}

#[test]
fn syntax_errors_dominate_validation() {
    let bad = "permit(principal, action, resource) when { 1 + };";
    assert!(!validate_syntax(bad).valid);
    assert!(!validate_policy(SCHEMA, bad).valid);
    assert!(!validate_policy(AMBIGUOUS_SCHEMA, bad).valid);
    assert!(!validate_policy("not a schema", bad).valid);
}

#[test]
fn syntax_check_sees_no_schema() {
    let text = "permit(principal, action, resource);";
    let before = validate_syntax(text);
    let _ = validate_policy(SCHEMA, text);
    let _ = validate_policy(AMBIGUOUS_SCHEMA, text);
    let _ = validate_policy("not a schema", text);
    let after = validate_syntax(text);
    assert_eq!(before.valid, after.valid);
    assert_eq!(before.error(), after.error());
}

#[test]
fn every_invalid_policy_is_reported() {
    let policies = "\
permit(principal, action, resource) when { principal.nope };
permit(principal, action, resource) when { principal.missing };";
    let r = validate_policy(SCHEMA, policies);
    assert!(!r.valid);
    let payload = r.error().expect("an invalid result carries a payload");
    let lines: Vec<&str> = payload.lines().filter(|l| !l.is_empty()).collect();
    assert!(lines.len() >= 2, "expected one diagnostic per policy, got: {payload}");
}

#[test]
fn over_deep_policy_text_is_rejected_cleanly() {
    let mut text = String::from("permit(principal, action, resource) when { ");
    for _ in 0..150 {
        text.push('(');
    }
    text.push('1');
    for _ in 0..150 {
        text.push(')');
    }
    text.push_str(" };");
    let r = validate_syntax(&text);
    assert!(!r.valid);
    assert_eq!(r.error(), Some("Policy text exceeds the resource limit".to_string()));
    let r2 = validate_policy(SCHEMA, &text);
    assert!(!r2.valid);
    assert_eq!(r2.error(), Some("Policy text exceeds the resource limit".to_string()));
}

#[test]
fn over_long_operator_chain_is_rejected_cleanly() {
    // Unbracketed chains build an expression tree one level per operator,
    // so over-long text is rejected before the parser sees it.
    let mut text = String::from("permit(principal, action, resource) when { true");
    for _ in 0..700 {
        text.push_str(" && true");
    }
    text.push_str(" };");
    let r = validate_syntax(&text);
    assert!(!r.valid);
    assert_eq!(r.error(), Some("Policy text exceeds the resource limit".to_string()));
    let r2 = validate_policy(SCHEMA, &text);
    assert!(!r2.valid);
    assert_eq!(r2.error(), Some("Policy text exceeds the resource limit".to_string()));
}

#[test]
fn moderate_nesting_stays_valid() {
    let policy = "permit(principal, action, resource) when { ((((principal.age > 10)))) };";
    let r = validate_policy(SCHEMA, policy);
    assert_eq!(r.error(), None, "expected no diagnostics");
    assert!(r.valid);
}

#[test]
fn diagnostics_are_sorted_and_separator_joined() {
    let policies = "\
permit(principal, action, resource) when { principal.zz };
permit(principal, action, resource) when { principal.aa };";
    let r = validate_policy(SCHEMA, policies);
    assert!(!r.valid);
    let payload = r.error().expect("an invalid result carries a payload");
    assert!(!payload.ends_with('\n'), "payload has a trailing newline: {payload:?}");
    let lines: Vec<&str> = payload.split('\n').collect();
    assert!(lines.len() >= 2, "expected one line per diagnostic, got: {payload}");
    for pair in lines.windows(2) {
        assert!(pair[0] <= pair[1], "lines out of order: {payload}");
    }
}

#[test]
fn any_reachable_mismatch_is_flagged() {
    // The action applies to both `Doc` and `Pic`; the condition only
    // type-checks for `Doc`, so strict validation must reject the policy.
    let policy = "permit(principal, action, resource) when { resource.owner };";
    let r = validate_policy(AMBIGUOUS_SCHEMA, policy);
    assert!(!r.valid);
    let payload = r.error().expect("an invalid result carries a payload");
    assert!(!payload.is_empty());
}
