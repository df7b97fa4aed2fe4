//! The two entry points: a standalone syntax check and a schema-aware strict
//! validation of a policy set.

use vstd::prelude::*;
use vstd::string::StringExecFns;

use crate::cedar::parse_policy_set;
use crate::cedar::parse_schema;
use crate::cedar::policy_syntax_report;
use crate::cedar::run_strict_validation;
use crate::cedar::schema_accepted;
use crate::limits::check_limits;
use crate::limits::within_limits;
use crate::text::join_lines_separated;
use crate::text::join_separated;
use crate::text::sort_lines;
use crate::text::sorted_lines;

verus! {

/// The outcome of a syntax check or a validation: a verdict, and a
/// diagnostic payload that is present exactly when the verdict is `false`.
pub struct ValidationResult {
    pub valid: bool,
    pub error: Option<String>,
}

impl ValidationResult {
    /// The diagnostic payload, as the text it holds.
    pub open spec fn error_text(self) -> Option<Seq<char>> {
        match self.error {
            Some(s) => Some(s@),
            None => None,
        }
    }

    /// A diagnostic is present if and only if the verdict failed.
    pub open spec fn wf(self) -> bool {
        self.valid <==> self.error_text() is None
    }

    /// The diagnostic payload, `None` on a valid result.
    pub fn error(&self) -> (r: Option<String>)
        ensures
            r is Some <==> self.error_text() is Some,
            r matches Some(s) ==> self.error_text() == Some(s@),
    {
        match &self.error {
            Some(s) => Some(s.clone()),
            None => None,
        }
    }
}

/// Whether a policy text passes the standalone syntax check: it stays
/// within the resource limit and parses under the policy grammar.
pub open spec fn syntax_valid(policy: Seq<char>) -> bool {
    within_limits(policy) && policy_syntax_report(policy) is None
}

/// The payload the syntax check reports: nothing on success, the fixed
/// resource-limit message for over-deep or over-long input, otherwise the
/// parse-error strings joined with `'\n'` between consecutive entries.
pub open spec fn syntax_error_text(policy: Seq<char>) -> Option<Seq<char>> {
    if !within_limits(policy) {
        Some(resource_limit_text())
    } else {
        match policy_syntax_report(policy) {
            None => None,
            Some(lines) => Some(join_separated(lines)),
        }
    }
}

/// Whether the inputs alone already force schema-aware validation to fail,
/// before the typechecker is consulted: the schema does not parse, or the
/// policy text fails the syntax check.  On the remaining path the verdict
/// follows the outside typechecker, which the inputs do not fully determine
/// (its recursion-limit bailout depends on runtime stack headroom).
pub open spec fn validation_precheck_fails(schema: Seq<char>, policy: Seq<char>) -> bool {
    !schema_accepted(schema) || !syntax_valid(policy)
}

/// The fixed payload for a schema text that does not parse.
pub open spec fn invalid_schema_text() -> Seq<char> {
    "Invalid schema"@
}

/// The fixed payload for a policy text that does not parse when a policy set
/// is built for validation.
pub open spec fn failed_policy_set_text() -> Seq<char> {
    "Failed to create policy set"@
}

/// The fixed payload for a policy text that exceeds the resource limit.
pub open spec fn resource_limit_text() -> Seq<char> {
    "Policy text exceeds the resource limit"@
}

/// Checks a policy text against the policy grammar alone; no schema is
/// consulted, and the result is a function of the policy text.
pub fn validate_syntax(policy: &str) -> (r: ValidationResult)
    ensures
        r.wf(),
        r.valid == syntax_valid(policy@),
        r.error_text() == syntax_error_text(policy@),
{
    if !check_limits(policy) {
        return ValidationResult {
            valid: false,
            error: Some(String::from_str("Policy text exceeds the resource limit")),
        };
    }
    match parse_policy_set(policy) {
        Ok(_) => ValidationResult { valid: true, error: None },
        Err(errors) => {
            let joined = join_lines_separated(&errors);
            ValidationResult { valid: false, error: Some(joined) }
        },
    }
}

/// Renders the outcome of a validation run from the diagnostics it handed
/// back: valid with no payload when there are none, otherwise invalid with
/// the diagnostics sorted into lexicographic order and joined by `'\n'`.
/// This is verified for every value of its argument, so it holds whatever
/// the typechecker returned — also under its recursion-limit bailout.
pub fn render_validation_outcome(diagnostics: Vec<String>) -> (r: ValidationResult)
    ensures
        r.wf(),
        r.valid <==> diagnostics@.len() == 0,
        diagnostics@.len() != 0 ==> exists|ordered: Seq<String>|
            ordered.to_multiset() == diagnostics@.to_multiset() && ordered.len()
                == diagnostics@.len() && sorted_lines(ordered) && r.error_text() == Some(
                join_separated(ordered.map_values(|s: String| s@)),
            ),
{
    if diagnostics.len() == 0 {
        ValidationResult { valid: true, error: None }
    } else {
        let ordered = sort_lines(diagnostics);
        let joined = join_lines_separated(&ordered);
        proof {
            assert(ordered@.to_multiset() == diagnostics@.to_multiset() && ordered@.len()
                == diagnostics@.len() && sorted_lines(ordered@) && joined@ == join_separated(
                ordered@.map_values(|s: String| s@),
            ));
        }
        ValidationResult { valid: false, error: Some(joined) }
    }
}

/// Validates a policy set against a schema in strict mode.  A schema that
/// does not parse yields the fixed `Invalid schema` payload; an over-large
/// or unparsable policy text yields its fixed payload; past those checks the
/// verdict follows the typechecker, and on failure the payload holds its
/// diagnostics one per line, in lexicographic order, joined by `'\n'`.
pub fn validate_policy(schema: &str, policy: &str) -> (r: ValidationResult)
    ensures
        r.wf(),
        validation_precheck_fails(schema@, policy@) ==> !r.valid,
        !schema_accepted(schema@) ==> r.error_text() == Some(invalid_schema_text()),
        schema_accepted(schema@) && !within_limits(policy@) ==> r.error_text() == Some(
            resource_limit_text(),
        ),
        schema_accepted(schema@) && within_limits(policy@) && policy_syntax_report(policy@) is Some
            ==> r.error_text() == Some(failed_policy_set_text()),
        schema_accepted(schema@) && syntax_valid(policy@) && !r.valid ==> exists|
            ordered: Seq<String>,
        |
            ordered.len() >= 1 && sorted_lines(ordered) && r.error_text() == Some(
                join_separated(ordered.map_values(|s: String| s@)),
            ),
{
    let schema_model = match parse_schema(schema) {
        Some(s) => s,
        None => {
            return ValidationResult {
                valid: false,
                error: Some(String::from_str("Invalid schema")),
            };
        },
    };
    if !check_limits(policy) {
        return ValidationResult {
            valid: false,
            error: Some(String::from_str("Policy text exceeds the resource limit")),
        };
    }
    let policy_set = match parse_policy_set(policy) {
        Ok(p) => p,
        Err(_) => {
            return ValidationResult {
                valid: false,
                error: Some(String::from_str("Failed to create policy set")),
            };
        },
    };
    let diagnostics = run_strict_validation(schema_model, &policy_set);
    let ghost diag_views = diagnostics@;
    let outcome = render_validation_outcome(diagnostics);
    proof {
        if !outcome.valid {
            let ordered = choose|ordered: Seq<String>|
                ordered.to_multiset() == diag_views.to_multiset() && ordered.len()
                    == diag_views.len() && sorted_lines(ordered) && outcome.error_text() == Some(
                    join_separated(ordered.map_values(|s: String| s@)),
                );
            assert(ordered.len() >= 1 && sorted_lines(ordered) && outcome.error_text() == Some(
                join_separated(ordered.map_values(|s: String| s@)),
            ));
        }
    }
    outcome
}

/// Idempotence: the syntax check's outcome is one function of the policy
/// text, so equal inputs are described by equal outcomes and equal payloads.
pub proof fn lemma_validate_syntax_idempotent(first: Seq<char>, second: Seq<char>)
    requires
        first == second,
    ensures
        syntax_valid(first) == syntax_valid(second),
        syntax_error_text(first) == syntax_error_text(second),
{
}

/// Idempotence of validation's input-determined part: which early rejection
/// applies, and with which fixed payload, is one function of the two texts.
/// Past the prechecks the verdict follows the outside typechecker, whose
/// recursion-limit bailout the inputs do not determine, so nothing more is
/// stated.
pub proof fn lemma_validate_policy_idempotent(
    schema_a: Seq<char>,
    policy_a: Seq<char>,
    schema_b: Seq<char>,
    policy_b: Seq<char>,
)
    requires
        schema_a == schema_b,
        policy_a == policy_b,
    ensures
        validation_precheck_fails(schema_a, policy_a) == validation_precheck_fails(
            schema_b,
            policy_b,
        ),
        schema_accepted(schema_a) == schema_accepted(schema_b),
        syntax_valid(policy_a) == syntax_valid(policy_b),
{
}

/// Syntax errors dominate: a policy text that fails the standalone syntax
/// check trips the validation precheck under every schema, and so fails
/// schema-aware validation.
pub proof fn lemma_syntax_error_dominates(schema: Seq<char>, policy: Seq<char>)
    requires
        !syntax_valid(policy),
    ensures
        validation_precheck_fails(schema, policy),
{
}

/// Schema independence of the syntax check: whatever schema text stands
/// beside it, the syntax check's verdict and payload are fixed by the policy
/// text's own limit check and parse report alone.
pub proof fn lemma_syntax_check_ignores_schema(schema: Seq<char>, policy: Seq<char>)
    ensures
        syntax_valid(policy) == (within_limits(policy) && policy_syntax_report(policy) is None),
        syntax_error_text(policy) == (if !within_limits(policy) {
            Some(resource_limit_text())
        } else {
            match policy_syntax_report(policy) {
                None => None,
                Some(lines) => Some(join_separated(lines)),
            }
        }),
{
}

} // verus!
