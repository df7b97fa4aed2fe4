//! Trusted boundary around the `cedar_policy` crate.
//!
//! Parsing policy text, parsing schema text and running the strict validator
//! are done by `cedar_policy`; each call stands behind one wrapper.  Where
//! the outcome is a function of the input text alone (both parsers), the
//! wrapper's contract names it; where it is not (the strict validator, whose
//! recursion-limit bailout depends on runtime stack headroom), the wrapper
//! states nothing and a verified function renders whatever came back.
//! Everything a wrapper hands back is a plain value (or an opaque parse
//! result paired with the text it came from), so the logic around the calls
//! is verified.

use vstd::prelude::*;

use crate::limits::within_limits;

verus! {

#[verifier::external_type_specification]
#[verifier::external_body]
pub struct ExSchema(cedar_policy::Schema);

#[verifier::external_type_specification]
#[verifier::external_body]
pub struct ExPolicySet(cedar_policy::PolicySet);

/// What `cedar_policy::PolicySet::from_str` reports for a policy text:
/// `None` when the text parses under the policy grammar, otherwise `Some` of
/// the parse-error strings, in the order the parser produced them.  The
/// parser is deterministic, so this is a function of the text alone.
pub uninterp spec fn policy_syntax_report(text: Seq<char>) -> Option<Seq<Seq<char>>>;

/// Whether `cedar_policy::Schema::from_str` accepts a schema text.  The
/// schema parser is deterministic, so this is a function of the text alone.
pub uninterp spec fn schema_accepted(text: Seq<char>) -> bool;

/// A schema that `cedar_policy` accepted, together with the text it was
/// parsed from.  Values exist only through [`parse_schema`], so `src()`
/// always names that text.
pub struct CompiledSchema {
    inner: cedar_policy::Schema,
    source: String,
}

impl CompiledSchema {
    /// The schema text this value was parsed from.
    pub closed spec fn src(self) -> Seq<char> {
        self.source@
    }
}

/// A policy set that `cedar_policy` accepted, together with the text it was
/// parsed from.  Values exist only through [`parse_policy_set`], so `src()`
/// always names that text.
pub struct ParsedPolicies {
    inner: cedar_policy::PolicySet,
    source: String,
}

impl ParsedPolicies {
    /// The policy text this value was parsed from.
    pub closed spec fn src(self) -> Seq<char> {
        self.source@
    }
}

/// Relies on `cedar_policy::Schema::from_str`: it accepts or rejects a text
/// deterministically, with no effect beyond the returned value.
#[verifier::external_body]
pub(crate) fn parse_schema(text: &str) -> (r: Option<CompiledSchema>)
    ensures
        r is Some <==> schema_accepted(text@),
        r matches Some(s) ==> s.src() == text@,
{
    match <cedar_policy::Schema as core::str::FromStr>::from_str(text) {
        Ok(inner) => Some(CompiledSchema { inner, source: text.to_owned() }),
        Err(_) => None,
    }
}

/// Relies on `cedar_policy::PolicySet::from_str` and
/// `ParseErrors::errors_as_strings`: parsing is deterministic, and on failure
/// the error strings come back in the parser's order.  The conversion from
/// concrete to abstract syntax recurses over the expression tree, whose
/// depth the text's length and bracket nesting bound, so callers keep the
/// input within the library's resource limit.
#[verifier::external_body]
pub(crate) fn parse_policy_set(text: &str) -> (r: Result<ParsedPolicies, Vec<String>>)
    requires
        within_limits(text@),
    ensures
        r is Ok <==> policy_syntax_report(text@) is None,
        r matches Ok(p) ==> p.src() == text@,
        r matches Err(es) ==> policy_syntax_report(text@) == Some(
            es@.map_values(|s: String| s@),
        ),
{
    match <cedar_policy::PolicySet as core::str::FromStr>::from_str(text) {
        Ok(inner) => Ok(ParsedPolicies { inner, source: text.to_owned() }),
        Err(errors) => Err(errors.errors_as_strings()),
    }
}

/// Relies on `cedar_policy::Validator::new`, `Validator::validate` with
/// `ValidationMode::Strict`, and the `Display` of `ValidationError`: one
/// string per violation the typechecker found and reported.  Nothing is
/// stated of the result: the typechecker cuts recursion short when runtime
/// stack headroom runs low, so even the number of diagnostics depends on the
/// caller's stack, not on the texts alone, and the rendered content can
/// follow hash-map order.  A verified function renders whatever comes back.
/// The typechecker and the drop of the policy set recurse over each
/// expression tree, so callers keep the policy text within the library's
/// resource limit.
#[verifier::external_body]
pub(crate) fn run_strict_validation(schema: CompiledSchema, policies: &ParsedPolicies) -> (r: Vec<
    String,
>)
    requires
        within_limits(policies.src()),
{
    let validator = cedar_policy::Validator::new(schema.inner);
    let result = validator.validate(&policies.inner, cedar_policy::ValidationMode::Strict);
    result.validation_errors().map(|e| format!("{}", e)).collect()
}

} // verus!
