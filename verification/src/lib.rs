//! Static validation of Cedar authorization policies.
//!
//! The library offers two entry points over plain text: a standalone syntax
//! check of policy text, and a schema-aware strict validation that type-checks
//! a whole policy set against a schema.  Parsing and type inference are done
//! by the `cedar_policy` crate behind a small trusted boundary; everything
//! around that boundary — the resource limit on the input, the dispatch
//! between the error classes, the fixed messages, and the sorting and
//! assembly of the diagnostic payload — is verified.

pub mod cedar;
pub mod limits;
pub mod text;
pub mod validator;

pub use validator::ValidationResult;
pub use validator::validate_policy;
pub use validator::validate_syntax;
