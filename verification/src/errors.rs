use vstd::prelude::*;

verus! {

/// The four ways resolving a configuration payload into a match predicate can
/// fail. Every one of them is terminal: no default pattern is ever
/// substituted, so a misconfigured pass stops instead of silently passing
/// unfiltered code through.
#[derive(Clone, Copy, Debug, PartialEq, Eq, Structural)]
pub enum ConfigError {
    /// The payload is not well-formed JSON.
    ConfigParse,
    /// The payload lacks the required `pattern` member.
    MissingField,
    /// The `pattern` member is present but is not a string.
    TypeMismatch,
    /// The `pattern` string does not compile as a regular expression.
    InvalidPattern,
}

} // verus!
