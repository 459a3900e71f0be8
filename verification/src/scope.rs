use vstd::prelude::*;

verus! {

/// What the adapter may surface in diagnostics when it judges private content.
#[derive(Clone, Copy, Debug, PartialEq, Eq, Structural)]
pub enum PrivateDiagnosticPolicy {
    HashesAndRedaction,
}

/// The terms on which the adapter may receive private content.
#[derive(Clone, Debug, PartialEq, Eq, Structural)]
pub struct PrivateJudgmentScope {
    pub diagnostic_policy: PrivateDiagnosticPolicy,
}

impl PrivateJudgmentScope {
    /// A private scope under the given diagnostic policy.
    pub fn new(diagnostic_policy: PrivateDiagnosticPolicy) -> (scope: Self)
        ensures
            scope.diagnostic_policy == diagnostic_policy,
    {
        Self { diagnostic_policy }
    }

    /// A private scope whose diagnostics carry only hashes and redacted text.
    pub fn hashes_and_redaction() -> (scope: Self)
        ensures
            scope.diagnostic_policy == PrivateDiagnosticPolicy::HashesAndRedaction,
    {
        Self::new(PrivateDiagnosticPolicy::HashesAndRedaction)
    }
}

/// Whether the adapter may receive public content only, or private content on
/// stated terms. Every request names one.
#[derive(Clone, Debug, PartialEq, Eq, Structural)]
pub enum JudgmentScope {
    Public,
    Private(PrivateJudgmentScope),
}

impl JudgmentScope {
    /// The public scope.
    pub fn public() -> (scope: Self)
        ensures
            scope == JudgmentScope::Public,
    {
        Self::Public
    }

    /// The private scope whose diagnostics carry only hashes and redacted text.
    pub fn private_hashes_and_redaction() -> (scope: Self)
        ensures
            scope == JudgmentScope::Private(
                PrivateJudgmentScope { diagnostic_policy: PrivateDiagnosticPolicy::HashesAndRedaction },
            ),
    {
        Self::Private(PrivateJudgmentScope::hashes_and_redaction())
    }
}

} // verus!
