use vstd::prelude::*;

use crate::text::{ContentHash, RedactedText};

verus! {

/// A privacy-safe diagnostic: redacted text and content hashes, never raw
/// private content.
#[derive(Clone, Debug, PartialEq, Eq)]
pub struct JudgeDiagnostic {
    pub redacted_text: RedactedText,
    pub content_hashes: Vec<ContentHash>,
}

impl JudgeDiagnostic {
    /// A diagnostic with the given redacted text and content hashes.
    pub fn new(redacted_text: RedactedText, content_hashes: Vec<ContentHash>) -> (diagnostic: Self)
        ensures
            diagnostic.redacted_text == redacted_text,
            diagnostic.content_hashes == content_hashes,
    {
        Self { redacted_text, content_hashes }
    }

    /// A diagnostic that carries redacted text and no content hash.
    pub fn redacted(redacted_text: RedactedText) -> (diagnostic: Self)
        ensures
            diagnostic.redacted_text == redacted_text,
            diagnostic.content_hashes@ == Seq::<ContentHash>::empty(),
    {
        Self::new(redacted_text, Vec::new())
    }
}

/// Provider or configuration failures that the adapter itself detects.
#[derive(Clone, Copy, Debug, PartialEq, Eq, Structural)]
pub enum OrchestratorJudgeRequestRejectionReason {
    InvalidRequest,
    ConfigurationUnavailable,
    ProviderUnavailable,
    ProviderRejected,
    ResponseFormatFailure,
}

/// A request the adapter refused, with why and a privacy-safe diagnostic.
#[derive(Clone, Debug, PartialEq, Eq)]
pub struct OrchestratorJudgeRequestRejection {
    pub reason: OrchestratorJudgeRequestRejectionReason,
    pub diagnostic: JudgeDiagnostic,
}

impl OrchestratorJudgeRequestRejection {
    /// A rejection for `reason` with the given diagnostic.
    pub fn new(reason: OrchestratorJudgeRequestRejectionReason, diagnostic: JudgeDiagnostic) -> (rejection: Self)
        ensures
            rejection.reason == reason,
            rejection.diagnostic == diagnostic,
    {
        Self { reason, diagnostic }
    }
}

} // verus!
