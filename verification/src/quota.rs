//! The quota-fetch decision logic.
//!
//! A caller resolves the helper script's location and runs it with a fixed
//! `--quota` argument, then hands the outcome here as plain values. This
//! module turns that outcome into the parsed quota document or into one of
//! four errors, exactly as the failure taxonomy prescribes. Parsing the
//! helper's standard output as a structured document is done by serde_json
//! behind a trusted wrapper; everything around the call is verified.

use vstd::prelude::*;

verus! {

/// Why a quota fetch failed.
#[derive(Debug)]
pub enum QuotaError {
    /// The helper executable could not be started; carries the launcher's message.
    SpawnFailure(String),
    /// The helper ran but exited with a non-zero status; carries its captured
    /// standard error for diagnostics.
    HelperExecutionFailure(String),
    /// The helper exited zero but its standard output was not a well-formed
    /// document; carries the parser's message and the raw output.
    ResponseParseFailure(String, String),
    /// The helper script's location could not be determined; carries the
    /// resolver's message. Surfaced before any process is spawned.
    ResourceResolutionFailure(String),
}

/// What running the helper produced: whether it exited with status zero, and
/// its captured standard output and standard error, decoded to text.
pub struct HelperOutcome {
    pub exit_ok: bool,
    pub stdout: String,
    pub stderr: String,
}

/// How far the caller got before handing over: resolving the helper's
/// location failed, launching the process failed, or the process ran to
/// completion with the given outcome.
pub enum InvocationOutcome {
    ResolutionFailed(String),
    SpawnFailed(String),
    Ran(HelperOutcome),
}

/// The document that a string of characters denotes, if it is well-formed;
/// `None` if it is not. This is what serde_json's parser returns, which
/// depends on the characters alone.
pub uninterp spec fn json_doc_of(s: Seq<char>) -> Option<serde_json::Value>;

/// The parser's diagnostic message for a string that is not a well-formed
/// document, which likewise depends on the characters alone.
pub uninterp spec fn json_error_text_of(s: Seq<char>) -> Seq<char>;

/// Declares serde_json::Value, the parsed document type. The library carries
/// such a value through verbatim and never looks inside it; schema trust is
/// the caller's.
#[verifier::external_type_specification]
#[verifier::external_body]
pub struct ExValue(serde_json::Value);

/// Relies on serde_json::from_str::<serde_json::Value>: whether a string is
/// a well-formed document and which value it denotes depend on the
/// characters alone. On failure, relies on serde_json::Error's display for
/// the diagnostic message, which is likewise a function of the characters.
#[verifier::external_body]
fn parse_json_document(s: &str) -> (r: Result<serde_json::Value, String>)
    ensures
        r is Ok <==> json_doc_of(s@) is Some,
        r matches Ok(v) ==> json_doc_of(s@) == Some(v),
        r matches Err(m) ==> m@ == json_error_text_of(s@),
{
    match serde_json::from_str::<serde_json::Value>(s) {
        Ok(v) => Ok(v),
        Err(e) => Err(e.to_string()),
    }
}

/// Turn what the helper process produced into the quota result: a non-zero
/// exit is an execution failure carrying the helper's standard error; an
/// exit of zero yields the parsed document verbatim, or a parse failure
/// carrying the parser's message and the raw output.
pub fn interpret_helper_output(outcome: HelperOutcome) -> (r: Result<serde_json::Value, QuotaError>)
    ensures
        r is Ok <==> outcome.exit_ok && json_doc_of(outcome.stdout@) is Some,
        !outcome.exit_ok ==> (r matches Err(QuotaError::HelperExecutionFailure(d))
            && d@ == outcome.stderr@),
        outcome.exit_ok && json_doc_of(outcome.stdout@) is Some ==> (r matches Ok(v)
            && Some(v) == json_doc_of(outcome.stdout@)),
        outcome.exit_ok && json_doc_of(outcome.stdout@) is None ==> (r matches
            Err(QuotaError::ResponseParseFailure(m, raw))
            && m@ == json_error_text_of(outcome.stdout@)
            && raw@ == outcome.stdout@),
{
    if !outcome.exit_ok {
        return Err(QuotaError::HelperExecutionFailure(outcome.stderr));
    }
    match parse_json_document(outcome.stdout.as_str()) {
        Ok(v) => Ok(v),
        Err(m) => Err(QuotaError::ResponseParseFailure(m, outcome.stdout)),
    }
}

/// The whole quota-fetch decision, one invocation per call and no retries:
/// a resolution failure surfaces before any process is spawned, a launch
/// failure surfaces as a spawn failure, and a completed run is interpreted
/// by `interpret_helper_output`.
pub fn fetch_quota(invocation: InvocationOutcome) -> (r: Result<serde_json::Value, QuotaError>)
    ensures
        invocation matches InvocationOutcome::ResolutionFailed(m) ==> (r matches
            Err(QuotaError::ResourceResolutionFailure(d)) && d@ == m@),
        invocation matches InvocationOutcome::SpawnFailed(m) ==> (r matches
            Err(QuotaError::SpawnFailure(d)) && d@ == m@),
        invocation matches InvocationOutcome::Ran(out) ==> {
            &&& (r is Ok <==> out.exit_ok && json_doc_of(out.stdout@) is Some)
            &&& !out.exit_ok ==> (r matches Err(QuotaError::HelperExecutionFailure(d))
                && d@ == out.stderr@)
            &&& out.exit_ok && json_doc_of(out.stdout@) is Some ==> (r matches Ok(v)
                && Some(v) == json_doc_of(out.stdout@))
            &&& out.exit_ok && json_doc_of(out.stdout@) is None ==> (r matches
                Err(QuotaError::ResponseParseFailure(m2, raw))
                && m2@ == json_error_text_of(out.stdout@)
                && raw@ == out.stdout@)
        },
{
    match invocation {
        InvocationOutcome::ResolutionFailed(m) => Err(QuotaError::ResourceResolutionFailure(m)),
        InvocationOutcome::SpawnFailed(m) => Err(QuotaError::SpawnFailure(m)),
        InvocationOutcome::Ran(out) => interpret_helper_output(out),
    }
}

} // verus!
