//! The generation backend: a capability taking rendered prompt text and
//! returning response text, with a deterministic reference implementation
//! that classifies the prompt by keyword.

use vstd::prelude::*;
use vstd::string::StringExecFns;

verus! {

/// The single failure kind a generation backend may raise when it cannot
/// produce a response. The reference implementation never raises it.
#[derive(Debug, Clone, PartialEq, Eq, Structural)]
pub struct GenerationError;

/// Holds exactly when `pat` occurs as a contiguous substring of `text`.
pub open spec fn contains_substr(text: Seq<char>, pat: Seq<char>) -> bool {
    exists|i: int|
        0 <= i && i + pat.len() <= text.len() && #[trigger] text.subrange(i, i + pat.len()) == pat
}

/// Relies on str::contains: it returns true exactly when the pattern occurs
/// as a contiguous substring of the text.
#[verifier::external_body]
fn contains_pattern(text: &str, pat: &str) -> (r: bool)
    ensures
        r == contains_substr(text@, pat@),
{
    text.contains(pat)
}

/// The fixed credit-analysis response text.
pub open spec fn credit_response() -> Seq<char> {
    "CREDIT ANALYSIS COMPLETE\n\nApplicant Profile: FICO 720, DTI 28%, Stable Employment\nRisk Assessment: LOW RISK (2.1% default probability)\nRecommendation: APPROVED at Prime + 1.25%\nRequired: Income verification, property appraisal"@
}

/// The fixed fraud-alert response text.
pub open spec fn fraud_response() -> Seq<char> {
    "FRAUD ALERT ISSUED\n\nTransaction Pattern: Multiple ATM withdrawals detected\nRisk Level: HIGH (Score 85/100)\nGeographic Anomaly: 500+ miles from normal location\nAction Required: FREEZE card, contact customer immediately"@
}

/// The fixed generic-completion response text.
pub open spec fn generic_response() -> Seq<char> {
    "Analysis complete. Banking task processed according to regulatory guidelines and best practices."@
}

/// The reference backend's classification policy: the credit-analysis text
/// for prompts containing "credit risk" or "Credit Risk" (the credit rule
/// takes precedence), else the fraud-alert text for prompts containing
/// "fraud" or "Fraud", else the generic-completion text. Both exact-case
/// variants of each keyword are checked; matching is case-sensitive.
pub open spec fn mock_response(prompt: Seq<char>) -> Seq<char> {
    if contains_substr(prompt, "credit risk"@) || contains_substr(prompt, "Credit Risk"@) {
        credit_response()
    } else if contains_substr(prompt, "fraud"@) || contains_substr(prompt, "Fraud"@) {
        fraud_response()
    } else {
        generic_response()
    }
}

/// The deterministic reference backend. It is stateless: every call is
/// independent, and concurrent callers share no mutable state.
pub struct MockLLMClient;

impl MockLLMClient {
    /// Classifies the prompt text and returns the corresponding canned
    /// response. The result is a pure function of the prompt text alone,
    /// and the call never fails.
    pub fn generate(&self, prompt: &str) -> (r: Result<String, GenerationError>)
        ensures
            r matches Ok(resp) && resp@ == mock_response(prompt@),
    {
        if contains_pattern(prompt, "credit risk") || contains_pattern(prompt, "Credit Risk") {
            Ok(
                String::from_str(
                    "CREDIT ANALYSIS COMPLETE\n\nApplicant Profile: FICO 720, DTI 28%, Stable Employment\nRisk Assessment: LOW RISK (2.1% default probability)\nRecommendation: APPROVED at Prime + 1.25%\nRequired: Income verification, property appraisal",
                ),
            )
        } else if contains_pattern(prompt, "fraud") || contains_pattern(prompt, "Fraud") {
            Ok(
                String::from_str(
                    "FRAUD ALERT ISSUED\n\nTransaction Pattern: Multiple ATM withdrawals detected\nRisk Level: HIGH (Score 85/100)\nGeographic Anomaly: 500+ miles from normal location\nAction Required: FREEZE card, contact customer immediately",
                ),
            )
        } else {
            Ok(
                String::from_str(
                    "Analysis complete. Banking task processed according to regulatory guidelines and best practices.",
                ),
            )
        }
    }
}

/// Precedence: any prompt text containing "credit risk" or "Credit Risk"
/// classifies to the credit-analysis response, whatever else it contains —
/// in particular even when "fraud" or "Fraud" also occurs.
pub proof fn lemma_credit_precedence(prompt: Seq<char>)
    requires
        contains_substr(prompt, "credit risk"@) || contains_substr(prompt, "Credit Risk"@),
    ensures
        mock_response(prompt) == credit_response(),
{
}

/// A prompt text containing "fraud" or "Fraud" but neither "credit risk"
/// nor "Credit Risk" classifies to the fraud-alert response.
pub proof fn lemma_fraud_classification(prompt: Seq<char>)
    requires
        !contains_substr(prompt, "credit risk"@),
        !contains_substr(prompt, "Credit Risk"@),
        contains_substr(prompt, "fraud"@) || contains_substr(prompt, "Fraud"@),
    ensures
        mock_response(prompt) == fraud_response(),
{
}

/// A prompt text containing none of the four keywords classifies to the
/// generic-completion response.
pub proof fn lemma_generic_classification(prompt: Seq<char>)
    requires
        !contains_substr(prompt, "credit risk"@),
        !contains_substr(prompt, "Credit Risk"@),
        !contains_substr(prompt, "fraud"@),
        !contains_substr(prompt, "Fraud"@),
    ensures
        mock_response(prompt) == generic_response(),
{
}

/// The three canned responses are non-empty, the credit-analysis text
/// contains "CREDIT", and the fraud-alert text contains "FRAUD ALERT".
pub proof fn lemma_responses_marked()
    ensures
        contains_substr(credit_response(), "CREDIT"@),
        contains_substr(fraud_response(), "FRAUD ALERT"@),
        credit_response().len() > 0,
        fraud_response().len() > 0,
        generic_response().len() > 0,
{
    reveal_strlit(
        "CREDIT ANALYSIS COMPLETE\n\nApplicant Profile: FICO 720, DTI 28%, Stable Employment\nRisk Assessment: LOW RISK (2.1% default probability)\nRecommendation: APPROVED at Prime + 1.25%\nRequired: Income verification, property appraisal",
    );
    reveal_strlit(
        "FRAUD ALERT ISSUED\n\nTransaction Pattern: Multiple ATM withdrawals detected\nRisk Level: HIGH (Score 85/100)\nGeographic Anomaly: 500+ miles from normal location\nAction Required: FREEZE card, contact customer immediately",
    );
    reveal_strlit("Analysis complete. Banking task processed according to regulatory guidelines and best practices.");
    reveal_strlit("CREDIT");
    reveal_strlit("FRAUD ALERT");
    assert(credit_response().subrange(0, 0 + "CREDIT"@.len() as int) =~= "CREDIT"@);
    assert(fraud_response().subrange(0, 0 + "FRAUD ALERT"@.len() as int) =~= "FRAUD ALERT"@);
}

} // verus!
