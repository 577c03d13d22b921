//! Pre-built templates for common banking use cases.

use crate::builder::PromptBuilder;
use crate::prompt::SectionModel;
use vstd::prelude::*;
use vstd::string::StringExecFns;

verus! {

/// A named, parameterized recipe that expands to a pre-filled builder for a
/// specific domain scenario. A template is immutable input data; expansion
/// retains no reference to it.
#[derive(Debug, Clone)]
pub enum BankingTemplate {
    /// Credit risk assessment and loan evaluation.
    CreditRisk { loan_type: String, focus: String },
    /// Fraud detection and prevention.
    FraudDetection { channel: String, scope: String },
}

/// The fixed section sequence a credit-risk template expands to, with the
/// template's fields substituted into the goal line.
pub open spec fn credit_risk_sections(loan_type: Seq<char>, focus: Seq<char>) -> Seq<SectionModel> {
    seq![
        SectionModel::Goal("Assess credit risk for "@ + loan_type + " focusing on "@ + focus),
        SectionModel::Role("Senior Credit Risk Analyst"@),
        SectionModel::Step("Analyze credit history and payment patterns"@),
        SectionModel::Step("Evaluate income stability and debt ratios"@),
        SectionModel::Step("Calculate default probability and risk rating"@),
        SectionModel::Step("Determine loan terms and interest rates"@),
        SectionModel::Output("Risk assessment with approval recommendation"@),
    ]
}

/// The fixed section sequence a fraud-detection template expands to, with the
/// template's fields substituted into the goal line.
pub open spec fn fraud_detection_sections(channel: Seq<char>, scope: Seq<char>) -> Seq<SectionModel> {
    seq![
        SectionModel::Goal("Detect fraud in "@ + channel + " using "@ + scope),
        SectionModel::Role("Fraud Detection Specialist"@),
        SectionModel::Step("Analyze transaction patterns and anomalies"@),
        SectionModel::Step("Apply fraud scoring models"@),
        SectionModel::Step("Check against known risk indicators"@),
        SectionModel::Step("Generate alerts and recommended actions"@),
        SectionModel::Output("Fraud risk assessment with action plan"@),
    ]
}

/// What a template expands to: a total, deterministic function of the
/// template value, with no conditional logic beyond the variant dispatch.
pub open spec fn template_sections(t: BankingTemplate) -> Seq<SectionModel> {
    match t {
        BankingTemplate::CreditRisk { loan_type, focus } => credit_risk_sections(
            loan_type@,
            focus@,
        ),
        BankingTemplate::FraudDetection { channel, scope } => fraud_detection_sections(
            channel@,
            scope@,
        ),
    }
}

/// The one-line human-readable summary of a template, for diagnostics only;
/// it is never part of the rendered prompt text.
pub open spec fn template_description(t: BankingTemplate) -> Seq<char> {
    match t {
        BankingTemplate::CreditRisk { loan_type, focus } => "Assesses credit risk for "@
            + loan_type@ + " focusing on "@ + focus@,
        BankingTemplate::FraudDetection { channel, scope } => "Detects fraud in "@ + channel@
            + " using "@ + scope@,
    }
}

impl BankingTemplate {
    /// Creates a pre-configured prompt builder holding exactly the variant's
    /// fixed section sequence, the template's fields substituted literally.
    pub fn to_builder(&self) -> (b: PromptBuilder)
        ensures
            b@ == template_sections(*self),
    {
        match self {
            BankingTemplate::CreditRisk { loan_type, focus } => {
                let mut goal = String::from_str("Assess credit risk for ");
                goal.append(loan_type.as_str());
                goal.append(" focusing on ");
                goal.append(focus.as_str());
                let b = PromptBuilder::new()
                    .goal(goal.as_str())
                    .role("Senior Credit Risk Analyst")
                    .step("Analyze credit history and payment patterns")
                    .step("Evaluate income stability and debt ratios")
                    .step("Calculate default probability and risk rating")
                    .step("Determine loan terms and interest rates")
                    .output("Risk assessment with approval recommendation");
                proof {
                    assert(b@ =~= template_sections(*self));
                }
                b
            },
            BankingTemplate::FraudDetection { channel, scope } => {
                let mut goal = String::from_str("Detect fraud in ");
                goal.append(channel.as_str());
                goal.append(" using ");
                goal.append(scope.as_str());
                let b = PromptBuilder::new()
                    .goal(goal.as_str())
                    .role("Fraud Detection Specialist")
                    .step("Analyze transaction patterns and anomalies")
                    .step("Apply fraud scoring models")
                    .step("Check against known risk indicators")
                    .step("Generate alerts and recommended actions")
                    .output("Fraud risk assessment with action plan");
                proof {
                    assert(b@ =~= template_sections(*self));
                }
                b
            },
        }
    }

    /// Returns the variant's one-line summary, the same fields substituted.
    pub fn description(&self) -> (r: String)
        ensures
            r@ == template_description(*self),
    {
        match self {
            BankingTemplate::CreditRisk { loan_type, focus } => {
                let mut text = String::from_str("Assesses credit risk for ");
                text.append(loan_type.as_str());
                text.append(" focusing on ");
                text.append(focus.as_str());
                text
            },
            BankingTemplate::FraudDetection { channel, scope } => {
                let mut text = String::from_str("Detects fraud in ");
                text.append(channel.as_str());
                text.append(" using ");
                text.append(scope.as_str());
                text
            },
        }
    }
}

} // verus!
