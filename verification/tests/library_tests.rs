use banking_prompt::BankingTemplate;
use banking_prompt::MockLLMClient;
use banking_prompt::PromptBuilder;
use banking_prompt::PromptSection;

#[test]
fn test_prompt_builder() {
    let prompt = PromptBuilder::new()
        .goal("Test goal")
        .role("Test role")
        .step("Test step")
        .build();

    let text = prompt.render();
    assert!(text.contains("Goal: Test goal"));
    assert!(text.contains("Role: Test role"));
    assert!(text.contains("Step: Test step"));
}

#[test]
fn test_mock_llm_client() {
    let client = MockLLMClient;
    let response = client.generate("credit risk assessment").unwrap();
    assert!(response.contains("CREDIT") || response.contains("credit"));
    assert!(!response.is_empty());
}

#[test]
fn test_credit_risk_template() {
    let template = BankingTemplate::CreditRisk {
        loan_type: "personal loan".to_string(),
        focus: "default probability".to_string(),
    };

    let prompt = template.to_builder().build();
    let text = prompt.render();

    assert!(text.contains("personal loan"));
    assert!(text.contains("Credit Risk Analyst"));
    assert!(text.contains("default probability"));
}

#[test]
fn test_fraud_detection_template() {
    let template = BankingTemplate::FraudDetection {
        channel: "online banking".to_string(),
        scope: "real-time".to_string(),
    };

    let prompt = template.to_builder().build();
    let text = prompt.render();

    assert!(text.contains("online banking"));
    assert!(text.contains("Fraud Detection"));
    assert!(text.contains("real-time"));
}

#[test]
fn test_template_descriptions() {
    let credit_template = BankingTemplate::CreditRisk {
        loan_type: "mortgage".to_string(),
        focus: "risk assessment".to_string(),
    };

    let fraud_template = BankingTemplate::FraudDetection {
        channel: "credit cards".to_string(),
        scope: "pattern analysis".to_string(),
    };

    assert!(credit_template.description().contains("mortgage"));
    assert!(fraud_template.description().contains("credit cards"));
}

#[test]
fn test_order_preservation() {
    let prompt = PromptBuilder::new().step("A").goal("B").step("C").build();
    assert_eq!(prompt.render(), "Step: A\nGoal: B\nStep: C");
}

#[test]
fn test_empty_prompt() {
    assert_eq!(PromptBuilder::new().build().render(), "");
}

#[test]
fn test_render_idempotent() {
    let prompt = PromptBuilder::new()
        .goal("Evaluate loan application")
        .output("Approval recommendation with terms")
        .build();
    let first = prompt.render();
    let second = prompt.render();
    assert_eq!(first, second);
}

#[test]
fn test_repeated_steps_all_retained() {
    let prompt = PromptBuilder::new().step("one").step("two").step("three").build();
    assert_eq!(prompt.section_count(), 3);
    assert_eq!(prompt.render(), "Step: one\nStep: two\nStep: three");
}

#[test]
fn test_builder_adds_one_section_per_call() {
    assert_eq!(PromptBuilder::new().build().section_count(), 0);
    assert_eq!(PromptBuilder::new().goal("a").build().section_count(), 1);
    assert_eq!(
        PromptBuilder::new().goal("a").role("b").build().section_count(),
        2
    );
    assert_eq!(
        PromptBuilder::new()
            .goal("a")
            .role("b")
            .output("c")
            .build()
            .section_count(),
        3
    );
}

#[test]
fn test_section_at_keeps_tags_and_payloads() {
    let prompt = PromptBuilder::new().goal("g").output("").build();
    assert!(matches!(prompt.section_at(0), PromptSection::Goal(t) if t == "g"));
    assert!(matches!(prompt.section_at(1), PromptSection::Output(t) if t.is_empty()));
}

#[test]
fn test_credit_template_exact_expansion() {
    let template = BankingTemplate::CreditRisk {
        loan_type: "mortgage".to_string(),
        focus: "default risk".to_string(),
    };
    let expected = "Goal: Assess credit risk for mortgage focusing on default risk\n\
                    Role: Senior Credit Risk Analyst\n\
                    Step: Analyze credit history and payment patterns\n\
                    Step: Evaluate income stability and debt ratios\n\
                    Step: Calculate default probability and risk rating\n\
                    Step: Determine loan terms and interest rates\n\
                    Output: Risk assessment with approval recommendation";
    assert_eq!(template.to_builder().build().render(), expected);
}

#[test]
fn test_fraud_template_exact_expansion() {
    let template = BankingTemplate::FraudDetection {
        channel: "wire transfers".to_string(),
        scope: "daily batches".to_string(),
    };
    let expected = "Goal: Detect fraud in wire transfers using daily batches\n\
                    Role: Fraud Detection Specialist\n\
                    Step: Analyze transaction patterns and anomalies\n\
                    Step: Apply fraud scoring models\n\
                    Step: Check against known risk indicators\n\
                    Step: Generate alerts and recommended actions\n\
                    Output: Fraud risk assessment with action plan";
    assert_eq!(template.to_builder().build().render(), expected);
}

#[test]
fn test_description_exact_text() {
    let credit = BankingTemplate::CreditRisk {
        loan_type: "auto loan".to_string(),
        focus: "late payments".to_string(),
    };
    let fraud = BankingTemplate::FraudDetection {
        channel: "mobile app".to_string(),
        scope: "device fingerprints".to_string(),
    };
    assert_eq!(
        credit.description(),
        "Assesses credit risk for auto loan focusing on late payments"
    );
    assert_eq!(
        fraud.description(),
        "Detects fraud in mobile app using device fingerprints"
    );
}

#[test]
fn test_classification_branches() {
    let client = MockLLMClient;

    let credit = client.generate("please run a credit risk review").unwrap();
    assert!(credit.contains("CREDIT"));
    assert!(!credit.is_empty());

    let fraud = client.generate("look for fraud in these transactions").unwrap();
    assert!(fraud.contains("FRAUD ALERT"));
    assert!(!fraud.is_empty());

    let generic = client.generate("summarize this account statement").unwrap();
    assert_eq!(
        generic,
        "Analysis complete. Banking task processed according to regulatory guidelines and best practices."
    );
    assert!(!generic.is_empty());
}

#[test]
fn test_capitalized_keywords_match() {
    let client = MockLLMClient;
    let credit = client.generate("Senior Credit Risk Analyst needed").unwrap();
    assert!(credit.contains("CREDIT"));
    let fraud = client.generate("Fraud Detection Specialist needed").unwrap();
    assert!(fraud.contains("FRAUD ALERT"));
}

#[test]
fn test_credit_precedence_over_fraud() {
    let client = MockLLMClient;
    let response = client
        .generate("assess credit risk and watch for fraud")
        .unwrap();
    assert!(response.contains("CREDIT"));
    assert!(!response.contains("FRAUD ALERT"));
}

#[test]
fn test_template_render_routes_to_matching_branch() {
    let client = MockLLMClient;
    let template = BankingTemplate::FraudDetection {
        channel: "card payments".to_string(),
        scope: "scoring models".to_string(),
    };
    let text = template.to_builder().build().render();
    let response = client.generate(&text).unwrap();
    assert!(response.contains("FRAUD ALERT"));
}
