use myguard_backend::corpus::LabeledCorpus;
use myguard_backend::external::{clean_llm_response, interpret_reply, llm_analyze, LlmAnalysis, LlmStep};
use myguard_backend::orchestrator::{analyze_contract, analyze_locally, conclude, continue_contract, Progress};
use myguard_backend::report::AnalysisReport;
use myguard_backend::verdict::{AnalysisError, Ratio, Verdict};

fn value(r: Ratio) -> f64 {
    r.num as f64 / r.den as f64
}

fn run(text: &str, corpus: &LabeledCorpus, replies: &[Option<&str>]) -> (AnalysisReport, Vec<String>) {
    let mut asked = Vec::new();
    let mut next = 0;
    let mut progress = analyze_contract(text, corpus);
    loop {
        match progress {
            Progress::Report(report) => return (report, asked),
            Progress::Ask { state, prompt } => {
                asked.push(prompt);
                let reply = replies[next].map(|r| r.to_string());
                next += 1;
                progress = continue_contract(state, reply, corpus);
            }
        }
    }
}

fn summary_of(report: &AnalysisReport) -> Vec<(String, Verdict, u64, u64)> {
    report
        .breakdown
        .iter()
        .map(|v| (v.clause.clone(), v.label, v.confidence.num, v.confidence.den))
        .collect()
}

#[test]
fn cleaning_drops_leading_preamble_lines() {
    assert_eq!(clean_llm_response("Here's the analysis:\n\n**Result**\nAllowed\n".to_string()), "Allowed");
    assert_eq!(clean_llm_response("# Heading\n```\nBelow is it\n  Not Allowed\r\nmore **bold**\n\n".to_string()), "Not Allowed\nmore **bold**");
    assert_eq!(clean_llm_response("  Allowed  ".to_string()), "Allowed");
    assert_eq!(clean_llm_response("here's lower case\n# kept".to_string()), "here's lower case\n# kept");
    assert_eq!(clean_llm_response("".to_string()), "");
    assert_eq!(clean_llm_response("\n\n# only\n**preamble**".to_string()), "");
    assert_eq!(clean_llm_response(" #not at the start".to_string()), "#not at the start");
}

#[test]
fn reply_is_read_for_its_label() {
    let clause: Vec<char> = "some clause here".chars().collect();
    let v = interpret_reply(&clause, Some("This is NOT ALLOWED.".to_string())).unwrap();
    assert_eq!(v.label, Verdict::NotAllowed);
    assert_eq!(v.clause, "some clause here");
    assert_eq!(value(v.confidence), 0.9);
    let v = interpret_reply(&clause, Some("Here's my view\nAllowed".to_string())).unwrap();
    assert_eq!(v.label, Verdict::Allowed);
    assert_eq!(value(v.confidence), 0.9);
    let v = interpret_reply(&clause, Some("I cannot tell".to_string())).unwrap();
    assert_eq!(v.label, Verdict::Unclassified);
    assert_eq!(value(v.confidence), 0.9);
}

#[test]
fn failed_call_or_empty_reply_is_a_collaborator_failure() {
    let clause: Vec<char> = "some clause here".chars().collect();
    assert_eq!(interpret_reply(&clause, None).unwrap_err(), AnalysisError::CollaboratorFailure);
    assert_eq!(interpret_reply(&clause, Some("".to_string())).unwrap_err(), AnalysisError::CollaboratorFailure);
}

#[test]
fn short_clause_is_neutral_without_a_question() {
    let corpus = LabeledCorpus::load_fallback_data();
    let (report, asked) = run("No refund.", &corpus, &[]);
    assert!(asked.is_empty());
    assert_eq!(report.total_clauses, 1);
    assert_eq!(report.allowed_count, 0);
    assert_eq!(report.not_allowed_count, 0);
    assert_eq!(summary_of(&report), vec![("No refund".to_string(), Verdict::Neutral, 50, 100)]);
    assert_eq!(value(report.breakdown[0].confidence), 0.5);
}

#[test]
fn external_tier_asks_once_for_each_long_clause() {
    let corpus = LabeledCorpus::load_fallback_data();
    let text = "The tenant shall pay rent monthly. No refund. Either party may terminate.\nOk";
    let (report, asked) = run(text, &corpus, &[Some("Allowed"), Some("**x**\nnot allowed")]);
    assert_eq!(
        asked,
        vec![
            "Analyze this contract clause and respond ONLY with either 'Allowed' or 'Not Allowed': 'The tenant shall pay rent monthly'",
            "Analyze this contract clause and respond ONLY with either 'Allowed' or 'Not Allowed': 'Either party may terminate'",
        ]
    );
    assert_eq!(report.total_clauses, 4);
    assert_eq!(report.allowed_count, 1);
    assert_eq!(report.not_allowed_count, 1);
    assert_eq!((report.allowed_pct.num, report.allowed_pct.den), (100, 4));
    assert_eq!(
        summary_of(&report),
        vec![
            ("The tenant shall pay rent monthly".to_string(), Verdict::Allowed, 90, 100),
            ("No refund".to_string(), Verdict::Neutral, 50, 100),
            ("Either party may terminate".to_string(), Verdict::NotAllowed, 90, 100),
            ("Ok".to_string(), Verdict::Neutral, 50, 100),
        ]
    );
}

#[test]
fn failed_reply_hands_the_whole_document_to_the_rule_tier() {
    let corpus = LabeledCorpus::load_fallback_data();
    let text = "The landlord may enter the premises at any time without notice. Rent shall be paid on the first day of each month.";
    let (report, asked) = run(text, &corpus, &[Some("Allowed"), None]);
    assert_eq!(asked.len(), 2);
    assert_eq!(report.total_clauses, 2);
    assert_eq!(report.allowed_count, 1);
    assert_eq!(report.not_allowed_count, 1);
    assert_eq!(report.breakdown[0].label, Verdict::NotAllowed);
    assert_eq!(report.breakdown[1].label, Verdict::Allowed);
    assert_eq!(value(report.breakdown[0].confidence), 1.0);
    let (report, _) = run(text, &corpus, &[Some("")]);
    assert_eq!(report.breakdown[0].label, Verdict::NotAllowed);
    assert_eq!(value(report.breakdown[1].confidence), 1.0);
}

#[test]
fn empty_document_gets_the_report_on_no_clauses() {
    let corpus = LabeledCorpus::load_fallback_data();
    let (report, asked) = run(" .\n. ", &corpus, &[]);
    assert!(asked.is_empty());
    assert_eq!(report.total_clauses, 0);
    assert_eq!(report.allowed_pct.num, 0);
    assert_eq!(report.not_allowed_pct.num, 0);
    assert!(report.breakdown.is_empty());
}

#[test]
fn external_pass_fails_on_an_empty_document() {
    match llm_analyze("...") {
        LlmStep::Done(Err(e)) => assert_eq!(e, AnalysisError::EmptyInput),
        _ => panic!("an empty document cannot start a pass"),
    }
}

#[test]
fn external_pass_reports_a_tier_failure() {
    match llm_analyze("one two three four") {
        LlmStep::Ask { state, prompt } => {
            assert!(prompt.ends_with("'one two three four'"));
            match state.resume(None) {
                LlmStep::Done(Err(e)) => assert_eq!(e, AnalysisError::TierFailure),
                _ => panic!("a failed call ends the pass"),
            }
        }
        _ => panic!("a long clause is asked about"),
    }
}

#[test]
fn conclusion_prefers_the_external_verdicts() {
    let corpus = LabeledCorpus::load_fallback_data();
    let text = "Rent shall be paid on the first day of each month";
    let external = match llm_analyze(text) {
        LlmStep::Ask { state, .. } => match state.resume(Some("Not Allowed".to_string())) {
            LlmStep::Done(outcome) => outcome,
            _ => panic!("one clause needs one reply"),
        },
        _ => panic!("a long clause is asked about"),
    };
    let report = conclude(text, external, &corpus);
    assert_eq!(report.not_allowed_count, 1);
    assert_eq!(report.allowed_count, 0);
    let report = conclude(text, Err(AnalysisError::TierFailure), &corpus);
    assert_eq!(report.allowed_count, 1);
    assert_eq!(report.not_allowed_count, 0);
}

#[test]
fn analysis_is_repeatable() {
    let corpus = LabeledCorpus::load_fallback_data();
    let text = "The tenant shall pay a late fee of 20% for each day of delay. Both sides agreed\nNo refund";
    let a = analyze_locally(text, &corpus);
    let b = analyze_locally(text, &corpus);
    assert_eq!(a.total_clauses, b.total_clauses);
    assert_eq!(a.allowed_count, b.allowed_count);
    assert_eq!(a.not_allowed_count, b.not_allowed_count);
    assert_eq!(a.allowed_pct, b.allowed_pct);
    assert_eq!(a.not_allowed_pct, b.not_allowed_pct);
    assert_eq!(summary_of(&a), summary_of(&b));
    assert_eq!(a.total_clauses, 3);
    let (c, _) = run(text, &corpus, &[Some("Allowed"), Some("Allowed")]);
    let (d, _) = run(text, &corpus, &[Some("Allowed"), Some("Allowed")]);
    assert_eq!(summary_of(&c), summary_of(&d));
}

#[test]
fn reply_that_cleaning_empties_is_unclassified() {
    let clause: Vec<char> = "some clause here".chars().collect();
    for reply in ["**Allowed**", "\n# x\n  ", " ", "# Not Allowed", "Here's it: allowed"] {
        let v = interpret_reply(&clause, Some(reply.to_string())).unwrap();
        assert_eq!(v.label, Verdict::Unclassified, "{:?}", reply);
        assert_eq!((v.confidence.num, v.confidence.den), (90, 100));
        assert_eq!(v.clause, "some clause here");
    }
}

#[test]
fn answered_document_stays_in_the_external_tier() {
    let corpus = LabeledCorpus::load_fallback_data();
    let text = "The landlord may enter the premises at any time without notice. No refund. Rent shall be paid on the first day of each month.";
    let (report, asked) = run(text, &corpus, &[Some("**Allowed**"), Some("Allowed")]);
    assert_eq!(asked.len(), 2);
    assert_eq!(report.total_clauses, 3);
    assert_eq!(report.allowed_count, 1);
    assert_eq!(report.not_allowed_count, 0);
    assert_eq!(
        summary_of(&report),
        vec![
            ("The landlord may enter the premises at any time without notice".to_string(), Verdict::Unclassified, 90, 100),
            ("No refund".to_string(), Verdict::Neutral, 50, 100),
            ("Rent shall be paid on the first day of each month".to_string(), Verdict::Allowed, 90, 100),
        ]
    );
}

#[test]
fn waiting_state_has_a_long_clause_pending() {
    match llm_analyze("No refund. one two three. Ok") {
        LlmStep::Ask { state, .. } => {
            assert!(state.is_waiting());
            assert_eq!(state.verdicts.len(), 1);
            let made_up = LlmAnalysis { clauses: vec!["No refund".chars().collect()], verdicts: Vec::new() };
            assert!(!made_up.is_waiting());
            let spent = LlmAnalysis { clauses: Vec::new(), verdicts: Vec::new() };
            assert!(!spent.is_waiting());
        }
        _ => panic!("a long clause is asked about"),
    }
}
