use myguard_backend::corpus::{LabeledCorpus, RawRow};
use myguard_backend::report::aggregate;
use myguard_backend::rules::{decide_label, score_of};
use myguard_backend::segment::{split_clauses, split_lines, split_words};
use myguard_backend::similarity::{classify_clause, text_similarity};
use myguard_backend::text::{find, is_white_space, trimmed};
use myguard_backend::tiers::{enhanced_analyze, fallback_analyze_contract};
use myguard_backend::verdict::{AnalysisError, ClauseVerdict, Label, Ratio, Verdict};

fn chars(s: &str) -> Vec<char> {
    s.chars().collect()
}

fn strings(v: &Vec<Vec<char>>) -> Vec<String> {
    v.iter().map(|w| w.iter().collect::<String>()).collect()
}

fn value(r: Ratio) -> f64 {
    r.num as f64 / r.den as f64
}

fn verdict(clause: &str, label: Verdict, hundredths: u64) -> ClauseVerdict {
    ClauseVerdict { clause: clause.to_string(), label, confidence: Ratio { num: hundredths, den: 100 } }
}

#[test]
fn clauses_are_cut_at_full_stops_and_line_feeds() {
    let got = strings(&split_clauses(&chars("  First clause.  Second one\nthird. \n .. ")));
    assert_eq!(got, vec!["First clause", "Second one", "third"]);
}

#[test]
fn empty_document_has_no_clauses() {
    assert!(split_clauses(&chars("")).is_empty());
    assert!(split_clauses(&chars(" . \n .\t.\n")).is_empty());
}

#[test]
fn words_are_cut_at_any_white_space() {
    let got = strings(&split_words(&chars("  the\tquick\u{a0}brown \n fox\u{3000}jumps ")));
    assert_eq!(got, vec!["the", "quick", "brown", "fox", "jumps"]);
    assert!(split_words(&chars(" \t\n")).is_empty());
}

#[test]
fn words_match_the_standard_split() {
    let text = "a  b\u{2003}c\r\nd\u{85}e \u{200b}f";
    let expected: Vec<String> = text.split_whitespace().map(|w| w.to_string()).collect();
    assert_eq!(strings(&split_words(&chars(text))), expected);
}

#[test]
fn lines_match_the_standard_lines() {
    for text in ["", "a", "a\n", "a\nb", "a\r\nb\r\n", "a\r", "\n\n", "x\n\r\ny\r", "\r\n"] {
        let expected: Vec<String> = text.lines().map(|l| l.to_string()).collect();
        assert_eq!(strings(&split_lines(&chars(text))), expected, "{:?}", text);
    }
}

#[test]
fn trimming_matches_the_standard_trim() {
    for text in ["", "  ", " a ", "\t\na b\u{a0}", "a", "\u{3000}x y\r\n"] {
        let got: String = trimmed(&chars(text)).iter().collect();
        assert_eq!(got, text.trim(), "{:?}", text);
    }
}

#[test]
fn substring_search() {
    assert!(find(&chars("without notice"), &chars("notice")));
    assert!(find(&chars("abc"), &chars("")));
    assert!(find(&chars("abc"), &chars("abc")));
    assert!(!find(&chars("abc"), &chars("abcd")));
    assert!(!find(&chars("notic e"), &chars("notice")));
    assert!(find(&chars("aab"), &chars("ab")));
}

#[test]
fn similarity_counts_words_of_the_first_text() {
    let r = text_similarity("the cat sat", "the dog sat on mat");
    assert_eq!((r.num, r.den), (2, 5));
    let r = text_similarity("a a b", "a");
    assert_eq!((r.num, r.den), (2, 3));
    let r = text_similarity("a", "a a b");
    assert_eq!((r.num, r.den), (1, 3));
}

#[test]
fn similarity_ignores_case() {
    let r = text_similarity("RENT Shall be PAID", "rent shall BE paid");
    assert_eq!((r.num, r.den), (4, 4));
    assert_eq!(value(r), 1.0);
}

#[test]
fn similarity_of_empty_texts_is_zero() {
    let r = text_similarity("", "  ");
    assert_eq!(value(r), 0.0);
    let r = text_similarity("", "a b");
    assert_eq!(value(r), 0.0);
}

#[test]
fn similarity_of_a_clause_to_itself_is_one() {
    let clause = "Either party may terminate this agreement with 30 days notice";
    assert_eq!(value(text_similarity(clause, clause)), 1.0);
}

#[test]
fn seed_corpus_has_five_records() {
    let corpus = LabeledCorpus::load_fallback_data();
    assert_eq!(corpus.get_dataset_size(), 5);
    assert_eq!(corpus.records[0].text, "The tenant shall maintain the property in good condition");
    assert_eq!(corpus.records[0].label, Label::Allowed);
    assert_eq!(corpus.records[1].label, Label::NotAllowed);
    assert_eq!(corpus.records[3].text, "The landlord may enter the premises at any time without notice");
    assert_eq!(corpus.records[3].label, Label::NotAllowed);
    assert_eq!(corpus.records[4].text, "Rent shall be paid on the first day of each month");
}

#[test]
fn invalid_rows_are_dropped() {
    let rows = vec![
        RawRow { text: "x y z".to_string(), label: "Allowed".to_string() },
        RawRow { text: "".to_string(), label: "Allowed".to_string() },
        RawRow { text: "y".to_string(), label: "Bogus".to_string() },
        RawRow { text: "y".to_string(), label: "".to_string() },
        RawRow { text: "z".to_string(), label: "Not Allowed".to_string() },
    ];
    let corpus = LabeledCorpus::load_contract_dataset(rows);
    assert_eq!(corpus.get_dataset_size(), 2);
    assert_eq!(corpus.records[0].text, "x y z");
    assert_eq!(corpus.records[0].label, Label::Allowed);
    assert_eq!(corpus.records[1].text, "z");
    assert_eq!(corpus.records[1].label, Label::NotAllowed);
}

#[test]
fn seed_records_stand_in_for_an_empty_load() {
    assert_eq!(LabeledCorpus::load_contract_dataset(Vec::new()).get_dataset_size(), 5);
    let rows = vec![RawRow { text: "a".to_string(), label: "allowed".to_string() }];
    assert_eq!(LabeledCorpus::load_contract_dataset(rows).get_dataset_size(), 5);
}

#[test]
fn classify_clause_refuses_empty_text() {
    let corpus = LabeledCorpus::load_fallback_data();
    assert_eq!(classify_clause("", &corpus), Err(AnalysisError::EmptyInput));
    assert_eq!(classify_clause(" \n\t", &corpus), Err(AnalysisError::EmptyInput));
}

#[test]
fn classify_clause_takes_the_nearest_record() {
    let corpus = LabeledCorpus::load_fallback_data();
    let (label, sim) = classify_clause("rent shall be paid on the first day", &corpus).unwrap();
    assert_eq!(label, Verdict::Allowed);
    assert_eq!((sim.num, sim.den), (8, 11));
    let (label, sim) = classify_clause("the tenant shall dance", &corpus).unwrap();
    assert_eq!(label, Verdict::Unclassified);
    assert_eq!((sim.num, sim.den), (3, 9));
    let (label, sim) = classify_clause("xyzzy", &corpus).unwrap();
    assert_eq!(label, Verdict::Unclassified);
    assert_eq!(value(sim), 0.0);
}

#[test]
fn classify_clause_keeps_the_first_of_equally_near_records() {
    let rows = vec![
        RawRow { text: "one two".to_string(), label: "Not Allowed".to_string() },
        RawRow { text: "one two".to_string(), label: "Allowed".to_string() },
    ];
    let corpus = LabeledCorpus::load_contract_dataset(rows);
    let (label, sim) = classify_clause("one two", &corpus).unwrap();
    assert_eq!(label, Verdict::NotAllowed);
    assert_eq!(value(sim), 1.0);
}

#[test]
fn similarity_of_one_half_takes_the_label() {
    let rows = vec![RawRow { text: "one two".to_string(), label: "Allowed".to_string() }];
    let corpus = LabeledCorpus::load_contract_dataset(rows);
    let (label, sim) = classify_clause("one three", &corpus).unwrap();
    assert_eq!(label, Verdict::Allowed);
    assert_eq!(value(sim), 0.5);
    let (label, _) = classify_clause("one three four", &corpus).unwrap();
    assert_eq!(label, Verdict::Unclassified);
}

#[test]
fn rule_scores() {
    assert_eq!(score_of(&chars("nothing of note here")), 0);
    assert_eq!(score_of(&chars("fees are unlimited")), -3);
    assert_eq!(score_of(&chars("unlimited and at any time")), -3);
    assert_eq!(score_of(&chars("you forfeit the deposit")), -3);
    assert_eq!(score_of(&chars("unlimited fees and no refund")), -6);
    assert_eq!(score_of(&chars("a reasonable term")), 3);
    assert_eq!(score_of(&chars("at any time without notice")), 0);
    assert_eq!(score_of(&chars("a late fee of 20% and not liable with consent")), -3);
}

#[test]
fn decision_table() {
    let low = (Verdict::Unclassified, Ratio { num: 1, den: 5 });
    let edge = (Verdict::Allowed, Ratio { num: 3, den: 5 });
    let high = (Verdict::Allowed, Ratio { num: 9, den: 10 });
    assert_eq!(decide_label(-6, high), (Verdict::NotAllowed, Ratio { num: 85, den: 100 }));
    assert_eq!(decide_label(-5, high), (Verdict::NotAllowed, Ratio { num: 85, den: 100 }));
    assert_eq!(decide_label(6, low), (Verdict::Allowed, Ratio { num: 85, den: 100 }));
    assert_eq!(decide_label(5, low), (Verdict::Allowed, Ratio { num: 85, den: 100 }));
    assert_eq!(decide_label(-3, low), (Verdict::NotAllowed, Ratio { num: 70, den: 100 }));
    assert_eq!(decide_label(3, low), (Verdict::Allowed, Ratio { num: 70, den: 100 }));
    assert_eq!(decide_label(0, low), low);
    assert_eq!(decide_label(-2, low), low);
    assert_eq!(decide_label(2, low), low);
    assert_eq!(decide_label(-3, edge), edge);
    assert_eq!(decide_label(3, edge), edge);
    assert_eq!(decide_label(-3, high), high);
    assert_eq!(decide_label(0, high), high);
}

#[test]
fn balanced_clause_passes_the_lookup_through() {
    let rows = vec![
        RawRow { text: "fees are unlimited with consent".to_string(), label: "Allowed".to_string() },
    ];
    let corpus = LabeledCorpus::load_contract_dataset(rows);
    let got = enhanced_analyze("Fees are UNLIMITED with consent.", &corpus).unwrap();
    assert_eq!(got.len(), 1);
    assert_eq!(got[0].clause, "Fees are UNLIMITED with consent");
    assert_eq!(got[0].label, Verdict::Allowed);
    assert_eq!(value(got[0].confidence), 1.0);
}

#[test]
fn rule_tier_on_the_landlord_document() {
    let corpus = LabeledCorpus::load_fallback_data();
    let text = "The landlord may enter the premises at any time without notice. Rent shall be paid on the first day of each month.";
    let got = enhanced_analyze(text, &corpus).unwrap();
    assert_eq!(got.len(), 2);
    assert_eq!(got[0].clause, "The landlord may enter the premises at any time without notice");
    assert_eq!(got[0].label, Verdict::NotAllowed);
    assert_eq!(value(got[0].confidence), 1.0);
    assert_eq!(got[1].clause, "Rent shall be paid on the first day of each month");
    assert_eq!(got[1].label, Verdict::Allowed);
    assert_eq!(value(got[1].confidence), 1.0);
}

#[test]
fn rule_tier_overrides_a_weak_lookup() {
    let corpus = LabeledCorpus::load_fallback_data();
    let got = enhanced_analyze("Fees are unlimited and you forfeit it all\nA reasonable zebra", &corpus).unwrap();
    assert_eq!(got.len(), 2);
    assert_eq!(got[0].label, Verdict::NotAllowed);
    assert_eq!(value(got[0].confidence), 0.85);
    assert_eq!(got[1].label, Verdict::Allowed);
    assert_eq!(value(got[1].confidence), 0.7);
}

#[test]
fn rule_tier_fails_on_separators_only() {
    let corpus = LabeledCorpus::load_fallback_data();
    assert_eq!(enhanced_analyze("", &corpus).unwrap_err(), AnalysisError::EmptyInput);
    assert_eq!(enhanced_analyze(" ..\n. \n", &corpus).unwrap_err(), AnalysisError::EmptyInput);
}

#[test]
fn lookup_tier_reports_on_every_clause() {
    let corpus = LabeledCorpus::load_fallback_data();
    let text = "Rent shall be paid on the first day of each month. The landlord may enter the premises at any time without notice.\nSomething else entirely";
    let report = fallback_analyze_contract(text, &corpus);
    assert_eq!(report.total_clauses, 3);
    assert_eq!(report.allowed_count, 1);
    assert_eq!(report.not_allowed_count, 1);
    assert_eq!((report.allowed_pct.num, report.allowed_pct.den), (100, 3));
    assert_eq!((report.not_allowed_pct.num, report.not_allowed_pct.den), (100, 3));
    assert_eq!(report.breakdown.len(), 3);
    assert_eq!(report.breakdown[0].label, Verdict::Allowed);
    assert_eq!(report.breakdown[1].label, Verdict::NotAllowed);
    assert_eq!(report.breakdown[2].label, Verdict::Unclassified);
    assert_eq!(report.breakdown[2].clause, "Something else entirely");
}

#[test]
fn lookup_tier_on_an_empty_document() {
    let corpus = LabeledCorpus::load_fallback_data();
    let report = fallback_analyze_contract(" . ", &corpus);
    assert_eq!(report.total_clauses, 0);
    assert_eq!(report.allowed_count, 0);
    assert_eq!(report.not_allowed_count, 0);
    assert_eq!(report.allowed_pct.num, 0);
    assert_eq!(report.not_allowed_pct.num, 0);
    assert!(report.allowed_pct.den > 0 && report.not_allowed_pct.den > 0);
    assert!(report.breakdown.is_empty());
}

#[test]
fn aggregate_counts_and_percentages() {
    let verdicts = vec![
        verdict("a", Verdict::Allowed, 90),
        verdict("b", Verdict::NotAllowed, 90),
        verdict("c", Verdict::Neutral, 50),
        verdict("d", Verdict::Allowed, 70),
        verdict("e", Verdict::Unclassified, 10),
    ];
    let report = aggregate(5, verdicts);
    assert_eq!(report.total_clauses, 5);
    assert_eq!(report.allowed_count, 2);
    assert_eq!(report.not_allowed_count, 1);
    assert_eq!((report.allowed_pct.num, report.allowed_pct.den), (200, 5));
    assert_eq!((report.not_allowed_pct.num, report.not_allowed_pct.den), (100, 5));
    assert_eq!(report.allowed_pct.num as f64 / report.allowed_pct.den as f64, 40.0);
    let order: Vec<&str> = report.breakdown.iter().map(|v| v.clause.as_str()).collect();
    assert_eq!(order, vec!["a", "b", "c", "d", "e"]);
    assert!(report.allowed_count + report.not_allowed_count <= report.total_clauses);
}

#[test]
fn aggregate_of_nothing_has_zero_percentages() {
    let report = aggregate(0, Vec::new());
    assert_eq!((report.allowed_pct.num, report.allowed_pct.den), (0, 1));
    assert_eq!((report.not_allowed_pct.num, report.not_allowed_pct.den), (0, 1));
}

#[test]
fn verdicts_have_names() {
    assert_eq!(Verdict::Allowed.name(), "Allowed");
    assert_eq!(Verdict::NotAllowed.name(), "Not Allowed");
    assert_eq!(Verdict::Unclassified.name(), "Unclassified");
    assert_eq!(Verdict::Neutral.name(), "Neutral");
}

#[test]
fn white_space_is_what_the_standard_library_says() {
    for n in 0..=0x10ffff_u32 {
        if let Some(c) = char::from_u32(n) {
            assert_eq!(is_white_space(c), c.is_whitespace(), "U+{:04X}", n);
        }
    }
}

#[test]
fn clause_of_the_corpus_is_found_with_similarity_one() {
    let corpus = LabeledCorpus::load_fallback_data();
    for (i, expected) in [Verdict::Allowed, Verdict::NotAllowed, Verdict::Allowed, Verdict::NotAllowed, Verdict::Allowed].iter().enumerate() {
        let text = corpus.records[i].text.clone();
        let (label, sim) = classify_clause(&text, &corpus).unwrap();
        assert_eq!(sim.num, sim.den);
        assert_eq!(label, *expected);
    }
}
