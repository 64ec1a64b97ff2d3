//! Sentence segmentation and classification behaviour.

use mdpredict_russian::SentenceAnalyzer;
use mdpredict_russian::SentenceType;

#[test]
fn test_sentence_splitting() {
    let analyzer = SentenceAnalyzer::new();

    let text = "Это первое предложение. А это второе! И третье?";
    let sentences = analyzer.split_into_sentences(text);

    assert_eq!(sentences.len(), 3);
}

#[test]
fn test_simple_sentence() {
    let analyzer = SentenceAnalyzer::new();

    let analysis = analyzer.analyze_sentence("Я иду домой");
    assert_eq!(analysis.sentence_type, SentenceType::Simple);
}

#[test]
fn test_compound_sentence() {
    let analyzer = SentenceAnalyzer::new();

    let analysis = analyzer.analyze_sentence("Я иду домой, а он идёт в школу");
    assert!(analysis.has_coordinating_conjunction);
}

#[test]
fn test_complex_sentence() {
    let analyzer = SentenceAnalyzer::new();

    let analysis = analyzer.analyze_sentence("Я знаю, что он придёт");
    assert!(analysis.has_subordinating_conjunction);
}

#[test]
fn test_split_keeps_order_and_trims() {
    let analyzer = SentenceAnalyzer::new();

    let sentences = analyzer.split_into_sentences("A. B! C?");
    assert_eq!(sentences, vec!["A".to_string(), "B".to_string(), "C".to_string()]);
}

#[test]
fn test_split_drops_empty_fragments() {
    let analyzer = SentenceAnalyzer::new();

    let sentences = analyzer.split_into_sentences("A.. !  B  ");
    assert_eq!(sentences, vec!["A".to_string(), "B".to_string()]);

    assert!(analyzer.split_into_sentences("").is_empty());
    assert!(analyzer.split_into_sentences("   ").is_empty());
    assert!(analyzer.split_into_sentences("...!?").is_empty());
}

#[test]
fn test_compound_sentence_clause_count() {
    let analyzer = SentenceAnalyzer::new();

    let analysis = analyzer.analyze_sentence("Я иду домой, а он идёт в школу");
    assert_eq!(analysis.clause_count, 2);
    assert_eq!(analysis.word_count, 8);
    assert_eq!(analysis.sentence_type, SentenceType::Compound);
    assert!(!analysis.has_subordinating_conjunction);
}

#[test]
fn test_complex_sentence_type() {
    let analyzer = SentenceAnalyzer::new();

    let analysis = analyzer.analyze_sentence("Я знаю, что он придёт");
    assert_eq!(analysis.sentence_type, SentenceType::Complex);
    assert!(analysis.has_subordinating_conjunction);
    assert_eq!(analysis.clause_count, 2);
}

#[test]
fn test_simple_sentence_details() {
    let analyzer = SentenceAnalyzer::new();

    let analysis = analyzer.analyze_sentence("Я иду домой");
    assert_eq!(analysis.clause_count, 1);
    assert_eq!(analysis.word_count, 3);
    assert!(!analysis.has_coordinating_conjunction);
    assert!(!analysis.has_subordinating_conjunction);
}

#[test]
fn test_extract_words_lowercases_and_splits() {
    let words = SentenceAnalyzer::extract_words("Я, иду!");
    assert_eq!(words, vec!["я".to_string(), "иду".to_string()]);
}

#[test]
fn test_analyze_text_order() {
    let analyzer = SentenceAnalyzer::new();

    let analyses = analyzer.analyze_text("Я иду домой. Я знаю, что он придёт");
    assert_eq!(analyses.len(), 2);
    assert_eq!(analyses[0].sentence_type, SentenceType::Simple);
    assert_eq!(analyses[1].sentence_type, SentenceType::Complex);
    assert_eq!(analyses[0].text, "Я иду домой");
}
