//! Behaviour of the fixed-point discriminant scorer.

use mdpredict_russian::classifier::classify_counts;
use mdpredict_russian::classifier::compute_raw_scores;
use mdpredict_russian::classifier::primary_diagnosis;
use mdpredict_russian::DiagnosticGroup;
use mdpredict_russian::RawScores;
use mdpredict_russian::TextAnalyzer;
use mdpredict_russian::TextCounts;

/// The log-volume feature in millionths: `ln(total_words + 1) * 10^6`,
/// rounded, as the unverified layer around the library computes it.
fn log_volume_micro(total_words: usize) -> i64 {
    ((total_words as f64 + 1.0).ln() * 1_000_000.0).round() as i64
}

#[test]
fn test_schizophrenia_reference_beats_healthy() {
    let analyzer = TextAnalyzer::new();

    // The short, past-tense-heavy, low-emotion reference example.
    let text = "Как я катался на 3-колёсном велосипеде и упал. 3–4 года";
    let metrics = analyzer.analyze(text);

    let scores = compute_raw_scores(&metrics, log_volume_micro(metrics.total_words));
    assert!(scores.schizophrenia > scores.healthy);
}

#[test]
fn test_schizophrenia_reference_primary() {
    let analyzer = TextAnalyzer::new();

    let text = "Как я катался на 3-колёсном велосипеде и упал. 3–4 года";
    let metrics = analyzer.analyze(text);

    let (_, group) = classify_counts(&metrics, log_volume_micro(metrics.total_words));
    assert_eq!(group, DiagnosticGroup::Schizophrenia);
}

#[test]
fn test_primary_is_argmax() {
    let analyzer = TextAnalyzer::new();

    let text = "Я помню как мы гуляли в парке с мамой. Было очень весело!";
    let metrics = analyzer.analyze(text);

    let (scores, group) = classify_counts(&metrics, log_volume_micro(metrics.total_words));
    let best = [scores.healthy, scores.schizophrenia, scores.personality_disorder,
        scores.bipolar_disorder]
        .iter()
        .copied()
        .max()
        .unwrap();
    let expected = if scores.healthy == best {
        DiagnosticGroup::Healthy
    } else if scores.schizophrenia == best {
        DiagnosticGroup::Schizophrenia
    } else if scores.personality_disorder == best {
        DiagnosticGroup::PersonalityDisorder
    } else {
        DiagnosticGroup::BipolarDisorder
    };
    assert_eq!(group, expected);
}

#[test]
fn test_tie_breaks_by_group_order() {
    let scores = RawScores { healthy: 5, schizophrenia: 5, personality_disorder: 5, bipolar_disorder: 5 };
    let (group, best) = primary_diagnosis(&scores);
    assert_eq!(group, DiagnosticGroup::Healthy);
    assert_eq!(best, 5);

    let scores = RawScores { healthy: 1, schizophrenia: 7, personality_disorder: 7, bipolar_disorder: 3 };
    let (group, best) = primary_diagnosis(&scores);
    assert_eq!(group, DiagnosticGroup::Schizophrenia);
    assert_eq!(best, 7);
}

#[test]
fn test_empty_counts_score_by_constants_alone() {
    let zero = TextCounts::new();
    let scores = compute_raw_scores(&zero, 0);

    // With every feature at zero each score is its constant term; the
    // scale is 10^8 * 1 and the constants are hundredths, so each score is
    // the constant times 10^6.
    assert_eq!(scores.healthy, -1200 * 1_000_000);
    assert_eq!(scores.schizophrenia, -200 * 1_000_000);
    assert_eq!(scores.personality_disorder, -400 * 1_000_000);
    assert_eq!(scores.bipolar_disorder, -550 * 1_000_000);

    let (group, _) = primary_diagnosis(&scores);
    assert_eq!(group, DiagnosticGroup::Schizophrenia);
}

#[test]
fn test_scores_scale_with_exact_features() {
    // One word, a first-person singular pronoun: the percentage features
    // are 0 except first-person singular at 100 and lexical diversity at
    // 100; the denominator is 1.
    let analyzer = TextAnalyzer::new();
    let metrics = analyzer.analyze("я");
    assert_eq!(metrics.total_words, 1);
    assert_eq!(metrics.first_person_singular_pronouns, 1);
    assert_eq!(metrics.distinct_words, 1);

    let lm = log_volume_micro(1);
    let scores = compute_raw_scores(&metrics, lm);

    // healthy: 2.5 * ln(2) + 0.15 * 100 - 0.02 * 100 - 12, scaled by 10^8.
    let expected_healthy: i128 =
        250i128 * lm as i128 + 100_000_000i128 * (15 * 1 + (-2) * 1) + (-1200i128) * 1_000_000;
    assert_eq!(scores.healthy, expected_healthy);
}
