//! Behaviour of the whole-text analyzer: token counts, sentence counts and
//! the invariants of the count vector.

use mdpredict_russian::TextAnalyzer;
use mdpredict_russian::TextCounts;

fn percentage(count: usize, total: usize) -> f64 {
    if total == 0 {
        0.0
    } else {
        (count as f64 / total as f64) * 100.0
    }
}

#[test]
fn test_basic_analysis() {
    let analyzer = TextAnalyzer::new();

    let text = "Я помню как катался на велосипеде и упал.";
    let metrics = analyzer.analyze(text);

    assert!(metrics.total_words > 0);
    assert!(metrics.total_sentences > 0);
}

#[test]
fn test_pronoun_counting() {
    let analyzer = TextAnalyzer::new();

    let text = "Я иду домой. Мы идём вместе. Они тоже идут.";
    let metrics = analyzer.analyze(text);

    assert!(metrics.first_person_singular_pronouns > 0);
    assert!(metrics.first_person_plural_pronouns > 0);
    assert!(metrics.third_person_plural_pronouns > 0);
}

#[test]
fn test_schizophrenia_example() {
    let analyzer = TextAnalyzer::new();

    let text = "Как я катался на 3-колёсном велосипеде и упал. 3–4 года";
    let metrics = analyzer.analyze(text);

    assert!(metrics.past_tense_verbs > 0);
    assert!(metrics.first_person_singular_pronouns > 0);
}

#[test]
fn test_healthy_example() {
    let analyzer = TextAnalyzer::new();

    let text = "Ко мне подходит мама, склоняется надо мной и просит поднять руки. \
                Я поднимаю руки и на меня натягивается блузка с короткими рукавами-фонариками.";
    let metrics = analyzer.analyze(text);

    assert!(metrics.present_tense_verbs > 0);
    assert!(metrics.total_words > 15);
}

#[test]
fn test_schizophrenia_pattern() {
    let analyzer = TextAnalyzer::new();

    let text = "Как я катался на 3-колёсном велосипеде и упал. 3–4 года";
    let metrics = analyzer.analyze(text);

    assert!(metrics.total_words < 30);
    assert!(metrics.past_tense_verbs > 0 || metrics.external_predicates > 0);
}

#[test]
fn test_healthy_pattern() {
    let analyzer = TextAnalyzer::new();

    let text = "Ко мне подходит мама, склоняется надо мной и просит поднять руки. \
                Я поднимаю руки и на меня натягивается блузка с короткими рукавами-фонариками. \
                Кофточка из прозрачного плохо тянущегося материала отделана блестящим люрексом \
                сильно колется. Но ничего, я потерплю. Это часть костюма и без нее никак не обойтись.";
    let metrics = analyzer.analyze(text);

    assert!(metrics.total_words > 30);
    assert!(metrics.present_tense_verbs > 0);
}

#[test]
fn test_empty_text_is_all_zero() {
    let analyzer = TextAnalyzer::new();

    let metrics = analyzer.analyze("");
    assert_eq!(metrics.total_words, 0);
    assert_eq!(metrics, TextCounts::new());

    let metrics = analyzer.analyze("   ");
    assert_eq!(metrics.total_words, 0);
    assert_eq!(metrics, TextCounts::new());
}

#[test]
fn test_punctuation_only_text_is_all_zero() {
    let analyzer = TextAnalyzer::new();

    let metrics = analyzer.analyze("1234 ... 5–6 !!!");
    assert_eq!(metrics, TextCounts::new());
}

#[test]
fn test_analysis_is_deterministic() {
    let analyzer = TextAnalyzer::new();

    let text = "Я помню как мы гуляли в парке с мамой. Было очень весело!";
    let first = analyzer.analyze(text);
    let second = analyzer.analyze(text);

    assert_eq!(first, second);
}

#[test]
fn test_every_percentage_in_range() {
    let analyzer = TextAnalyzer::new();

    let text = "Я шла за руки с родителями, потом я упала и разбила себе коленку левую. \
                Была кровь, и я много плакала, но все, как мне тогда казалось, смеялись. Около 4 лет.";
    let m = analyzer.analyze(text);

    let total = m.total_words;
    let counts = [
        m.distinct_words,
        m.external_predicates,
        m.internal_predicates,
        m.active_voice_verbs,
        m.past_tense_verbs,
        m.present_tense_verbs,
        m.future_tense_verbs,
        m.infinitives,
        m.non_finite_verb_forms,
        m.adjectives,
        m.nouns,
        m.adverbs,
        m.first_person_singular_pronouns,
        m.first_person_plural_pronouns,
        m.second_person_singular_pronouns,
        m.second_person_plural_pronouns,
        m.third_person_singular_pronouns,
        m.third_person_plural_pronouns,
        m.filler_words,
        m.stop_words,
        m.prepositions,
        m.conjunctions,
        m.social_interaction_words,
        m.emotion_words,
        m.egocentrism_markers,
    ];
    for &count in counts.iter() {
        assert!(count <= total);
        let pct = percentage(count, total);
        assert!((0.0..=100.0).contains(&pct));
    }
    assert_eq!(
        m.simple_sentences + m.compound_sentences + m.complex_sentences + m.run_on_sentences,
        m.total_sentences
    );
}

#[test]
fn test_word_tokens_split_on_punctuation() {
    let analyzer = TextAnalyzer::new();

    let metrics = analyzer.analyze("Я, иду!");
    assert_eq!(metrics.total_words, 2);
}

#[test]
fn test_tokens_without_letters_are_dropped() {
    let words = TextAnalyzer::extract_words("Я 123 иду");
    assert_eq!(words, vec!["Я".to_string(), "иду".to_string()]);
}

#[test]
fn test_lexical_diversity_counts_distinct_lowercase_forms() {
    let analyzer = TextAnalyzer::new();

    let metrics = analyzer.analyze("Иду иду домой.");
    assert_eq!(metrics.total_words, 3);
    assert_eq!(metrics.distinct_words, 2);
}

#[test]
fn test_sentence_type_counts() {
    let analyzer = TextAnalyzer::new();

    let text = "Я иду домой. Я знаю, что он придёт.";
    let metrics = analyzer.analyze(text);

    assert_eq!(metrics.total_sentences, 2);
    assert_eq!(metrics.simple_sentences, 1);
    assert_eq!(metrics.complex_sentences, 1);
    assert_eq!(metrics.compound_sentences, 0);
    assert_eq!(metrics.run_on_sentences, 0);
}

#[test]
fn test_emotion_and_social_counting() {
    let analyzer = TextAnalyzer::new();

    let text = "Мы гуляли вместе с мамой. Было очень весело, я чувствовала радость.";
    let metrics = analyzer.analyze(text);

    assert!(metrics.emotion_words >= 2);
    assert!(metrics.social_interaction_words > 0);
    assert!(metrics.first_person_plural_pronouns > 0);
}
