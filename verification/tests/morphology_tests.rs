//! Behaviour of the rule-based word tagger.

use mdpredict_russian::MorphAnalyzer;
use mdpredict_russian::PartOfSpeech;
use mdpredict_russian::PronounNumber;
use mdpredict_russian::PronounPerson;
use mdpredict_russian::PredicateType;
use mdpredict_russian::VerbTense;

#[test]
fn morphology_test_pronoun_detection() {
    let analyzer = MorphAnalyzer::new();

    let analysis = analyzer.analyze("я");
    assert_eq!(analysis.pos, PartOfSpeech::Pronoun);
    assert_eq!(analysis.pronoun_person, Some(PronounPerson::First));
    assert_eq!(analysis.pronoun_number, Some(PronounNumber::Singular));

    let analysis = analyzer.analyze("мы");
    assert_eq!(analysis.pos, PartOfSpeech::Pronoun);
    assert_eq!(analysis.pronoun_person, Some(PronounPerson::First));
    assert_eq!(analysis.pronoun_number, Some(PronounNumber::Plural));
}

#[test]
fn morphology_test_verb_detection() {
    let analyzer = MorphAnalyzer::new();

    let analysis = analyzer.analyze("думаю");
    assert_eq!(analysis.pos, PartOfSpeech::Verb);
    assert_eq!(analysis.predicate_type, Some(PredicateType::Internal));

    let analysis = analyzer.analyze("иду");
    assert_eq!(analysis.pos, PartOfSpeech::Verb);
    assert_eq!(analysis.predicate_type, Some(PredicateType::External));
}

#[test]
fn test_preposition_detection() {
    let analyzer = MorphAnalyzer::new();

    let analysis = analyzer.analyze("в");
    assert_eq!(analysis.pos, PartOfSpeech::Preposition);

    let analysis = analyzer.analyze("на");
    assert_eq!(analysis.pos, PartOfSpeech::Preposition);
}

#[test]
fn test_first_person_singular_markers() {
    let analyzer = MorphAnalyzer::new();

    let analysis = analyzer.analyze("я");
    assert!(analysis.is_egocentrism_marker);
    assert!(!analysis.is_social_interaction);
}

#[test]
fn test_first_person_plural_markers() {
    let analyzer = MorphAnalyzer::new();

    let analysis = analyzer.analyze("мы");
    assert!(analysis.is_social_interaction);
}

#[test]
fn test_uppercase_word_is_lowercased() {
    let analyzer = MorphAnalyzer::new();

    let analysis = analyzer.analyze("Я");
    assert_eq!(analysis.pos, PartOfSpeech::Pronoun);
    assert_eq!(analysis.word, "я");

    assert!(MorphAnalyzer::is_coordinating_conjunction("А"));
    assert!(MorphAnalyzer::is_subordinating_conjunction("ЧТО"));
}

#[test]
fn test_empty_word_is_unknown() {
    let analyzer = MorphAnalyzer::new();

    let analysis = analyzer.analyze("");
    assert_eq!(analysis.pos, PartOfSpeech::Unknown);
    assert!(!analysis.is_filler);
    assert!(!analysis.is_stop_word);
    assert!(!analysis.is_emotion_word);
    assert!(!analysis.is_social_interaction);
    assert!(!analysis.is_egocentrism_marker);
}

#[test]
fn test_past_tense_suffix() {
    let analyzer = MorphAnalyzer::new();

    let analysis = analyzer.analyze("катался");
    assert_eq!(analysis.pos, PartOfSpeech::Verb);
    assert_eq!(analysis.verb_tense, Some(VerbTense::Past));
}

#[test]
fn test_infinitive_suffix() {
    let analyzer = MorphAnalyzer::new();

    let analysis = analyzer.analyze("работать");
    assert_eq!(analysis.pos, PartOfSpeech::Verb);
    assert_eq!(analysis.verb_tense, Some(VerbTense::Infinitive));
}

#[test]
fn test_active_voice() {
    assert!(MorphAnalyzer::is_active_voice("упал"));
    assert!(!MorphAnalyzer::is_active_voice("катался"));
    assert!(!MorphAnalyzer::is_active_voice("смеялась"));
}

#[test]
fn test_reflexive_pronoun() {
    let analyzer = MorphAnalyzer::new();

    let analysis = analyzer.analyze("себя");
    assert_eq!(analysis.pos, PartOfSpeech::Pronoun);
    assert_eq!(analysis.pronoun_person, Some(PronounPerson::Reflexive));
    assert_eq!(analysis.pronoun_number, Some(PronounNumber::Unknown));
    assert!(analysis.is_egocentrism_marker);
}

#[test]
fn test_possessive_first_person() {
    let analyzer = MorphAnalyzer::new();

    let analysis = analyzer.analyze("мой");
    assert_eq!(analysis.pos, PartOfSpeech::Pronoun);
    assert_eq!(analysis.pronoun_person, Some(PronounPerson::First));
    assert_eq!(analysis.pronoun_number, Some(PronounNumber::Unknown));
    assert!(analysis.is_egocentrism_marker);
}

#[test]
fn test_emotion_and_filler_flags() {
    let analyzer = MorphAnalyzer::new();

    let analysis = analyzer.analyze("весело");
    assert!(analysis.is_emotion_word);

    let analysis = analyzer.analyze("ну");
    assert!(analysis.is_filler);

    let analysis = analyzer.analyze("же");
    assert!(analysis.is_stop_word);
}

#[test]
fn test_noun_fallback() {
    let analyzer = MorphAnalyzer::new();

    let analysis = analyzer.analyze("велосипед");
    assert_eq!(analysis.pos, PartOfSpeech::Noun);
}
