//! Behaviour of the dictionary-backed tagging decisions, with parses built
//! by hand in place of a dictionary lookup.

use mdpredict_russian::rsmorph::analyze_with_parse;
use mdpredict_russian::rsmorph::check_predicate_type;
use mdpredict_russian::rsmorph::extract_pos;
use mdpredict_russian::rsmorph::extract_verb_form;
use mdpredict_russian::rsmorph::extract_verb_tense;
use mdpredict_russian::rsmorph::DictParse;
use mdpredict_russian::PartOfSpeech;
use mdpredict_russian::PredicateType;
use mdpredict_russian::PronounNumber;
use mdpredict_russian::PronounPerson;
use mdpredict_russian::VerbForm;
use mdpredict_russian::VerbTense;

fn parse(lemma: &str, grammemes: &[&str]) -> DictParse {
    DictParse {
        lemma: lemma.to_string(),
        grammemes: grammemes.iter().map(|g| g.to_string()).collect(),
    }
}

#[test]
fn test_noun_from_grammemes() {
    let p = parse("велосипед", &["NOUN"]);
    let analysis = analyze_with_parse("велосипеде", Some(&p));
    assert_eq!(analysis.pos, PartOfSpeech::Noun);
    assert_eq!(analysis.lemma, Some("велосипед".to_string()));
    assert_eq!(analysis.verb_tense, None);
}

#[test]
fn test_past_tense_verb_from_grammemes() {
    let p = parse("кататься", &["VERB", "past"]);
    let analysis = analyze_with_parse("Катался", Some(&p));
    assert_eq!(analysis.pos, PartOfSpeech::Verb);
    assert_eq!(analysis.verb_tense, Some(VerbTense::Past));
    assert_eq!(analysis.verb_form, Some(VerbForm::Finite));
    assert_eq!(analysis.word, "катался");
}

#[test]
fn test_pronoun_lexicon_beats_dictionary() {
    // The pronoun lexicons take precedence: the parse is never consulted.
    let p = parse("яр", &["NOUN"]);
    let analysis = analyze_with_parse("я", Some(&p));
    assert_eq!(analysis.pos, PartOfSpeech::Pronoun);
    assert_eq!(analysis.pronoun_person, Some(PronounPerson::First));
    assert_eq!(analysis.pronoun_number, Some(PronounNumber::Singular));
    assert_eq!(analysis.lemma, None);
    assert!(analysis.is_egocentrism_marker);
}

#[test]
fn test_predicate_lexicon_beats_dictionary_pos() {
    // A word of the predicate lexicons counts as a verb even when the
    // dictionary calls it something else.
    let p = parse("дума", &["NOUN"]);
    let analysis = analyze_with_parse("думаю", Some(&p));
    assert_eq!(analysis.pos, PartOfSpeech::Verb);
    assert_eq!(analysis.predicate_type, Some(PredicateType::Internal));
}

#[test]
fn test_predicate_type_through_lemma() {
    // The word itself is not in the predicate lexicons, but its lemma is.
    let p = parse("кататься", &["VERB", "pres"]);
    let analysis = analyze_with_parse("катаюсь", Some(&p));
    assert_eq!(analysis.pos, PartOfSpeech::Verb);
    assert_eq!(analysis.verb_tense, Some(VerbTense::Present));
    assert_eq!(analysis.predicate_type, Some(PredicateType::External));
}

#[test]
fn test_first_person_plural_verb_is_social() {
    let p = parse("идти", &["VERB", "pres", "1per", "plur"]);
    let analysis = analyze_with_parse("идём", Some(&p));
    assert_eq!(analysis.pos, PartOfSpeech::Verb);
    assert_eq!(analysis.verb_tense, Some(VerbTense::Present));
    assert!(analysis.is_social_interaction);
}

#[test]
fn test_without_parse_flags_still_hold() {
    let analysis = analyze_with_parse("весело", None);
    assert!(analysis.is_emotion_word);
    assert_eq!(analysis.lemma, None);
    assert_eq!(analysis.pos, PartOfSpeech::Unknown);
}

#[test]
fn test_grammeme_extraction() {
    let gs: Vec<String> = vec!["INFN".to_string()];
    assert_eq!(extract_pos(&gs), PartOfSpeech::Verb);
    assert_eq!(extract_verb_tense(&gs), VerbTense::Infinitive);
    assert_eq!(extract_verb_form(&gs), VerbForm::Infinitive);

    let gs: Vec<String> = vec!["GRND".to_string()];
    assert_eq!(extract_pos(&gs), PartOfSpeech::Verb);
    assert_eq!(extract_verb_form(&gs), VerbForm::Gerund);
    assert_eq!(extract_verb_tense(&gs), VerbTense::Unknown);

    let gs: Vec<String> = vec!["ADJF".to_string()];
    assert_eq!(extract_pos(&gs), PartOfSpeech::Adjective);

    let gs: Vec<String> = Vec::new();
    assert_eq!(extract_pos(&gs), PartOfSpeech::Unknown);
}

#[test]
fn test_predicate_type_lookup() {
    assert_eq!(check_predicate_type("думаю", "думаю"), PredicateType::Internal);
    assert_eq!(check_predicate_type("стол", "иду"), PredicateType::External);
    assert_eq!(check_predicate_type("стол", "стол"), PredicateType::Neither);
}
