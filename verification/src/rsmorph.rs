//! The dictionary-backed tagging variant.
//!
//! An external morphological dictionary can hand in, for a lowercase word,
//! the lemma and the grammeme tags of its first parse. Every decision over
//! that data is made here: mapping grammemes to a part of speech, tense and
//! form, and the rule that the crate's own lexicons — for pronoun class,
//! predicate type and the category flags — take precedence over the
//! dictionary. The caller that owns the dictionary performs the lookup and
//! passes its result in as plain values; with no parse the word keeps its
//! lexicon-derived tag.

use vstd::prelude::*;

use crate::lexicon;
use crate::morphology::spec_pronoun_info;
use crate::morphology::MorphAnalyzer;
use crate::text::lower_of;
use crate::text::lowercase;
use crate::text::str_eq;

pub use crate::morphology::PartOfSpeech;
pub use crate::morphology::PredicateType;
pub use crate::morphology::PronounNumber;
pub use crate::morphology::PronounPerson;
pub use crate::morphology::VerbForm;
pub use crate::morphology::VerbTense;

verus! {

/// One parse from the external dictionary: the normal form of the word and
/// the grammeme tags of its first analysis.
#[derive(Debug, Clone)]
pub struct DictParse {
    pub lemma: String,
    pub grammemes: Vec<String>,
}

/// Mathematical view of a parse.
pub struct DictParseView {
    pub lemma: Seq<char>,
    pub grammemes: Seq<Seq<char>>,
}

impl View for DictParse {
    type V = DictParseView;

    open spec fn view(&self) -> DictParseView {
        DictParseView { lemma: self.lemma@, grammemes: self.grammemes.deep_view() }
    }
}

/// View of an optional borrowed parse.
pub open spec fn spec_parse_view(p: Option<&DictParse>) -> Option<DictParseView> {
    match p {
        Some(x) => Some(x@),
        None => None,
    }
}

/// Result of tagging one word with the dictionary at hand: the tag of the
/// rule-based variant together with the lemma the dictionary gave.
#[derive(Debug, Clone)]
pub struct WordAnalysis {
    pub word: String,
    pub lemma: Option<String>,
    pub pos: PartOfSpeech,
    pub verb_tense: Option<VerbTense>,
    pub verb_form: Option<VerbForm>,
    pub predicate_type: Option<PredicateType>,
    pub pronoun_person: Option<PronounPerson>,
    pub pronoun_number: Option<PronounNumber>,
    pub is_filler: bool,
    pub is_stop_word: bool,
    pub is_emotion_word: bool,
    pub is_social_interaction: bool,
    pub is_egocentrism_marker: bool,
}

/// Mathematical view of a dictionary-backed tag.
pub struct WordAnalysisView {
    pub word: Seq<char>,
    pub lemma: Option<Seq<char>>,
    pub pos: PartOfSpeech,
    pub verb_tense: Option<VerbTense>,
    pub verb_form: Option<VerbForm>,
    pub predicate_type: Option<PredicateType>,
    pub pronoun_person: Option<PronounPerson>,
    pub pronoun_number: Option<PronounNumber>,
    pub is_filler: bool,
    pub is_stop_word: bool,
    pub is_emotion_word: bool,
    pub is_social_interaction: bool,
    pub is_egocentrism_marker: bool,
}

impl View for WordAnalysis {
    type V = WordAnalysisView;

    open spec fn view(&self) -> WordAnalysisView {
        WordAnalysisView {
            word: self.word@,
            lemma: match self.lemma {
                Some(ref l) => Some(l@),
                None => None,
            },
            pos: self.pos,
            verb_tense: self.verb_tense,
            verb_form: self.verb_form,
            predicate_type: self.predicate_type,
            pronoun_person: self.pronoun_person,
            pronoun_number: self.pronoun_number,
            is_filler: self.is_filler,
            is_stop_word: self.is_stop_word,
            is_emotion_word: self.is_emotion_word,
            is_social_interaction: self.is_social_interaction,
            is_egocentrism_marker: self.is_egocentrism_marker,
        }
    }
}

/// A blank dictionary-backed tag of `w`.
pub open spec fn spec_blank(w: Seq<char>) -> WordAnalysisView {
    WordAnalysisView {
        word: w,
        lemma: None,
        pos: PartOfSpeech::Unknown,
        verb_tense: None,
        verb_form: None,
        predicate_type: None,
        pronoun_person: None,
        pronoun_number: None,
        is_filler: false,
        is_stop_word: false,
        is_emotion_word: false,
        is_social_interaction: false,
        is_egocentrism_marker: false,
    }
}

impl WordAnalysis {
    pub fn new(word: &str) -> (r: WordAnalysis)
        ensures
            r@ == spec_blank(word@),
    {
        WordAnalysis {
            word: word.to_owned(),
            lemma: None,
            pos: PartOfSpeech::Unknown,
            verb_tense: None,
            verb_form: None,
            predicate_type: None,
            pronoun_person: None,
            pronoun_number: None,
            is_filler: false,
            is_stop_word: false,
            is_emotion_word: false,
            is_social_interaction: false,
            is_egocentrism_marker: false,
        }
    }
}

/// The grammeme set carries the given tag.
pub open spec fn spec_has_grammeme(gs: Seq<Seq<char>>, tag: Seq<char>) -> bool {
    gs.contains(tag)
}

pub fn has_grammeme(gs: &Vec<String>, tag: &str) -> (r: bool)
    ensures
        r == spec_has_grammeme(gs.deep_view(), tag@),
{
    let mut i: usize = 0;
    while i < gs.len()
        invariant
            i <= gs@.len(),
            forall|t: int| 0 <= t < i ==> #[trigger] gs.deep_view()[t] != tag@,
        decreases gs@.len() - i,
    {
        if str_eq(gs[i].as_str(), tag) {
            proof {
                assert(gs.deep_view()[i as int] == gs@[i as int]@);
            }
            return true;
        }
        proof {
            assert(gs.deep_view()[i as int] == gs@[i as int]@);
        }
        i = i + 1;
    }
    false
}

/// Part of speech from the grammeme tags, in the fixed order of the
/// dictionary's main tags.
pub open spec fn spec_extract_pos(gs: Seq<Seq<char>>) -> PartOfSpeech {
    if spec_has_grammeme(gs, "NOUN"@) {
        PartOfSpeech::Noun
    } else if spec_has_grammeme(gs, "VERB"@) || spec_has_grammeme(gs, "INFN"@)
        || spec_has_grammeme(gs, "PRTF"@) || spec_has_grammeme(gs, "PRTS"@) || spec_has_grammeme(
        gs,
        "GRND"@,
    ) {
        PartOfSpeech::Verb
    } else if spec_has_grammeme(gs, "ADJF"@) || spec_has_grammeme(gs, "ADJS"@) {
        PartOfSpeech::Adjective
    } else if spec_has_grammeme(gs, "ADVB"@) {
        PartOfSpeech::Adverb
    } else if spec_has_grammeme(gs, "NPRO"@) {
        PartOfSpeech::Pronoun
    } else if spec_has_grammeme(gs, "PREP"@) {
        PartOfSpeech::Preposition
    } else if spec_has_grammeme(gs, "CONJ"@) {
        PartOfSpeech::Conjunction
    } else if spec_has_grammeme(gs, "NUMR"@) {
        PartOfSpeech::Numeral
    } else if spec_has_grammeme(gs, "PRCL"@) {
        PartOfSpeech::Particle
    } else if spec_has_grammeme(gs, "INTJ"@) {
        PartOfSpeech::Interjection
    } else {
        PartOfSpeech::Unknown
    }
}

pub fn extract_pos(gs: &Vec<String>) -> (r: PartOfSpeech)
    ensures
        r == spec_extract_pos(gs.deep_view()),
{
    if has_grammeme(gs, "NOUN") {
        PartOfSpeech::Noun
    } else if has_grammeme(gs, "VERB") || has_grammeme(gs, "INFN") || has_grammeme(gs, "PRTF")
        || has_grammeme(gs, "PRTS") || has_grammeme(gs, "GRND") {
        PartOfSpeech::Verb
    } else if has_grammeme(gs, "ADJF") || has_grammeme(gs, "ADJS") {
        PartOfSpeech::Adjective
    } else if has_grammeme(gs, "ADVB") {
        PartOfSpeech::Adverb
    } else if has_grammeme(gs, "NPRO") {
        PartOfSpeech::Pronoun
    } else if has_grammeme(gs, "PREP") {
        PartOfSpeech::Preposition
    } else if has_grammeme(gs, "CONJ") {
        PartOfSpeech::Conjunction
    } else if has_grammeme(gs, "NUMR") {
        PartOfSpeech::Numeral
    } else if has_grammeme(gs, "PRCL") {
        PartOfSpeech::Particle
    } else if has_grammeme(gs, "INTJ") {
        PartOfSpeech::Interjection
    } else {
        PartOfSpeech::Unknown
    }
}

/// Verb tense from the grammeme tags.
pub open spec fn spec_extract_verb_tense(gs: Seq<Seq<char>>) -> VerbTense {
    if spec_has_grammeme(gs, "INFN"@) {
        VerbTense::Infinitive
    } else if spec_has_grammeme(gs, "past"@) {
        VerbTense::Past
    } else if spec_has_grammeme(gs, "pres"@) {
        VerbTense::Present
    } else if spec_has_grammeme(gs, "futr"@) {
        VerbTense::Future
    } else {
        VerbTense::Unknown
    }
}

pub fn extract_verb_tense(gs: &Vec<String>) -> (r: VerbTense)
    ensures
        r == spec_extract_verb_tense(gs.deep_view()),
{
    if has_grammeme(gs, "INFN") {
        VerbTense::Infinitive
    } else if has_grammeme(gs, "past") {
        VerbTense::Past
    } else if has_grammeme(gs, "pres") {
        VerbTense::Present
    } else if has_grammeme(gs, "futr") {
        VerbTense::Future
    } else {
        VerbTense::Unknown
    }
}

/// Verb form from the grammeme tags.
pub open spec fn spec_extract_verb_form(gs: Seq<Seq<char>>) -> VerbForm {
    if spec_has_grammeme(gs, "INFN"@) {
        VerbForm::Infinitive
    } else if spec_has_grammeme(gs, "PRTF"@) || spec_has_grammeme(gs, "PRTS"@) {
        VerbForm::Participle
    } else if spec_has_grammeme(gs, "GRND"@) {
        VerbForm::Gerund
    } else if spec_has_grammeme(gs, "VERB"@) {
        VerbForm::Finite
    } else {
        VerbForm::Unknown
    }
}

pub fn extract_verb_form(gs: &Vec<String>) -> (r: VerbForm)
    ensures
        r == spec_extract_verb_form(gs.deep_view()),
{
    if has_grammeme(gs, "INFN") {
        VerbForm::Infinitive
    } else if has_grammeme(gs, "PRTF") || has_grammeme(gs, "PRTS") {
        VerbForm::Participle
    } else if has_grammeme(gs, "GRND") {
        VerbForm::Gerund
    } else if has_grammeme(gs, "VERB") {
        VerbForm::Finite
    } else {
        VerbForm::Unknown
    }
}

/// The grammemes mark a first-person plural form.
pub open spec fn spec_is_first_person_plural(gs: Seq<Seq<char>>) -> bool {
    spec_has_grammeme(gs, "1per"@) && spec_has_grammeme(gs, "plur"@)
}

pub fn is_first_person_plural(gs: &Vec<String>) -> (r: bool)
    ensures
        r == spec_is_first_person_plural(gs.deep_view()),
{
    has_grammeme(gs, "1per") && has_grammeme(gs, "plur")
}

/// Predicate type from the crate's own lexicons, consulting both the word
/// and its lemma; the internal lexicon is consulted first.
pub open spec fn spec_check_predicate_type(w: Seq<char>, lemma: Seq<char>) -> PredicateType {
    if lexicon::in_internal_predicates(w) || lexicon::in_internal_predicates(lemma) {
        PredicateType::Internal
    } else if lexicon::in_external_predicates(w) || lexicon::in_external_predicates(lemma) {
        PredicateType::External
    } else {
        PredicateType::Neither
    }
}

pub fn check_predicate_type(word: &str, lemma: &str) -> (r: PredicateType)
    ensures
        r == spec_check_predicate_type(word@, lemma@),
{
    if lexicon::check_internal_predicates(word) || lexicon::check_internal_predicates(lemma) {
        PredicateType::Internal
    } else if lexicon::check_external_predicates(word) || lexicon::check_external_predicates(
        lemma,
    ) {
        PredicateType::External
    } else {
        PredicateType::Neither
    }
}

/// Pronoun person and number from the crate's own pronoun lexicons.
pub fn check_pronoun_dictionaries(word: &str) -> (r: Option<(PronounPerson, PronounNumber)>)
    ensures
        r == spec_pronoun_info(word@),
{
    MorphAnalyzer::get_pronoun_info(word)
}

/// The dictionary-backed tag of the lowercase word `w` given the parse the
/// dictionary returned for it, if any. The crate's own lexicons decide the
/// category flags, the pronoun class and the predicate type; the grammemes
/// decide the part of speech, tense and form of the rest.
#[verifier::opaque]
pub open spec fn spec_dict_analyze(w: Seq<char>, parse: Option<DictParseView>) -> WordAnalysisView {
    let base = WordAnalysisView {
        is_filler: lexicon::in_filler_words(w),
        is_stop_word: lexicon::in_stop_words(w),
        is_emotion_word: lexicon::in_emotion_words(w),
        is_egocentrism_marker: lexicon::in_first_person_singular(w)
            || lexicon::in_possessive_first_person(w),
        is_social_interaction: lexicon::in_social_family_words(w),
        ..spec_blank(w)
    };
    match spec_pronoun_info(w) {
        Some(pn) => WordAnalysisView {
            pos: PartOfSpeech::Pronoun,
            pronoun_person: Some(pn.0),
            pronoun_number: Some(pn.1),
            is_social_interaction: pn.0 == PronounPerson::First && pn.1 == PronounNumber::Plural,
            ..base
        },
        None => {
            let pt = spec_check_predicate_type(w, w);
            let a1 = if pt != PredicateType::Neither {
                WordAnalysisView { pos: PartOfSpeech::Verb, predicate_type: Some(pt), ..base }
            } else {
                base
            };
            match parse {
                None => a1,
                Some(p) => {
                    let a2 = WordAnalysisView { lemma: Some(p.lemma), ..a1 };
                    let a3 = if a2.predicate_type is None {
                        WordAnalysisView { pos: spec_extract_pos(p.grammemes), ..a2 }
                    } else {
                        a2
                    };
                    let a4 = if a3.pos == PartOfSpeech::Verb {
                        let with_tense = WordAnalysisView {
                            verb_tense: Some(spec_extract_verb_tense(p.grammemes)),
                            verb_form: Some(spec_extract_verb_form(p.grammemes)),
                            ..a3
                        };
                        if with_tense.predicate_type is None {
                            let pt2 = spec_check_predicate_type(w, p.lemma);
                            if pt2 != PredicateType::Neither {
                                WordAnalysisView { predicate_type: Some(pt2), ..with_tense }
                            } else {
                                with_tense
                            }
                        } else {
                            with_tense
                        }
                    } else {
                        a3
                    };
                    if a4.pos == PartOfSpeech::Verb && spec_is_first_person_plural(p.grammemes) {
                        WordAnalysisView { is_social_interaction: true, ..a4 }
                    } else {
                        a4
                    }
                },
            }
        },
    }
}

/// Tag one word, lowercased first, with the parse the dictionary returned
/// for its lowercase form.
pub fn analyze_with_parse(word: &str, parse: Option<&DictParse>) -> (r: WordAnalysis)
    ensures
        r@ == spec_dict_analyze(lower_of(word@), spec_parse_view(parse)),
{
    proof {
        reveal(spec_dict_analyze);
    }
    let word_lower = lowercase(word);
    let wl = word_lower.as_str();
    let mut analysis = WordAnalysis::new(wl);

    analysis.is_filler = lexicon::check_filler_words(wl);
    analysis.is_stop_word = lexicon::check_stop_words(wl);
    analysis.is_emotion_word = lexicon::check_emotion_words(wl);
    analysis.is_egocentrism_marker = lexicon::check_first_person_singular(wl)
        || lexicon::check_possessive_first_person(wl);
    if lexicon::check_social_family_words(wl) {
        analysis.is_social_interaction = true;
    }

    if let Some((person, number)) = check_pronoun_dictionaries(wl) {
        analysis.pos = PartOfSpeech::Pronoun;
        analysis.pronoun_person = Some(person);
        analysis.pronoun_number = Some(number);
        analysis.is_social_interaction = person == PronounPerson::First && number
            == PronounNumber::Plural;
        return analysis;
    }

    let predicate_type = check_predicate_type(wl, wl);
    if predicate_type != PredicateType::Neither {
        analysis.predicate_type = Some(predicate_type);
        analysis.pos = PartOfSpeech::Verb;
    }

    if let Some(p) = parse {
        analysis.lemma = Some(p.lemma.clone());

        if analysis.predicate_type.is_none() {
            analysis.pos = extract_pos(&p.grammemes);
        }

        if analysis.pos == PartOfSpeech::Verb {
            analysis.verb_tense = Some(extract_verb_tense(&p.grammemes));
            analysis.verb_form = Some(extract_verb_form(&p.grammemes));

            if analysis.predicate_type.is_none() {
                let pred_type = check_predicate_type(wl, p.lemma.as_str());
                if pred_type != PredicateType::Neither {
                    analysis.predicate_type = Some(pred_type);
                }
            }
        }

        if analysis.pos == PartOfSpeech::Verb && is_first_person_plural(&p.grammemes) {
            analysis.is_social_interaction = true;
        }
    }

    analysis
}

/// Active voice on the raw word, as the rule-based variant judges it.
pub fn is_active_voice(word: &str) -> (r: bool)
    ensures
        r == crate::morphology::spec_is_active_voice(word@),
{
    MorphAnalyzer::is_active_voice(word)
}

/// Coordinating-conjunction test on the lowercased word.
pub fn is_coordinating_conjunction(word: &str) -> (r: bool)
    ensures
        r == lexicon::in_coordinating_conjunctions(lower_of(word@)),
{
    MorphAnalyzer::is_coordinating_conjunction(word)
}

/// Subordinating-conjunction test on the lowercased word.
pub fn is_subordinating_conjunction(word: &str) -> (r: bool)
    ensures
        r == lexicon::in_subordinating_conjunctions(lower_of(word@)),
{
    MorphAnalyzer::is_subordinating_conjunction(word)
}

} // verus!
