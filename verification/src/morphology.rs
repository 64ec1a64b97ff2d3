//! Rule-based morphological tagging of single Russian words.
//!
//! A word is tagged with a part of speech by an ordered rule list: the
//! preposition lexicon, the conjunction lexicon, the pronoun lexicon, the
//! predicate lexicons and suffix patterns for verbs, then adverb, adjective
//! and noun heuristics, with `Unknown` as the last resort. Independently of
//! the part of speech, five boolean category flags are taken from their own
//! lexicons. The whole tagger is deterministic: its result is a function of
//! the lowercase form of the word.

use vstd::prelude::*;

use crate::lexicon;
use crate::text::lower_of;
use crate::text::lowercase;
use crate::text::str_ends_with;
use crate::text::ends_with_str;
use crate::text::utf8_len;
use crate::text::utf8_len_gt;

verus! {

/// Part of speech categories.
#[derive(Debug, Clone, Copy, PartialEq, Eq, Structural)]
pub enum PartOfSpeech {
    Noun,
    Verb,
    Adjective,
    Adverb,
    Pronoun,
    Preposition,
    Conjunction,
    Numeral,
    Particle,
    Interjection,
    Unknown,
}

/// Verb tense.
#[derive(Debug, Clone, Copy, PartialEq, Eq, Structural)]
pub enum VerbTense {
    Past,
    Present,
    Future,
    Infinitive,
    Unknown,
}

/// Verb form.
#[derive(Debug, Clone, Copy, PartialEq, Eq, Structural)]
pub enum VerbForm {
    Finite,
    Infinitive,
    Participle,
    Gerund,
    Unknown,
}

/// Whether a verb names an observable outward action or an inner state.
#[derive(Debug, Clone, Copy, PartialEq, Eq, Structural)]
pub enum PredicateType {
    External,
    Internal,
    Neither,
}

/// Pronoun person.
#[derive(Debug, Clone, Copy, PartialEq, Eq, Structural)]
pub enum PronounPerson {
    First,
    Second,
    Third,
    Reflexive,
    Unknown,
}

/// Pronoun number.
#[derive(Debug, Clone, Copy, PartialEq, Eq, Structural)]
pub enum PronounNumber {
    Singular,
    Plural,
    Unknown,
}

/// Result of tagging one word.
#[derive(Debug, Clone)]
pub struct WordAnalysis {
    pub word: String,
    pub pos: PartOfSpeech,
    pub verb_tense: Option<VerbTense>,
    pub verb_form: Option<VerbForm>,
    pub predicate_type: Option<PredicateType>,
    pub pronoun_person: Option<PronounPerson>,
    pub pronoun_number: Option<PronounNumber>,
    pub is_filler: bool,
    pub is_stop_word: bool,
    pub is_emotion_word: bool,
    pub is_social_interaction: bool,
    pub is_egocentrism_marker: bool,
}

/// Mathematical view of a `WordAnalysis`.
pub struct WordAnalysisView {
    pub word: Seq<char>,
    pub pos: PartOfSpeech,
    pub verb_tense: Option<VerbTense>,
    pub verb_form: Option<VerbForm>,
    pub predicate_type: Option<PredicateType>,
    pub pronoun_person: Option<PronounPerson>,
    pub pronoun_number: Option<PronounNumber>,
    pub is_filler: bool,
    pub is_stop_word: bool,
    pub is_emotion_word: bool,
    pub is_social_interaction: bool,
    pub is_egocentrism_marker: bool,
}

impl View for WordAnalysis {
    type V = WordAnalysisView;

    open spec fn view(&self) -> WordAnalysisView {
        WordAnalysisView {
            word: self.word@,
            pos: self.pos,
            verb_tense: self.verb_tense,
            verb_form: self.verb_form,
            predicate_type: self.predicate_type,
            pronoun_person: self.pronoun_person,
            pronoun_number: self.pronoun_number,
            is_filler: self.is_filler,
            is_stop_word: self.is_stop_word,
            is_emotion_word: self.is_emotion_word,
            is_social_interaction: self.is_social_interaction,
            is_egocentrism_marker: self.is_egocentrism_marker,
        }
    }
}

/// A blank analysis of `w`: unknown part of speech, no verb or pronoun
/// detail, every flag off.
pub open spec fn spec_blank_analysis(w: Seq<char>) -> WordAnalysisView {
    WordAnalysisView {
        word: w,
        pos: PartOfSpeech::Unknown,
        verb_tense: None,
        verb_form: None,
        predicate_type: None,
        pronoun_person: None,
        pronoun_number: None,
        is_filler: false,
        is_stop_word: false,
        is_emotion_word: false,
        is_social_interaction: false,
        is_egocentrism_marker: false,
    }
}

impl WordAnalysis {
    pub fn new(word: &str) -> (r: WordAnalysis)
        ensures
            r@ == spec_blank_analysis(word@),
    {
        WordAnalysis {
            word: word.to_owned(),
            pos: PartOfSpeech::Unknown,
            verb_tense: None,
            verb_form: None,
            predicate_type: None,
            pronoun_person: None,
            pronoun_number: None,
            is_filler: false,
            is_stop_word: false,
            is_emotion_word: false,
            is_social_interaction: false,
            is_egocentrism_marker: false,
        }
    }
}

/// Pronoun person and number of a lowercase word, from the pronoun lexicons
/// in their fixed order. A possessive first-person form has unresolved
/// number, and the reflexive forms resolve to the reflexive person.
pub open spec fn spec_pronoun_info(w: Seq<char>) -> Option<(PronounPerson, PronounNumber)> {
    if lexicon::in_first_person_singular(w) {
        Some((PronounPerson::First, PronounNumber::Singular))
    } else if lexicon::in_first_person_plural(w) {
        Some((PronounPerson::First, PronounNumber::Plural))
    } else if lexicon::in_second_person_singular(w) {
        Some((PronounPerson::Second, PronounNumber::Singular))
    } else if lexicon::in_second_person_plural(w) {
        Some((PronounPerson::Second, PronounNumber::Plural))
    } else if lexicon::in_third_person_singular(w) {
        Some((PronounPerson::Third, PronounNumber::Singular))
    } else if lexicon::in_third_person_plural(w) {
        Some((PronounPerson::Third, PronounNumber::Plural))
    } else if lexicon::in_possessive_first_person(w) {
        if w == "себя"@ || w == "себе"@ || w == "собой"@ || w == "собою"@ {
            Some((PronounPerson::Reflexive, PronounNumber::Unknown))
        } else {
            Some((PronounPerson::First, PronounNumber::Unknown))
        }
    } else {
        None
    }
}

/// Predicate type of a lowercase word from the two predicate lexicons; the
/// internal lexicon is consulted first.
pub open spec fn spec_predicate_type(w: Seq<char>) -> PredicateType {
    if lexicon::in_internal_predicates(w) {
        PredicateType::Internal
    } else if lexicon::in_external_predicates(w) {
        PredicateType::External
    } else {
        PredicateType::Neither
    }
}

/// Tense and form of a word already known to be a verb, by the suffix
/// cascade, defaulting to the present finite form.
pub open spec fn spec_tense_form(w: Seq<char>) -> (VerbTense, VerbForm) {
    if lexicon::has_infinitive_ending(w) {
        (VerbTense::Infinitive, VerbForm::Infinitive)
    } else if lexicon::has_participle_ending(w) {
        (VerbTense::Unknown, VerbForm::Participle)
    } else if lexicon::gerund_form(w) {
        (VerbTense::Unknown, VerbForm::Gerund)
    } else if lexicon::has_past_tense_ending(w) {
        (VerbTense::Past, VerbForm::Finite)
    } else {
        (VerbTense::Present, VerbForm::Finite)
    }
}

/// Verb detection for a lowercase word: a word of either predicate lexicon
/// is a verb outright; otherwise the suffix cascade decides, in order:
/// infinitive, participle, gerund, past tense (only beyond three bytes),
/// present tense.
pub open spec fn spec_verb_info(w: Seq<char>) -> Option<(VerbTense, VerbForm, PredicateType)> {
    let pred = spec_predicate_type(w);
    if pred != PredicateType::Neither {
        Some((spec_tense_form(w).0, spec_tense_form(w).1, pred))
    } else if lexicon::has_infinitive_ending(w) {
        Some((VerbTense::Infinitive, VerbForm::Infinitive, pred))
    } else if lexicon::has_participle_ending(w) {
        Some((VerbTense::Unknown, VerbForm::Participle, pred))
    } else if lexicon::gerund_form(w) {
        Some((VerbTense::Unknown, VerbForm::Gerund, pred))
    } else if lexicon::has_past_tense_ending(w) && utf8_len(w) > 3 {
        Some((VerbTense::Past, VerbForm::Finite, pred))
    } else if lexicon::present_tense_form(w) {
        Some((VerbTense::Present, VerbForm::Finite, pred))
    } else {
        None
    }
}

/// Adverb test: the adverb lexicon, or the derivational heuristic for forms
/// in the two adverbial final letters with a long enough stem.
pub open spec fn spec_is_adverb(w: Seq<char>) -> bool {
    lexicon::in_known_adverbs(w) || (utf8_len(w) > 4 && (str_ends_with(w, "о"@) || str_ends_with(
        w,
        "е"@,
    )) && utf8_len(w) - 2 > 3)
}

/// Adjective test: an adjective ending on a word of more than four bytes.
pub open spec fn spec_is_adjective(w: Seq<char>) -> bool {
    lexicon::has_adjective_ending(w) && utf8_len(w) > 4
}

/// Noun fallback: any word of more than two bytes.
pub open spec fn spec_is_noun(w: Seq<char>) -> bool {
    utf8_len(w) > 2
}

/// Social-interaction marker: a first-person plural pronoun, or a verb
/// ending consistent with the first-person plural.
pub open spec fn spec_is_social_interaction(w: Seq<char>) -> bool {
    lexicon::in_first_person_plural(w) || str_ends_with(w, "ем"@) || str_ends_with(w, "им"@)
        || str_ends_with(w, "ём"@)
}

/// Egocentrism marker: a first-person singular pronoun or a first-person
/// possessive or reflexive form.
pub open spec fn spec_is_egocentrism_marker(w: Seq<char>) -> bool {
    lexicon::in_first_person_singular(w) || lexicon::in_possessive_first_person(w)
}

/// Active voice approximation: no reflexive suffix.
pub open spec fn spec_is_active_voice(w: Seq<char>) -> bool {
    !str_ends_with(w, "ся"@) && !str_ends_with(w, "сь"@)
}

/// The full tag of a lowercase word: category flags from their lexicons and
/// the part of speech from the ordered rule list, with pronoun or verb
/// detail filled in by the rule that fired. Opaque: callers work with the
/// tag as a value; `reveal` exposes the rule list itself.
#[verifier::opaque]
pub open spec fn spec_analyze(w: Seq<char>) -> WordAnalysisView {
    let base = WordAnalysisView {
        is_filler: lexicon::in_filler_words(w),
        is_stop_word: lexicon::in_stop_words(w),
        is_emotion_word: lexicon::in_emotion_words(w),
        is_egocentrism_marker: spec_is_egocentrism_marker(w),
        is_social_interaction: spec_is_social_interaction(w),
        ..spec_blank_analysis(w)
    };
    if lexicon::in_prepositions(w) {
        WordAnalysisView { pos: PartOfSpeech::Preposition, ..base }
    } else if lexicon::in_conjunctions(w) {
        WordAnalysisView { pos: PartOfSpeech::Conjunction, ..base }
    } else {
        match spec_pronoun_info(w) {
            Some(pn) => WordAnalysisView {
                pos: PartOfSpeech::Pronoun,
                pronoun_person: Some(pn.0),
                pronoun_number: Some(pn.1),
                ..base
            },
            None => match spec_verb_info(w) {
                Some(tfp) => WordAnalysisView {
                    pos: PartOfSpeech::Verb,
                    verb_tense: Some(tfp.0),
                    verb_form: Some(tfp.1),
                    predicate_type: Some(tfp.2),
                    ..base
                },
                None => if spec_is_adverb(w) {
                    WordAnalysisView { pos: PartOfSpeech::Adverb, ..base }
                } else if spec_is_adjective(w) {
                    WordAnalysisView { pos: PartOfSpeech::Adjective, ..base }
                } else if spec_is_noun(w) {
                    WordAnalysisView { pos: PartOfSpeech::Noun, ..base }
                } else {
                    base
                },
            },
        }
    }
}

/// Part of speech that the tagger gives a lowercase word.
pub open spec fn spec_pos(w: Seq<char>) -> PartOfSpeech {
    spec_analyze(w).pos
}

/// The rule-based morphological analyzer.
pub struct MorphAnalyzer;

impl MorphAnalyzer {
    pub fn new() -> (r: MorphAnalyzer) {
        MorphAnalyzer
    }

    /// Tag one word. The word is lowercased first; the tag is a function of
    /// that lowercase form alone.
    pub fn analyze(&self, word: &str) -> (r: WordAnalysis)
        ensures
            r@ == spec_analyze(lower_of(word@)),
    {
        proof {
            reveal(spec_analyze);
        }
        let word_lower = lowercase(word);
        let mut analysis = WordAnalysis::new(word_lower.as_str());

        analysis.is_filler = Self::is_filler_word(word_lower.as_str());
        analysis.is_stop_word = Self::is_stop_word(word_lower.as_str());
        analysis.is_emotion_word = Self::is_emotion_word(word_lower.as_str());
        analysis.is_egocentrism_marker = Self::is_egocentrism_marker(word_lower.as_str());

        if Self::is_preposition(word_lower.as_str()) {
            analysis.pos = PartOfSpeech::Preposition;
        } else if Self::is_conjunction(word_lower.as_str()) {
            analysis.pos = PartOfSpeech::Conjunction;
        } else if let Some((person, number)) = Self::get_pronoun_info(word_lower.as_str()) {
            analysis.pos = PartOfSpeech::Pronoun;
            analysis.pronoun_person = Some(person);
            analysis.pronoun_number = Some(number);
        } else if let Some((tense, form, pred_type)) = Self::analyze_verb(word_lower.as_str()) {
            analysis.pos = PartOfSpeech::Verb;
            analysis.verb_tense = Some(tense);
            analysis.verb_form = Some(form);
            analysis.predicate_type = Some(pred_type);
        } else if Self::is_adverb(word_lower.as_str()) {
            analysis.pos = PartOfSpeech::Adverb;
        } else if Self::is_adjective(word_lower.as_str()) {
            analysis.pos = PartOfSpeech::Adjective;
        } else if Self::is_noun(word_lower.as_str()) {
            analysis.pos = PartOfSpeech::Noun;
        }

        analysis.is_social_interaction = Self::is_social_interaction_word(word_lower.as_str());

        analysis
    }

    pub fn is_preposition(word: &str) -> (r: bool)
        ensures
            r == lexicon::in_prepositions(word@),
    {
        lexicon::check_prepositions(word)
    }

    pub fn is_conjunction(word: &str) -> (r: bool)
        ensures
            r == lexicon::in_conjunctions(word@),
    {
        lexicon::check_conjunctions(word)
    }

    /// Whether the word, lowercased, is a coordinating conjunction.
    pub fn is_coordinating_conjunction(word: &str) -> (r: bool)
        ensures
            r == lexicon::in_coordinating_conjunctions(lower_of(word@)),
    {
        let word_lower = lowercase(word);
        lexicon::check_coordinating_conjunctions(word_lower.as_str())
    }

    /// Whether the word, lowercased, is a subordinating conjunction.
    pub fn is_subordinating_conjunction(word: &str) -> (r: bool)
        ensures
            r == lexicon::in_subordinating_conjunctions(lower_of(word@)),
    {
        let word_lower = lowercase(word);
        lexicon::check_subordinating_conjunctions(word_lower.as_str())
    }

    pub fn get_pronoun_info(word: &str) -> (r: Option<(PronounPerson, PronounNumber)>)
        ensures
            r == spec_pronoun_info(word@),
    {
        if lexicon::check_first_person_singular(word) {
            return Some((PronounPerson::First, PronounNumber::Singular));
        }
        if lexicon::check_first_person_plural(word) {
            return Some((PronounPerson::First, PronounNumber::Plural));
        }
        if lexicon::check_second_person_singular(word) {
            return Some((PronounPerson::Second, PronounNumber::Singular));
        }
        if lexicon::check_second_person_plural(word) {
            return Some((PronounPerson::Second, PronounNumber::Plural));
        }
        if lexicon::check_third_person_singular(word) {
            return Some((PronounPerson::Third, PronounNumber::Singular));
        }
        if lexicon::check_third_person_plural(word) {
            return Some((PronounPerson::Third, PronounNumber::Plural));
        }
        if lexicon::check_possessive_first_person(word) {
            if crate::text::str_eq(word, "себя") || crate::text::str_eq(word, "себе")
                || crate::text::str_eq(word, "собой") || crate::text::str_eq(word, "собою") {
                return Some((PronounPerson::Reflexive, PronounNumber::Unknown));
            }
            return Some((PronounPerson::First, PronounNumber::Unknown));
        }
        None
    }

    pub fn analyze_verb(word: &str) -> (r: Option<(VerbTense, VerbForm, PredicateType)>)
        ensures
            r == spec_verb_info(word@),
    {
        let is_internal = lexicon::check_internal_predicates(word);
        let is_external = lexicon::check_external_predicates(word);

        let pred_type = if is_internal {
            PredicateType::Internal
        } else if is_external {
            PredicateType::External
        } else {
            PredicateType::Neither
        };

        if is_internal || is_external {
            let (tense, form) = Self::determine_verb_tense_form(word);
            return Some((tense, form, pred_type));
        }

        if lexicon::check_infinitive_ending(word) {
            return Some((VerbTense::Infinitive, VerbForm::Infinitive, pred_type));
        }

        if lexicon::check_participle_ending(word) {
            return Some((VerbTense::Unknown, VerbForm::Participle, pred_type));
        }

        if Self::is_gerund(word) {
            return Some((VerbTense::Unknown, VerbForm::Gerund, pred_type));
        }

        if lexicon::check_past_tense_ending(word) && utf8_len_gt(word, 3) {
            return Some((VerbTense::Past, VerbForm::Finite, pred_type));
        }

        if Self::looks_like_present_tense(word) {
            return Some((VerbTense::Present, VerbForm::Finite, pred_type));
        }

        None
    }

    pub fn determine_verb_tense_form(word: &str) -> (r: (VerbTense, VerbForm))
        ensures
            r == spec_tense_form(word@),
    {
        if lexicon::check_infinitive_ending(word) {
            return (VerbTense::Infinitive, VerbForm::Infinitive);
        }
        if lexicon::check_participle_ending(word) {
            return (VerbTense::Unknown, VerbForm::Participle);
        }
        if Self::is_gerund(word) {
            return (VerbTense::Unknown, VerbForm::Gerund);
        }
        if lexicon::check_past_tense_ending(word) {
            return (VerbTense::Past, VerbForm::Finite);
        }
        (VerbTense::Present, VerbForm::Finite)
    }

    pub fn is_gerund(word: &str) -> (r: bool)
        ensures
            r == lexicon::gerund_form(word@),
    {
        lexicon::check_gerund_form(word)
    }

    pub fn looks_like_present_tense(word: &str) -> (r: bool)
        ensures
            r == lexicon::present_tense_form(word@),
    {
        lexicon::check_present_tense_form(word)
    }

    pub fn is_adverb(word: &str) -> (r: bool)
        ensures
            r == spec_is_adverb(word@),
    {
        lexicon::check_known_adverbs(word) || (utf8_len_gt(word, 4) && (ends_with_str(word, "о")
            || ends_with_str(word, "е")) && utf8_len_gt(word, 5))
    }

    pub fn is_adjective(word: &str) -> (r: bool)
        ensures
            r == spec_is_adjective(word@),
    {
        lexicon::check_adjective_ending(word) && utf8_len_gt(word, 4)
    }

    pub fn is_noun(word: &str) -> (r: bool)
        ensures
            r == spec_is_noun(word@),
    {
        utf8_len_gt(word, 2)
    }

    pub fn is_filler_word(word: &str) -> (r: bool)
        ensures
            r == lexicon::in_filler_words(word@),
    {
        lexicon::check_filler_words(word)
    }

    pub fn is_stop_word(word: &str) -> (r: bool)
        ensures
            r == lexicon::in_stop_words(word@),
    {
        lexicon::check_stop_words(word)
    }

    pub fn is_emotion_word(word: &str) -> (r: bool)
        ensures
            r == lexicon::in_emotion_words(word@),
    {
        lexicon::check_emotion_words(word)
    }

    pub fn is_egocentrism_marker(word: &str) -> (r: bool)
        ensures
            r == spec_is_egocentrism_marker(word@),
    {
        lexicon::check_first_person_singular(word) || lexicon::check_possessive_first_person(word)
    }

    pub fn is_social_interaction_word(word: &str) -> (r: bool)
        ensures
            r == spec_is_social_interaction(word@),
    {
        if lexicon::check_first_person_plural(word) {
            return true;
        }
        if ends_with_str(word, "ем") || ends_with_str(word, "им") || ends_with_str(word, "ём") {
            return true;
        }
        false
    }

    /// Active-voice approximation on the raw word: a verb is taken as active
    /// unless it carries a reflexive suffix.
    pub fn is_active_voice(word: &str) -> (r: bool)
        ensures
            r == spec_is_active_voice(word@),
    {
        !ends_with_str(word, "ся") && !ends_with_str(word, "сь")
    }
}

} // verus!
