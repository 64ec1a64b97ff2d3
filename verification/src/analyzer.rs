//! Aggregation of per-word tags and per-sentence classifications into one
//! vector of counts over a whole text.
//!
//! The text is cut into word tokens on Unicode word boundaries; tokens with
//! no alphabetic character are dropped. When no token is left the result is
//! the zero vector and nothing else runs. Otherwise every token is tagged,
//! every sentence is classified, and the counts are tallied. Each per-word
//! counter counts tokens, so the share of a category is the counter over
//! `total_words`; the percentage fields reported downstream are
//! `100 * count / total_words`.

use vstd::prelude::*;

use crate::morphology::MorphAnalyzer;
use crate::morphology::PartOfSpeech;
use crate::morphology::PronounNumber;
use crate::morphology::PronounPerson;
use crate::morphology::VerbForm;
use crate::morphology::VerbTense;
use crate::morphology::PredicateType;
use crate::morphology::WordAnalysis;
use crate::morphology::WordAnalysisView;
use crate::morphology::spec_analyze;
use crate::morphology::spec_is_active_voice;
use crate::sentence::SentenceAnalyzer;
use crate::sentence::SentenceAnalysisView;
use crate::sentence::SentenceType;
use crate::sentence::spec_analyze_text;
use crate::text::contains_alpha;
use crate::text::lower_of;
use crate::text::lowercase;
use crate::text::str_contains_alpha;
use crate::text::str_eq;
use unicode_segmentation::UnicodeSegmentation;

verus! {

/// Word substrings of a text under UAX 29 word boundaries, keeping those
/// with an alphanumeric character, as unicode_words returns them.
pub uninterp spec fn uwords_of(t: Seq<char>) -> Seq<Seq<char>>;

/// Relies on UnicodeSegmentation::unicode_words: the word tokens of a text
/// depend on the text alone, and they are disjoint non-empty substrings of
/// it, so there are at most as many tokens as characters.
#[verifier::external_body]
fn unicode_word_tokens(text: &str) -> (r: Vec<String>)
    ensures
        r.deep_view() == uwords_of(text@),
        r@.len() <= text@.len(),
{
    text.unicode_words().map(|w| w.to_string()).collect()
}

/// The word tokens that carry at least one alphabetic character.
pub open spec fn filter_alpha(ws: Seq<Seq<char>>) -> Seq<Seq<char>>
    decreases ws.len(),
{
    if ws.len() == 0 {
        Seq::empty()
    } else {
        filter_alpha(ws.drop_last()) + (if contains_alpha(ws.last()) {
            seq![ws.last()]
        } else {
            Seq::empty()
        })
    }
}

/// The word tokens of a text that the analysis keeps.
pub open spec fn spec_extracted_words(t: Seq<char>) -> Seq<Seq<char>> {
    filter_alpha(uwords_of(t))
}

/// The lowercase form of each token.
pub open spec fn lowered_views(ws: Seq<Seq<char>>) -> Seq<Seq<char>> {
    ws.map_values(|w: Seq<char>| lower_of(w))
}

/// Number of distinct sequences in `ws`.
pub open spec fn distinct_count(ws: Seq<Seq<char>>) -> nat
    decreases ws.len(),
{
    if ws.len() == 0 {
        0
    } else {
        (distinct_count(ws.drop_last()) + (if ws.drop_last().contains(ws.last()) {
            0nat
        } else {
            1nat
        })) as nat
    }
}

proof fn lemma_distinct_count_le_len(ws: Seq<Seq<char>>)
    ensures
        distinct_count(ws) <= ws.len(),
    decreases ws.len(),
{
    if ws.len() > 0 {
        lemma_distinct_count_le_len(ws.drop_last());
    }
}

/// Number of sentences of the given type.
pub open spec fn count_sentence_type(ss: Seq<SentenceAnalysisView>, ty: SentenceType) -> nat
    decreases ss.len(),
{
    if ss.len() == 0 {
        0
    } else {
        (count_sentence_type(ss.drop_last(), ty) + (if ss.last().sentence_type == ty {
            1nat
        } else {
            0nat
        })) as nat
    }
}

/// Every sentence has exactly one type, so the four type counts sum to the
/// sentence count.
pub proof fn lemma_sentence_type_counts_sum(ss: Seq<SentenceAnalysisView>)
    ensures
        count_sentence_type(ss, SentenceType::Simple) + count_sentence_type(
            ss,
            SentenceType::Compound,
        ) + count_sentence_type(ss, SentenceType::Complex) + count_sentence_type(
            ss,
            SentenceType::RunOn,
        ) == ss.len(),
    decreases ss.len(),
{
    if ss.len() > 0 {
        lemma_sentence_type_counts_sum(ss.drop_last());
    }
}

/// Per-word counters tallied over the kept tokens of a text.
pub struct WordCounters {
    pub nouns: usize,
    pub adjectives: usize,
    pub adverbs: usize,
    pub prepositions: usize,
    pub conjunctions: usize,
    pub first_person_singular: usize,
    pub first_person_plural: usize,
    pub second_person_singular: usize,
    pub second_person_plural: usize,
    pub third_person_singular: usize,
    pub third_person_plural: usize,
    pub past_tense: usize,
    pub present_tense: usize,
    pub future_tense: usize,
    pub infinitives: usize,
    pub non_finite_forms: usize,
    pub active_voice: usize,
    pub external_predicates: usize,
    pub internal_predicates: usize,
    pub filler_words: usize,
    pub stop_words: usize,
    pub emotion_words: usize,
    pub social_interaction_words: usize,
    pub egocentrism_markers: usize,
}

/// Mathematical view of the per-word counters.
pub struct WordTally {
    pub nouns: int,
    pub adjectives: int,
    pub adverbs: int,
    pub prepositions: int,
    pub conjunctions: int,
    pub first_person_singular: int,
    pub first_person_plural: int,
    pub second_person_singular: int,
    pub second_person_plural: int,
    pub third_person_singular: int,
    pub third_person_plural: int,
    pub past_tense: int,
    pub present_tense: int,
    pub future_tense: int,
    pub infinitives: int,
    pub non_finite_forms: int,
    pub active_voice: int,
    pub external_predicates: int,
    pub internal_predicates: int,
    pub filler_words: int,
    pub stop_words: int,
    pub emotion_words: int,
    pub social_interaction_words: int,
    pub egocentrism_markers: int,
}

impl View for WordCounters {
    type V = WordTally;

    open spec fn view(&self) -> WordTally {
        WordTally {
            nouns: self.nouns as int,
            adjectives: self.adjectives as int,
            adverbs: self.adverbs as int,
            prepositions: self.prepositions as int,
            conjunctions: self.conjunctions as int,
            first_person_singular: self.first_person_singular as int,
            first_person_plural: self.first_person_plural as int,
            second_person_singular: self.second_person_singular as int,
            second_person_plural: self.second_person_plural as int,
            third_person_singular: self.third_person_singular as int,
            third_person_plural: self.third_person_plural as int,
            past_tense: self.past_tense as int,
            present_tense: self.present_tense as int,
            future_tense: self.future_tense as int,
            infinitives: self.infinitives as int,
            non_finite_forms: self.non_finite_forms as int,
            active_voice: self.active_voice as int,
            external_predicates: self.external_predicates as int,
            internal_predicates: self.internal_predicates as int,
            filler_words: self.filler_words as int,
            stop_words: self.stop_words as int,
            emotion_words: self.emotion_words as int,
            social_interaction_words: self.social_interaction_words as int,
            egocentrism_markers: self.egocentrism_markers as int,
        }
    }
}

/// The zero tally.
pub open spec fn spec_zero_tally() -> WordTally {
    WordTally {
        nouns: 0,
        adjectives: 0,
        adverbs: 0,
        prepositions: 0,
        conjunctions: 0,
        first_person_singular: 0,
        first_person_plural: 0,
        second_person_singular: 0,
        second_person_plural: 0,
        third_person_singular: 0,
        third_person_plural: 0,
        past_tense: 0,
        present_tense: 0,
        future_tense: 0,
        infinitives: 0,
        non_finite_forms: 0,
        active_voice: 0,
        external_predicates: 0,
        internal_predicates: 0,
        filler_words: 0,
        stop_words: 0,
        emotion_words: 0,
        social_interaction_words: 0,
        egocentrism_markers: 0,
    }
}

/// Pronoun counting: first-person singular, possessive first-person and
/// reflexive forms all feed the first-person singular counter; the other
/// person and number pairs feed their own counters.
pub open spec fn spec_count_pronoun(c: WordTally, a: WordAnalysisView) -> WordTally {
    match (a.pronoun_person, a.pronoun_number) {
        (Some(PronounPerson::First), Some(PronounNumber::Singular)) => WordTally {
            first_person_singular: c.first_person_singular + 1,
            ..c
        },
        (Some(PronounPerson::First), Some(PronounNumber::Plural)) => WordTally {
            first_person_plural: c.first_person_plural + 1,
            ..c
        },
        (Some(PronounPerson::Second), Some(PronounNumber::Singular)) => WordTally {
            second_person_singular: c.second_person_singular + 1,
            ..c
        },
        (Some(PronounPerson::Second), Some(PronounNumber::Plural)) => WordTally {
            second_person_plural: c.second_person_plural + 1,
            ..c
        },
        (Some(PronounPerson::Third), Some(PronounNumber::Singular)) => WordTally {
            third_person_singular: c.third_person_singular + 1,
            ..c
        },
        (Some(PronounPerson::Third), Some(PronounNumber::Plural)) => WordTally {
            third_person_plural: c.third_person_plural + 1,
            ..c
        },
        (Some(PronounPerson::First), Some(PronounNumber::Unknown)) => WordTally {
            first_person_singular: c.first_person_singular + 1,
            ..c
        },
        (Some(PronounPerson::Reflexive), _) => WordTally {
            first_person_singular: c.first_person_singular + 1,
            ..c
        },
        _ => c,
    }
}

/// Verb counting: one tense counter, the non-finite counter for participles
/// and gerunds, one predicate-type counter, and the active-voice counter
/// judged on the raw token.
pub open spec fn spec_count_verb(c: WordTally, a: WordAnalysisView, w: Seq<char>) -> WordTally {
    let c1 = match a.verb_tense {
        Some(VerbTense::Past) => WordTally { past_tense: c.past_tense + 1, ..c },
        Some(VerbTense::Present) => WordTally { present_tense: c.present_tense + 1, ..c },
        Some(VerbTense::Future) => WordTally { future_tense: c.future_tense + 1, ..c },
        Some(VerbTense::Infinitive) => WordTally { infinitives: c.infinitives + 1, ..c },
        _ => c,
    };
    let c2 = match a.verb_form {
        Some(VerbForm::Participle) => WordTally { non_finite_forms: c1.non_finite_forms + 1, ..c1 },
        Some(VerbForm::Gerund) => WordTally { non_finite_forms: c1.non_finite_forms + 1, ..c1 },
        _ => c1,
    };
    let c3 = match a.predicate_type {
        Some(PredicateType::External) => WordTally {
            external_predicates: c2.external_predicates + 1,
            ..c2
        },
        Some(PredicateType::Internal) => WordTally {
            internal_predicates: c2.internal_predicates + 1,
            ..c2
        },
        _ => c2,
    };
    if spec_is_active_voice(w) {
        WordTally { active_voice: c3.active_voice + 1, ..c3 }
    } else {
        c3
    }
}

/// Counting for one word: the part-of-speech counters, then the independent
/// category flags.
pub open spec fn spec_add_word(c: WordTally, w: Seq<char>) -> WordTally {
    let a = spec_analyze(lower_of(w));
    let c1 = match a.pos {
        PartOfSpeech::Noun => WordTally { nouns: c.nouns + 1, ..c },
        PartOfSpeech::Adjective => WordTally { adjectives: c.adjectives + 1, ..c },
        PartOfSpeech::Adverb => WordTally { adverbs: c.adverbs + 1, ..c },
        PartOfSpeech::Preposition => WordTally { prepositions: c.prepositions + 1, ..c },
        PartOfSpeech::Conjunction => WordTally { conjunctions: c.conjunctions + 1, ..c },
        PartOfSpeech::Pronoun => spec_count_pronoun(c, a),
        PartOfSpeech::Verb => spec_count_verb(c, a, w),
        _ => c,
    };
    let c2 = if a.is_filler {
        WordTally { filler_words: c1.filler_words + 1, ..c1 }
    } else {
        c1
    };
    let c3 = if a.is_stop_word {
        WordTally { stop_words: c2.stop_words + 1, ..c2 }
    } else {
        c2
    };
    let c4 = if a.is_emotion_word {
        WordTally { emotion_words: c3.emotion_words + 1, ..c3 }
    } else {
        c3
    };
    let c5 = if a.is_social_interaction {
        WordTally { social_interaction_words: c4.social_interaction_words + 1, ..c4 }
    } else {
        c4
    };
    if a.is_egocentrism_marker {
        WordTally { egocentrism_markers: c5.egocentrism_markers + 1, ..c5 }
    } else {
        c5
    }
}

/// The tally over a whole token list.
pub open spec fn tally_words(ws: Seq<Seq<char>>) -> WordTally
    decreases ws.len(),
{
    if ws.len() == 0 {
        spec_zero_tally()
    } else {
        spec_add_word(tally_words(ws.drop_last()), ws.last())
    }
}

/// Each counter of the tally counts a subset of the words, so none exceeds
/// the number of words.
#[verifier::rlimit(100)]
#[verifier::spinoff_prover]
pub proof fn lemma_tally_bounds(ws: Seq<Seq<char>>)
    ensures
        0 <= tally_words(ws).nouns <= ws.len(),
        0 <= tally_words(ws).adjectives <= ws.len(),
        0 <= tally_words(ws).adverbs <= ws.len(),
        0 <= tally_words(ws).prepositions <= ws.len(),
        0 <= tally_words(ws).conjunctions <= ws.len(),
        0 <= tally_words(ws).first_person_singular <= ws.len(),
        0 <= tally_words(ws).first_person_plural <= ws.len(),
        0 <= tally_words(ws).second_person_singular <= ws.len(),
        0 <= tally_words(ws).second_person_plural <= ws.len(),
        0 <= tally_words(ws).third_person_singular <= ws.len(),
        0 <= tally_words(ws).third_person_plural <= ws.len(),
        0 <= tally_words(ws).past_tense <= ws.len(),
        0 <= tally_words(ws).present_tense <= ws.len(),
        0 <= tally_words(ws).future_tense <= ws.len(),
        0 <= tally_words(ws).infinitives <= ws.len(),
        0 <= tally_words(ws).non_finite_forms <= ws.len(),
        0 <= tally_words(ws).active_voice <= ws.len(),
        0 <= tally_words(ws).external_predicates <= ws.len(),
        0 <= tally_words(ws).internal_predicates <= ws.len(),
        0 <= tally_words(ws).filler_words <= ws.len(),
        0 <= tally_words(ws).stop_words <= ws.len(),
        0 <= tally_words(ws).emotion_words <= ws.len(),
        0 <= tally_words(ws).social_interaction_words <= ws.len(),
        0 <= tally_words(ws).egocentrism_markers <= ws.len(),
    decreases ws.len(),
{
    if ws.len() > 0 {
        lemma_tally_bounds(ws.drop_last());
    }
}

/// Aggregated counts over one text. `total_words` and `total_sentences` and
/// the four sentence-type fields are absolute counts; every other field
/// counts the tokens of one category, and the corresponding percentage is
/// `100 * count / total_words`.
#[derive(Debug, Clone, PartialEq, Eq, Structural)]
pub struct TextCounts {
    pub total_words: usize,
    pub total_sentences: usize,
    pub run_on_sentences: usize,
    pub compound_sentences: usize,
    pub complex_sentences: usize,
    pub simple_sentences: usize,
    pub distinct_words: usize,
    pub external_predicates: usize,
    pub internal_predicates: usize,
    pub active_voice_verbs: usize,
    pub past_tense_verbs: usize,
    pub present_tense_verbs: usize,
    pub future_tense_verbs: usize,
    pub infinitives: usize,
    pub non_finite_verb_forms: usize,
    pub adjectives: usize,
    pub nouns: usize,
    pub adverbs: usize,
    pub first_person_singular_pronouns: usize,
    pub first_person_plural_pronouns: usize,
    pub second_person_singular_pronouns: usize,
    pub second_person_plural_pronouns: usize,
    pub third_person_singular_pronouns: usize,
    pub third_person_plural_pronouns: usize,
    pub filler_words: usize,
    pub stop_words: usize,
    pub prepositions: usize,
    pub conjunctions: usize,
    pub social_interaction_words: usize,
    pub emotion_words: usize,
    pub egocentrism_markers: usize,
}

/// The zero vector of counts.
pub open spec fn spec_zero_counts() -> TextCounts {
    TextCounts {
        total_words: 0,
        total_sentences: 0,
        run_on_sentences: 0,
        compound_sentences: 0,
        complex_sentences: 0,
        simple_sentences: 0,
        distinct_words: 0,
        external_predicates: 0,
        internal_predicates: 0,
        active_voice_verbs: 0,
        past_tense_verbs: 0,
        present_tense_verbs: 0,
        future_tense_verbs: 0,
        infinitives: 0,
        non_finite_verb_forms: 0,
        adjectives: 0,
        nouns: 0,
        adverbs: 0,
        first_person_singular_pronouns: 0,
        first_person_plural_pronouns: 0,
        second_person_singular_pronouns: 0,
        second_person_plural_pronouns: 0,
        third_person_singular_pronouns: 0,
        third_person_plural_pronouns: 0,
        filler_words: 0,
        stop_words: 0,
        prepositions: 0,
        conjunctions: 0,
        social_interaction_words: 0,
        emotion_words: 0,
        egocentrism_markers: 0,
    }
}

impl TextCounts {
    pub fn new() -> (r: TextCounts)
        ensures
            r == spec_zero_counts(),
    {
        TextCounts {
            total_words: 0,
            total_sentences: 0,
            run_on_sentences: 0,
            compound_sentences: 0,
            complex_sentences: 0,
            simple_sentences: 0,
            distinct_words: 0,
            external_predicates: 0,
            internal_predicates: 0,
            active_voice_verbs: 0,
            past_tense_verbs: 0,
            present_tense_verbs: 0,
            future_tense_verbs: 0,
            infinitives: 0,
            non_finite_verb_forms: 0,
            adjectives: 0,
            nouns: 0,
            adverbs: 0,
            first_person_singular_pronouns: 0,
            first_person_plural_pronouns: 0,
            second_person_singular_pronouns: 0,
            second_person_plural_pronouns: 0,
            third_person_singular_pronouns: 0,
            third_person_plural_pronouns: 0,
            filler_words: 0,
            stop_words: 0,
            prepositions: 0,
            conjunctions: 0,
            social_interaction_words: 0,
            emotion_words: 0,
            egocentrism_markers: 0,
        }
    }
}

/// The whole analysis as a function of the text: kept tokens, sentence
/// classification, distinct lowercase forms, and the per-word tally. With no
/// kept token the result is the zero vector and nothing else is consulted.
pub open spec fn spec_analyze_counts(t: Seq<char>) -> TextCounts {
    let ws = spec_extracted_words(t);
    if ws.len() == 0 {
        spec_zero_counts()
    } else {
        let ss = spec_analyze_text(t);
        let tly = tally_words(ws);
        let ls = lowered_views(ws);
        TextCounts {
            total_words: ws.len() as usize,
            total_sentences: ss.len() as usize,
            run_on_sentences: count_sentence_type(ss, SentenceType::RunOn) as usize,
            compound_sentences: count_sentence_type(ss, SentenceType::Compound) as usize,
            complex_sentences: count_sentence_type(ss, SentenceType::Complex) as usize,
            simple_sentences: count_sentence_type(ss, SentenceType::Simple) as usize,
            distinct_words: distinct_count(ls) as usize,
            external_predicates: tly.external_predicates as usize,
            internal_predicates: tly.internal_predicates as usize,
            active_voice_verbs: tly.active_voice as usize,
            past_tense_verbs: tly.past_tense as usize,
            present_tense_verbs: tly.present_tense as usize,
            future_tense_verbs: tly.future_tense as usize,
            infinitives: tly.infinitives as usize,
            non_finite_verb_forms: tly.non_finite_forms as usize,
            adjectives: tly.adjectives as usize,
            nouns: tly.nouns as usize,
            adverbs: tly.adverbs as usize,
            first_person_singular_pronouns: tly.first_person_singular as usize,
            first_person_plural_pronouns: tly.first_person_plural as usize,
            second_person_singular_pronouns: tly.second_person_singular as usize,
            second_person_plural_pronouns: tly.second_person_plural as usize,
            third_person_singular_pronouns: tly.third_person_singular as usize,
            third_person_plural_pronouns: tly.third_person_plural as usize,
            filler_words: tly.filler_words as usize,
            stop_words: tly.stop_words as usize,
            prepositions: tly.prepositions as usize,
            conjunctions: tly.conjunctions as usize,
            social_interaction_words: tly.social_interaction_words as usize,
            emotion_words: tly.emotion_words as usize,
            egocentrism_markers: tly.egocentrism_markers as usize,
        }
    }
}

/// Every per-word counter, and the count of distinct forms, is at most the
/// total word count; the sentence-type counts sum to the sentence count.
/// So every percentage `100 * count / total_words` lies between 0 and 100.
pub open spec fn spec_counts_wf(m: TextCounts) -> bool {
    &&& m.distinct_words <= m.total_words
    &&& m.external_predicates <= m.total_words
    &&& m.internal_predicates <= m.total_words
    &&& m.active_voice_verbs <= m.total_words
    &&& m.past_tense_verbs <= m.total_words
    &&& m.present_tense_verbs <= m.total_words
    &&& m.future_tense_verbs <= m.total_words
    &&& m.infinitives <= m.total_words
    &&& m.non_finite_verb_forms <= m.total_words
    &&& m.adjectives <= m.total_words
    &&& m.nouns <= m.total_words
    &&& m.adverbs <= m.total_words
    &&& m.first_person_singular_pronouns <= m.total_words
    &&& m.first_person_plural_pronouns <= m.total_words
    &&& m.second_person_singular_pronouns <= m.total_words
    &&& m.second_person_plural_pronouns <= m.total_words
    &&& m.third_person_singular_pronouns <= m.total_words
    &&& m.third_person_plural_pronouns <= m.total_words
    &&& m.filler_words <= m.total_words
    &&& m.stop_words <= m.total_words
    &&& m.prepositions <= m.total_words
    &&& m.conjunctions <= m.total_words
    &&& m.social_interaction_words <= m.total_words
    &&& m.emotion_words <= m.total_words
    &&& m.egocentrism_markers <= m.total_words
    &&& m.simple_sentences + m.compound_sentences + m.complex_sentences + m.run_on_sentences
        == m.total_sentences
}

/// The count vector of every text is well formed: each per-word counter and
/// the distinct-form count stay within the total word count, and the four
/// sentence-type counts sum to the sentence count. The token and sentence
/// sequences of a real text always fit in usize.
pub proof fn lemma_analyze_counts_wf(t: Seq<char>)
    requires
        spec_extracted_words(t).len() <= usize::MAX,
        spec_analyze_text(t).len() <= usize::MAX,
    ensures
        spec_counts_wf(spec_analyze_counts(t)),
{
    let ws = spec_extracted_words(t);
    if ws.len() > 0 {
        lemma_tally_bounds(ws);
        lemma_distinct_count_le_len(lowered_views(ws));
        lemma_sentence_type_counts_sum(spec_analyze_text(t));
    }
}

/// The analysis is deterministic: two count vectors computed from the same
/// text are equal.
pub proof fn lemma_analyze_deterministic(a: TextCounts, b: TextCounts, t: Seq<char>)
    requires
        a == spec_analyze_counts(t),
        b == spec_analyze_counts(t),
    ensures
        a == b,
{
}

/// A text with no kept token yields the zero vector: every count, and so
/// every percentage, is zero.
pub proof fn lemma_no_words_zero_counts(t: Seq<char>)
    requires
        spec_extracted_words(t).len() == 0,
    ensures
        spec_analyze_counts(t) == spec_zero_counts(),
{
}

/// The main analyzer: tokenization, tagging and sentence classification over
/// one text.
pub struct TextAnalyzer {
    morph: MorphAnalyzer,
    sentence_analyzer: SentenceAnalyzer,
}

impl TextAnalyzer {
    pub fn new() -> (r: TextAnalyzer) {
        TextAnalyzer { morph: MorphAnalyzer::new(), sentence_analyzer: SentenceAnalyzer::new() }
    }

    /// The word tokens of the text that carry an alphabetic character.
    pub fn extract_words(text: &str) -> (r: Vec<String>)
        ensures
            r.deep_view() == spec_extracted_words(text@),
            r@.len() <= text@.len(),
    {
        let words = unicode_word_tokens(text);
        let ghost uws = uwords_of(text@);
        let mut acc: Vec<String> = Vec::new();
        let mut i: usize = 0;
        while i < words.len()
            invariant
                i <= words@.len(),
                words.deep_view() == uws,
                acc@.len() <= i,
                acc.deep_view() == filter_alpha(uws.take(i as int)),
            decreases words@.len() - i,
        {
            proof {
                assert(uws.take(i as int + 1).drop_last() =~= uws.take(i as int));
                assert(uws.take(i as int + 1).last() == uws[i as int]);
                assert(words.deep_view()[i as int] == words@[i as int]@);
            }
            let ghost pre = acc.deep_view();
            if str_contains_alpha(words[i].as_str()) {
                let w = words[i].clone();
                acc.push(w);
                proof {
                    assert(acc.deep_view() =~= pre.push(uws[i as int]));
                    assert(pre.push(uws[i as int]) =~= filter_alpha(uws.take(i as int + 1)));
                }
            } else {
                assert(acc.deep_view() =~= filter_alpha(uws.take(i as int + 1)));
            }
            i = i + 1;
        }
        proof {
            assert(uws.take(words@.len() as int) =~= uws);
        }
        acc
    }

    /// Count the distinct lowercase forms among the tokens.
    fn count_distinct_lowered(words: &Vec<String>) -> (r: usize)
        ensures
            r == distinct_count(lowered_views(words.deep_view())),
    {
        let ghost ls = lowered_views(words.deep_view());
        let mut count: usize = 0;
        let mut i: usize = 0;
        while i < words.len()
            invariant
                i <= words@.len(),
                ls == lowered_views(words.deep_view()),
                ls.len() == words@.len(),
                count <= i,
                count == distinct_count(ls.take(i as int)),
            decreases words@.len() - i,
        {
            let low = lowercase(words[i].as_str());
            proof {
                assert(words.deep_view()[i as int] == words@[i as int]@);
                assert(ls[i as int] == lower_of(words.deep_view()[i as int]));
                assert(ls.take(i as int + 1).drop_last() =~= ls.take(i as int));
                assert(ls.take(i as int + 1).last() == ls[i as int]);
            }
            let mut found = false;
            let mut j: usize = 0;
            while j < i
                invariant
                    j <= i < ls.len(),
                    ls == lowered_views(words.deep_view()),
                    ls.len() == words@.len(),
                    low@ == ls[i as int],
                    found <==> exists|t: int| 0 <= t < j && ls[t] == ls[i as int],
                decreases i - j,
            {
                let other = lowercase(words[j].as_str());
                proof {
                    assert(words.deep_view()[j as int] == words@[j as int]@);
                    assert(ls[j as int] == lower_of(words.deep_view()[j as int]));
                }
                if str_eq(other.as_str(), low.as_str()) {
                    found = true;
                }
                j = j + 1;
            }
            proof {
                if found {
                    let t = choose|t: int| 0 <= t < i && ls[t] == ls[i as int];
                    assert(ls.take(i as int)[t] == ls[i as int]);
                    assert(ls.take(i as int).contains(ls[i as int]));
                } else {
                    if ls.take(i as int).contains(ls[i as int]) {
                        let t = choose|t: int|
                            0 <= t < i && #[trigger] ls.take(i as int)[t] == ls[i as int];
                        assert(ls[t] == ls[i as int]);
                    }
                }
            }
            if !found {
                count = count + 1;
            }
            i = i + 1;
        }
        proof {
            assert(ls.take(words@.len() as int) =~= ls);
        }
        count
    }

    fn count_pronoun(analysis: &WordAnalysis, counters: &mut WordCounters)
        requires
            old(counters).first_person_singular < usize::MAX,
            old(counters).first_person_plural < usize::MAX,
            old(counters).second_person_singular < usize::MAX,
            old(counters).second_person_plural < usize::MAX,
            old(counters).third_person_singular < usize::MAX,
            old(counters).third_person_plural < usize::MAX,
        ensures
            final(counters)@ == spec_count_pronoun(old(counters)@, analysis@),
    {
        match (analysis.pronoun_person, analysis.pronoun_number) {
            (Some(PronounPerson::First), Some(PronounNumber::Singular)) => {
                counters.first_person_singular = counters.first_person_singular + 1;
            },
            (Some(PronounPerson::First), Some(PronounNumber::Plural)) => {
                counters.first_person_plural = counters.first_person_plural + 1;
            },
            (Some(PronounPerson::Second), Some(PronounNumber::Singular)) => {
                counters.second_person_singular = counters.second_person_singular + 1;
            },
            (Some(PronounPerson::Second), Some(PronounNumber::Plural)) => {
                counters.second_person_plural = counters.second_person_plural + 1;
            },
            (Some(PronounPerson::Third), Some(PronounNumber::Singular)) => {
                counters.third_person_singular = counters.third_person_singular + 1;
            },
            (Some(PronounPerson::Third), Some(PronounNumber::Plural)) => {
                counters.third_person_plural = counters.third_person_plural + 1;
            },
            (Some(PronounPerson::First), Some(PronounNumber::Unknown)) => {
                counters.first_person_singular = counters.first_person_singular + 1;
            },
            (Some(PronounPerson::Reflexive), _) => {
                counters.first_person_singular = counters.first_person_singular + 1;
            },
            _ => {},
        }
    }

    fn count_verb(analysis: &WordAnalysis, word: &str, counters: &mut WordCounters)
        requires
            old(counters).past_tense < usize::MAX,
            old(counters).present_tense < usize::MAX,
            old(counters).future_tense < usize::MAX,
            old(counters).infinitives < usize::MAX,
            old(counters).non_finite_forms < usize::MAX,
            old(counters).external_predicates < usize::MAX,
            old(counters).internal_predicates < usize::MAX,
            old(counters).active_voice < usize::MAX,
        ensures
            final(counters)@ == spec_count_verb(old(counters)@, analysis@, word@),
    {
        match analysis.verb_tense {
            Some(VerbTense::Past) => {
                counters.past_tense = counters.past_tense + 1;
            },
            Some(VerbTense::Present) => {
                counters.present_tense = counters.present_tense + 1;
            },
            Some(VerbTense::Future) => {
                counters.future_tense = counters.future_tense + 1;
            },
            Some(VerbTense::Infinitive) => {
                counters.infinitives = counters.infinitives + 1;
            },
            _ => {},
        }

        match analysis.verb_form {
            Some(VerbForm::Participle) => {
                counters.non_finite_forms = counters.non_finite_forms + 1;
            },
            Some(VerbForm::Gerund) => {
                counters.non_finite_forms = counters.non_finite_forms + 1;
            },
            _ => {},
        }

        match analysis.predicate_type {
            Some(PredicateType::External) => {
                counters.external_predicates = counters.external_predicates + 1;
            },
            Some(PredicateType::Internal) => {
                counters.internal_predicates = counters.internal_predicates + 1;
            },
            _ => {},
        }

        if MorphAnalyzer::is_active_voice(word) {
            counters.active_voice = counters.active_voice + 1;
        }
    }

    /// Analyze a whole text into its vector of counts.
    pub fn analyze(&self, text: &str) -> (m: TextCounts)
        ensures
            m == spec_analyze_counts(text@),
            spec_counts_wf(m),
    {
        let words = Self::extract_words(text);
        let ghost ws = spec_extracted_words(text@);
        let total_words = words.len();

        if total_words == 0 {
            let m = TextCounts::new();
            proof {
                lemma_no_words_zero_counts(text@);
            }
            return m;
        }

        let sentence_analyses = self.sentence_analyzer.analyze_text(text);
        let ghost ss = spec_analyze_text(text@);
        let total_sentences = sentence_analyses.len();

        let mut simple: usize = 0;
        let mut compound: usize = 0;
        let mut complex: usize = 0;
        let mut run_on: usize = 0;
        let mut i: usize = 0;
        while i < sentence_analyses.len()
            invariant
                i <= sentence_analyses@.len(),
                sentence_analyses.deep_view() == ss,
                simple == count_sentence_type(ss.take(i as int), SentenceType::Simple),
                compound == count_sentence_type(ss.take(i as int), SentenceType::Compound),
                complex == count_sentence_type(ss.take(i as int), SentenceType::Complex),
                run_on == count_sentence_type(ss.take(i as int), SentenceType::RunOn),
                simple <= i && compound <= i && complex <= i && run_on <= i,
            decreases sentence_analyses@.len() - i,
        {
            proof {
                assert(ss.take(i as int + 1).drop_last() =~= ss.take(i as int));
                assert(ss.take(i as int + 1).last() == ss[i as int]);
                assert(sentence_analyses.deep_view()[i as int] == sentence_analyses@[i as int]@);
            }
            match sentence_analyses[i].sentence_type {
                SentenceType::Simple => {
                    simple = simple + 1;
                },
                SentenceType::Compound => {
                    compound = compound + 1;
                },
                SentenceType::Complex => {
                    complex = complex + 1;
                },
                SentenceType::RunOn => {
                    run_on = run_on + 1;
                },
            }
            i = i + 1;
        }
        proof {
            assert(ss.take(sentence_analyses@.len() as int) =~= ss);
        }

        let distinct = Self::count_distinct_lowered(&words);

        let mut counters = WordCounters {
            nouns: 0,
            adjectives: 0,
            adverbs: 0,
            prepositions: 0,
            conjunctions: 0,
            first_person_singular: 0,
            first_person_plural: 0,
            second_person_singular: 0,
            second_person_plural: 0,
            third_person_singular: 0,
            third_person_plural: 0,
            past_tense: 0,
            present_tense: 0,
            future_tense: 0,
            infinitives: 0,
            non_finite_forms: 0,
            active_voice: 0,
            external_predicates: 0,
            internal_predicates: 0,
            filler_words: 0,
            stop_words: 0,
            emotion_words: 0,
            social_interaction_words: 0,
            egocentrism_markers: 0,
        };
        assert(counters@ == spec_zero_tally());
        assert(tally_words(ws.take(0)) == spec_zero_tally());

        let mut k: usize = 0;
        while k < words.len()
            invariant
                k <= words@.len(),
                words.deep_view() == ws,
                counters@ == tally_words(ws.take(k as int)),
            decreases words@.len() - k,
        {
            proof {
                assert(ws.take(k as int + 1).drop_last() =~= ws.take(k as int));
                assert(ws.take(k as int + 1).last() == ws[k as int]);
                assert(words.deep_view()[k as int] == words@[k as int]@);
                lemma_tally_bounds(ws.take(k as int));
            }
            let word = &words[k];
            let analysis = self.morph.analyze(word.as_str());

            match analysis.pos {
                PartOfSpeech::Noun => {
                    counters.nouns = counters.nouns + 1;
                },
                PartOfSpeech::Adjective => {
                    counters.adjectives = counters.adjectives + 1;
                },
                PartOfSpeech::Adverb => {
                    counters.adverbs = counters.adverbs + 1;
                },
                PartOfSpeech::Preposition => {
                    counters.prepositions = counters.prepositions + 1;
                },
                PartOfSpeech::Conjunction => {
                    counters.conjunctions = counters.conjunctions + 1;
                },
                PartOfSpeech::Pronoun => {
                    Self::count_pronoun(&analysis, &mut counters);
                },
                PartOfSpeech::Verb => {
                    Self::count_verb(&analysis, word.as_str(), &mut counters);
                },
                _ => {},
            }

            if analysis.is_filler {
                counters.filler_words = counters.filler_words + 1;
            }
            if analysis.is_stop_word {
                counters.stop_words = counters.stop_words + 1;
            }
            if analysis.is_emotion_word {
                counters.emotion_words = counters.emotion_words + 1;
            }
            if analysis.is_social_interaction {
                counters.social_interaction_words = counters.social_interaction_words + 1;
            }
            if analysis.is_egocentrism_marker {
                counters.egocentrism_markers = counters.egocentrism_markers + 1;
            }

            assert(counters@ == tally_words(ws.take(k as int + 1)));
            k = k + 1;
        }
        proof {
            assert(ws.take(words@.len() as int) =~= ws);
            lemma_tally_bounds(ws);
            lemma_distinct_count_le_len(lowered_views(ws));
            lemma_sentence_type_counts_sum(ss);
        }

        let m = TextCounts {
            total_words,
            total_sentences,
            run_on_sentences: run_on,
            compound_sentences: compound,
            complex_sentences: complex,
            simple_sentences: simple,
            distinct_words: distinct,
            external_predicates: counters.external_predicates,
            internal_predicates: counters.internal_predicates,
            active_voice_verbs: counters.active_voice,
            past_tense_verbs: counters.past_tense,
            present_tense_verbs: counters.present_tense,
            future_tense_verbs: counters.future_tense,
            infinitives: counters.infinitives,
            non_finite_verb_forms: counters.non_finite_forms,
            adjectives: counters.adjectives,
            nouns: counters.nouns,
            adverbs: counters.adverbs,
            first_person_singular_pronouns: counters.first_person_singular,
            first_person_plural_pronouns: counters.first_person_plural,
            second_person_singular_pronouns: counters.second_person_singular,
            second_person_plural_pronouns: counters.second_person_plural,
            third_person_singular_pronouns: counters.third_person_singular,
            third_person_plural_pronouns: counters.third_person_plural,
            filler_words: counters.filler_words,
            stop_words: counters.stop_words,
            prepositions: counters.prepositions,
            conjunctions: counters.conjunctions,
            social_interaction_words: counters.social_interaction_words,
            emotion_words: counters.emotion_words,
            egocentrism_markers: counters.egocentrism_markers,
        };
        assert(m == spec_analyze_counts(text@));
        m
    }
}

} // verus!
