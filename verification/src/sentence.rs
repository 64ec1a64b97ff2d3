//! Sentence segmentation and structural classification.
//!
//! A text is split into sentences on runs of the terminal marks `.`, `!`
//! and `?`; each fragment is trimmed and empty fragments are dropped. A
//! sentence is classified as simple, compound, complex or run-on from an
//! estimated clause count and the conjunction classes present in it. The
//! clause count is a heuristic built from the number of verbs, the number
//! of clause-boundary punctuation marks, and the number of conjunctions.

use vstd::prelude::*;

use crate::lexicon;
use crate::morphology::MorphAnalyzer;
use crate::morphology::PartOfSpeech;
use crate::morphology::spec_pos;
use crate::text::char_count;
use crate::text::lower_of;
use crate::text::lowercase;
use crate::text::trim_of;
use crate::text::trimmed_between;

verus! {

/// Structural type of one sentence.
#[derive(Debug, Clone, Copy, PartialEq, Eq, Structural)]
pub enum SentenceType {
    /// One independent clause.
    Simple,
    /// Independent clauses joined by a coordinating conjunction.
    Compound,
    /// A dependent clause marked by a subordinating conjunction.
    Complex,
    /// Several clauses with no conjunction between them.
    RunOn,
}

/// Result of classifying one sentence.
#[derive(Debug, Clone)]
pub struct SentenceAnalysis {
    pub text: String,
    pub sentence_type: SentenceType,
    pub clause_count: usize,
    pub word_count: usize,
    pub has_coordinating_conjunction: bool,
    pub has_subordinating_conjunction: bool,
}

/// Mathematical view of a `SentenceAnalysis`.
pub struct SentenceAnalysisView {
    pub text: Seq<char>,
    pub sentence_type: SentenceType,
    pub clause_count: int,
    pub word_count: int,
    pub has_coordinating_conjunction: bool,
    pub has_subordinating_conjunction: bool,
}

impl View for SentenceAnalysis {
    type V = SentenceAnalysisView;

    open spec fn view(&self) -> SentenceAnalysisView {
        SentenceAnalysisView {
            text: self.text@,
            sentence_type: self.sentence_type,
            clause_count: self.clause_count as int,
            word_count: self.word_count as int,
            has_coordinating_conjunction: self.has_coordinating_conjunction,
            has_subordinating_conjunction: self.has_subordinating_conjunction,
        }
    }
}

impl DeepView for SentenceAnalysis {
    type V = SentenceAnalysisView;

    open spec fn deep_view(&self) -> SentenceAnalysisView {
        self.view()
    }
}

/// A sentence-terminal mark.
pub open spec fn is_terminal_char(c: char) -> bool {
    c == '.' || c == '!' || c == '?'
}

/// A clause-boundary punctuation mark.
pub open spec fn is_clause_mark(c: char) -> bool {
    c == ',' || c == ';' || c == ':' || c == '-' || c == '–' || c == '—'
}

/// The trimmed fragment of `t` between `a` and `b`, as a sequence of zero or
/// one sentences: empty fragments are dropped.
pub open spec fn emit_sentence(t: Seq<char>, a: int, b: int) -> Seq<Seq<char>> {
    let f = trim_of(t.subrange(a, b));
    if f.len() > 0 {
        seq![f]
    } else {
        Seq::empty()
    }
}

/// Sentences of `t` from position `i` on, with `start` the beginning of the
/// fragment being read: fragments close on each terminal mark and at the end
/// of the text.
pub open spec fn split_from(t: Seq<char>, i: int, start: int) -> Seq<Seq<char>>
    decreases t.len() - i,
{
    if i < 0 || i >= t.len() {
        emit_sentence(t, start, t.len() as int)
    } else if is_terminal_char(t[i]) {
        emit_sentence(t, start, i) + split_from(t, i + 1, i + 1)
    } else {
        split_from(t, i + 1, start)
    }
}

/// The sentences of a text, in order: the text is cut on runs of terminal
/// marks, each fragment is trimmed, and empty fragments are dropped.
pub open spec fn spec_split_sentences(t: Seq<char>) -> Seq<Seq<char>> {
    split_from(t, 0, 0)
}

/// The lowercase form of the fragment of `t` between `a` and `b`, as a
/// sequence of zero or one words: fragments that lowercase to nothing are
/// dropped.
pub open spec fn emit_word(t: Seq<char>, a: int, b: int) -> Seq<Seq<char>> {
    let w = lower_of(t.subrange(a, b));
    if w.len() > 0 {
        seq![w]
    } else {
        Seq::empty()
    }
}

/// Words of `t` from position `i` on: fragments close on each character
/// that is not alphanumeric.
pub open spec fn words_from(t: Seq<char>, i: int, start: int) -> Seq<Seq<char>>
    decreases t.len() - i,
{
    if i < 0 || i >= t.len() {
        emit_word(t, start, t.len() as int)
    } else if !crate::text::is_alnum_char(t[i]) {
        emit_word(t, start, i) + words_from(t, i + 1, i + 1)
    } else {
        words_from(t, i + 1, start)
    }
}

/// The lowercase words of a sentence: alphanumeric runs, lowercased.
pub open spec fn spec_words(t: Seq<char>) -> Seq<Seq<char>> {
    words_from(t, 0, 0)
}

/// Some word is a coordinating conjunction.
pub open spec fn spec_has_coord(ws: Seq<Seq<char>>) -> bool {
    exists|i: int|
        0 <= i < ws.len() && lexicon::in_coordinating_conjunctions(lower_of(#[trigger] ws[i]))
}

/// Some word is a subordinating conjunction.
pub open spec fn spec_has_subord(ws: Seq<Seq<char>>) -> bool {
    exists|i: int|
        0 <= i < ws.len() && lexicon::in_subordinating_conjunctions(lower_of(#[trigger] ws[i]))
}

/// Number of clause-boundary marks in `t` from position `i` on.
pub open spec fn count_marks_from(t: Seq<char>, i: int) -> nat
    decreases t.len() - i,
{
    if i < 0 || i >= t.len() {
        0
    } else {
        ((if is_clause_mark(t[i]) {
            1nat
        } else {
            0nat
        }) + count_marks_from(t, i + 1)) as nat
    }
}

/// Number of clause-boundary marks in a sentence.
pub open spec fn spec_count_marks(t: Seq<char>) -> nat {
    count_marks_from(t, 0)
}

/// Number of words that the tagger marks as verbs.
pub open spec fn count_verbs(ws: Seq<Seq<char>>) -> nat
    decreases ws.len(),
{
    if ws.len() == 0 {
        0
    } else {
        (count_verbs(ws.drop_last()) + (if spec_pos(lower_of(ws.last())) == PartOfSpeech::Verb {
            1nat
        } else {
            0nat
        })) as nat
    }
}

/// Number of words that are conjunctions of either class.
pub open spec fn count_conjunction_words(ws: Seq<Seq<char>>) -> nat
    decreases ws.len(),
{
    if ws.len() == 0 {
        0
    } else {
        (count_conjunction_words(ws.drop_last()) + (if lexicon::in_coordinating_conjunctions(
            lower_of(ws.last()),
        ) || lexicon::in_subordinating_conjunctions(lower_of(ws.last())) {
            1nat
        } else {
            0nat
        })) as nat
    }
}

/// The clause-count heuristic over the words of a sentence and the number
/// of clause-boundary marks in it: the verb count (floored at one) is capped
/// by the punctuation estimate, the whole is floored at one, and when only
/// conjunctions signal complexity they set the count themselves.
pub open spec fn spec_estimate_clauses(ws: Seq<Seq<char>>, marks: int) -> int {
    let verb_count = if count_verbs(ws) > 0 {
        count_verbs(ws) as int
    } else {
        1
    };
    let punct_estimate = if marks > 0 {
        marks + 1
    } else {
        1
    };
    let conj_count = count_conjunction_words(ws) as int;
    let capped = if verb_count < punct_estimate {
        verb_count
    } else {
        punct_estimate
    };
    let base_estimate = if capped > 1 {
        capped
    } else {
        1
    };
    if conj_count > 0 && base_estimate == 1 {
        conj_count + 1
    } else {
        base_estimate
    }
}

/// Estimated clause count of a sentence.
pub open spec fn spec_clause_count(t: Seq<char>) -> int {
    spec_estimate_clauses(spec_words(t), spec_count_marks(t) as int)
}

/// Sentence type from the clause count and the conjunction classes present:
/// one clause is simple; otherwise a subordinating conjunction wins over a
/// coordinating one, and with neither the sentence is run-on.
pub open spec fn spec_sentence_type(
    clause_count: int,
    has_coordinating: bool,
    has_subordinating: bool,
) -> SentenceType {
    if clause_count <= 1 {
        SentenceType::Simple
    } else if has_subordinating {
        SentenceType::Complex
    } else if has_coordinating {
        SentenceType::Compound
    } else {
        SentenceType::RunOn
    }
}

/// Full classification of one sentence.
pub open spec fn spec_analyze_sentence(t: Seq<char>) -> SentenceAnalysisView {
    let ws = spec_words(t);
    let coord = spec_has_coord(ws);
    let subord = spec_has_subord(ws);
    let clauses = spec_clause_count(t);
    SentenceAnalysisView {
        text: t,
        sentence_type: spec_sentence_type(clauses, coord, subord),
        clause_count: clauses,
        word_count: ws.len() as int,
        has_coordinating_conjunction: coord,
        has_subordinating_conjunction: subord,
    }
}

/// Classification of every sentence of a text, in order.
pub open spec fn spec_analyze_text(t: Seq<char>) -> Seq<SentenceAnalysisView> {
    spec_split_sentences(t).map_values(|s: Seq<char>| spec_analyze_sentence(s))
}

/// The sentence segmenter and classifier.
pub struct SentenceAnalyzer {
    morph: MorphAnalyzer,
}

impl SentenceAnalyzer {
    pub fn new() -> (r: SentenceAnalyzer) {
        SentenceAnalyzer { morph: MorphAnalyzer::new() }
    }

    /// Split a text into trimmed, non-empty sentences, in order.
    pub fn split_into_sentences(&self, text: &str) -> (r: Vec<String>)
        ensures
            r.deep_view() == spec_split_sentences(text@),
            r@.len() <= text@.len() + 1,
    {
        let n = char_count(text);
        let mut acc: Vec<String> = Vec::new();
        let mut start: usize = 0;
        let mut i: usize = 0;
        while i < n
            invariant
                start <= i <= n,
                n == text@.len(),
                acc@.len() <= i,
                acc.deep_view() + split_from(text@, i as int, start as int)
                    == spec_split_sentences(text@),
            decreases n - i,
        {
            let c = text.get_char(i);
            if c == '.' || c == '!' || c == '?' {
                assert(split_from(text@, i as int, start as int) == emit_sentence(
                    text@,
                    start as int,
                    i as int,
                ) + split_from(text@, i as int + 1, i as int + 1));
                let ghost pre = acc.deep_view();
                let frag = trimmed_between(text, start, i);
                if !frag.as_str().is_empty() {
                    acc.push(frag);
                    proof {
                        assert(acc.deep_view() =~= pre.push(frag@));
                        assert(pre.push(frag@) =~= pre + emit_sentence(
                            text@,
                            start as int,
                            i as int,
                        ));
                    }
                } else {
                    assert(acc.deep_view() =~= pre + emit_sentence(text@, start as int, i as int));
                }
                proof {
                    assert((pre + emit_sentence(text@, start as int, i as int)) + split_from(
                        text@,
                        i as int + 1,
                        i as int + 1,
                    ) =~= pre + (emit_sentence(text@, start as int, i as int) + split_from(
                        text@,
                        i as int + 1,
                        i as int + 1,
                    )));
                }
                start = i + 1;
            } else {
                assert(split_from(text@, i as int, start as int) == split_from(
                    text@,
                    i as int + 1,
                    start as int,
                ));
            }
            i = i + 1;
        }
        assert(split_from(text@, n as int, start as int) == emit_sentence(
            text@,
            start as int,
            n as int,
        ));
        let ghost pre = acc.deep_view();
        let frag = trimmed_between(text, start, n);
        if !frag.as_str().is_empty() {
            acc.push(frag);
            proof {
                assert(acc.deep_view() =~= pre.push(frag@));
                assert(pre.push(frag@) =~= pre + emit_sentence(text@, start as int, n as int));
            }
        } else {
            assert(acc.deep_view() =~= pre + emit_sentence(text@, start as int, n as int));
        }
        acc
    }

    /// Lowercase alphanumeric runs of a sentence, in order.
    pub fn extract_words(sentence: &str) -> (r: Vec<String>)
        ensures
            r.deep_view() == spec_words(sentence@),
            r@.len() <= sentence@.len() + 1,
            r@.len() < usize::MAX,
    {
        let n = char_count(sentence);
        let mut acc: Vec<String> = Vec::new();
        let mut start: usize = 0;
        let mut i: usize = 0;
        while i < n
            invariant
                start <= i <= n,
                n == sentence@.len(),
                acc@.len() <= i,
                acc.deep_view() + words_from(sentence@, i as int, start as int)
                    == spec_words(sentence@),
            decreases n - i,
        {
            let c = sentence.get_char(i);
            if !c.is_alphanumeric() {
                assert(words_from(sentence@, i as int, start as int) == emit_word(
                    sentence@,
                    start as int,
                    i as int,
                ) + words_from(sentence@, i as int + 1, i as int + 1));
                let ghost pre = acc.deep_view();
                let piece = sentence.substring_char(start, i);
                let low = lowercase(piece);
                if !low.as_str().is_empty() {
                    acc.push(low);
                    proof {
                        assert(acc.deep_view() =~= pre.push(lower_of(
                            sentence@.subrange(start as int, i as int),
                        )));
                        assert(pre.push(lower_of(sentence@.subrange(start as int, i as int)))
                            =~= pre + emit_word(sentence@, start as int, i as int));
                    }
                } else {
                    assert(acc.deep_view() =~= pre + emit_word(sentence@, start as int, i as int));
                }
                proof {
                    assert((pre + emit_word(sentence@, start as int, i as int)) + words_from(
                        sentence@,
                        i as int + 1,
                        i as int + 1,
                    ) =~= pre + (emit_word(sentence@, start as int, i as int) + words_from(
                        sentence@,
                        i as int + 1,
                        i as int + 1,
                    )));
                }
                start = i + 1;
            } else {
                assert(words_from(sentence@, i as int, start as int) == words_from(
                    sentence@,
                    i as int + 1,
                    start as int,
                ));
            }
            i = i + 1;
        }
        assert(words_from(sentence@, n as int, start as int) == emit_word(
            sentence@,
            start as int,
            n as int,
        ));
        let ghost pre = acc.deep_view();
        let piece = sentence.substring_char(start, n);
        let low = lowercase(piece);
        if !low.as_str().is_empty() {
            acc.push(low);
            proof {
                assert(acc.deep_view() =~= pre.push(lower_of(
                    sentence@.subrange(start as int, n as int),
                )));
                assert(pre.push(lower_of(sentence@.subrange(start as int, n as int))) =~= pre
                    + emit_word(sentence@, start as int, n as int));
            }
        } else {
            assert(acc.deep_view() =~= pre + emit_word(sentence@, start as int, n as int));
        }
        acc
    }

    /// Some word of the list is a coordinating conjunction.
    pub fn has_coordinating_conjunction(words: &Vec<String>) -> (r: bool)
        ensures
            r == spec_has_coord(words.deep_view()),
    {
        let mut i: usize = 0;
        while i < words.len()
            invariant
                i <= words@.len(),
                forall|t: int|
                    0 <= t < i ==> !lexicon::in_coordinating_conjunctions(lower_of(
                        #[trigger] words.deep_view()[t],
                    )),
            decreases words@.len() - i,
        {
            if MorphAnalyzer::is_coordinating_conjunction(words[i].as_str()) {
                assert(lexicon::in_coordinating_conjunctions(lower_of(words.deep_view()[i as int])));
                return true;
            }
            i = i + 1;
        }
        false
    }

    /// Some word of the list is a subordinating conjunction.
    pub fn has_subordinating_conjunction(words: &Vec<String>) -> (r: bool)
        ensures
            r == spec_has_subord(words.deep_view()),
    {
        let mut i: usize = 0;
        while i < words.len()
            invariant
                i <= words@.len(),
                forall|t: int|
                    0 <= t < i ==> !lexicon::in_subordinating_conjunctions(lower_of(
                        #[trigger] words.deep_view()[t],
                    )),
            decreases words@.len() - i,
        {
            if MorphAnalyzer::is_subordinating_conjunction(words[i].as_str()) {
                assert(lexicon::in_subordinating_conjunctions(lower_of(words.deep_view()[i as int])));
                return true;
            }
            i = i + 1;
        }
        false
    }

    /// Number of clause-boundary marks in a sentence.
    pub fn count_clause_marks(sentence: &str) -> (r: usize)
        ensures
            r == spec_count_marks(sentence@),
            r <= sentence@.len(),
            r < usize::MAX,
    {
        let n = char_count(sentence);
        let mut i: usize = 0;
        let mut count: usize = 0;
        while i < n
            invariant
                i <= n,
                n == sentence@.len(),
                count <= i,
                count + count_marks_from(sentence@, i as int) == spec_count_marks(sentence@),
            decreases n - i,
        {
            let c = sentence.get_char(i);
            assert(count_marks_from(sentence@, i as int) == (if is_clause_mark(
                sentence@[i as int],
            ) {
                1nat
            } else {
                0nat
            }) + count_marks_from(sentence@, i as int + 1));
            if c == ',' || c == ';' || c == ':' || c == '-' || c == '–' || c == '—' {
                count = count + 1;
            }
            i = i + 1;
        }
        assert(count_marks_from(sentence@, n as int) == 0);
        count
    }

    /// Number of words the tagger marks as verbs, floored at one.
    pub fn count_potential_verbs(&self, words: &Vec<String>) -> (r: usize)
        ensures
            r == if count_verbs(words.deep_view()) > 0 {
                count_verbs(words.deep_view()) as int
            } else {
                1int
            },
    {
        let ghost ws = words.deep_view();
        let mut i: usize = 0;
        let mut count: usize = 0;
        while i < words.len()
            invariant
                i <= words@.len(),
                ws == words.deep_view(),
                count <= i,
                count == count_verbs(ws.take(i as int)),
            decreases words@.len() - i,
        {
            let analysis = self.morph.analyze(words[i].as_str());
            proof {
                assert(ws.take(i as int + 1).drop_last() =~= ws.take(i as int));
                assert(ws.take(i as int + 1).last() == ws[i as int]);
                assert(words.deep_view()[i as int] == words@[i as int]@);
            }
            if analysis.pos == PartOfSpeech::Verb {
                count = count + 1;
            }
            i = i + 1;
        }
        proof {
            assert(ws.take(words@.len() as int) =~= ws);
        }
        if count == 0 {
            1
        } else {
            count
        }
    }

    /// The clause-count heuristic over the word list and the number of
    /// clause-boundary marks.
    pub fn estimate_clause_count(&self, words: &Vec<String>, clause_boundaries: usize) -> (r:
        usize)
        requires
            clause_boundaries < usize::MAX,
            words@.len() < usize::MAX,
        ensures
            r == spec_estimate_clauses(words.deep_view(), clause_boundaries as int),
    {
        let verb_count = self.count_potential_verbs(words);

        let punct_estimate: usize = if clause_boundaries > 0 {
            clause_boundaries + 1
        } else {
            1
        };

        let ghost ws = words.deep_view();
        let mut i: usize = 0;
        let mut conj_count: usize = 0;
        while i < words.len()
            invariant
                i <= words@.len(),
                ws == words.deep_view(),
                conj_count <= i,
                conj_count == count_conjunction_words(ws.take(i as int)),
            decreases words@.len() - i,
        {
            let coord = MorphAnalyzer::is_coordinating_conjunction(words[i].as_str());
            let subord = MorphAnalyzer::is_subordinating_conjunction(words[i].as_str());
            proof {
                assert(ws.take(i as int + 1).drop_last() =~= ws.take(i as int));
                assert(ws.take(i as int + 1).last() == ws[i as int]);
                assert(words.deep_view()[i as int] == words@[i as int]@);
            }
            if coord || subord {
                conj_count = conj_count + 1;
            }
            i = i + 1;
        }
        proof {
            assert(ws.take(words@.len() as int) =~= ws);
        }

        let capped = if verb_count < punct_estimate {
            verb_count
        } else {
            punct_estimate
        };
        let base_estimate = if capped > 1 {
            capped
        } else {
            1
        };

        if conj_count > 0 && base_estimate == 1 {
            conj_count + 1
        } else {
            base_estimate
        }
    }

    /// Sentence type from the clause count and the conjunction classes.
    pub fn determine_sentence_type(
        clause_count: usize,
        has_coordinating: bool,
        has_subordinating: bool,
    ) -> (r: SentenceType)
        ensures
            r == spec_sentence_type(clause_count as int, has_coordinating, has_subordinating),
    {
        if clause_count <= 1 {
            SentenceType::Simple
        } else if has_subordinating {
            SentenceType::Complex
        } else if has_coordinating {
            SentenceType::Compound
        } else {
            SentenceType::RunOn
        }
    }

    /// Classify one sentence.
    pub fn analyze_sentence(&self, sentence: &str) -> (r: SentenceAnalysis)
        ensures
            r@ == spec_analyze_sentence(sentence@),
    {
        let words = Self::extract_words(sentence);
        let word_count = words.len();

        let has_coordinating = Self::has_coordinating_conjunction(&words);
        let has_subordinating = Self::has_subordinating_conjunction(&words);

        let clause_boundaries = Self::count_clause_marks(sentence);

        let clause_count = self.estimate_clause_count(&words, clause_boundaries);

        let sentence_type = Self::determine_sentence_type(
            clause_count,
            has_coordinating,
            has_subordinating,
        );

        SentenceAnalysis {
            text: sentence.to_owned(),
            sentence_type,
            clause_count,
            word_count,
            has_coordinating_conjunction: has_coordinating,
            has_subordinating_conjunction: has_subordinating,
        }
    }

    /// Classify every sentence of a text, in order.
    pub fn analyze_text(&self, text: &str) -> (r: Vec<SentenceAnalysis>)
        ensures
            r.deep_view() == spec_analyze_text(text@),
            r@.len() <= text@.len() + 1,
    {
        let sentences = self.split_into_sentences(text);
        let ghost frs = spec_split_sentences(text@);
        let mut acc: Vec<SentenceAnalysis> = Vec::new();
        let mut i: usize = 0;
        while i < sentences.len()
            invariant
                i <= sentences@.len(),
                frs == spec_split_sentences(text@),
                sentences.deep_view() == frs,
                acc@.len() == i,
                forall|t: int|
                    0 <= t < i ==> acc.deep_view()[t] == spec_analyze_sentence(#[trigger] frs[t]),
            decreases sentences@.len() - i,
        {
            let a = self.analyze_sentence(sentences[i].as_str());
            proof {
                assert(sentences.deep_view()[i as int] == sentences@[i as int]@);
            }
            acc.push(a);
            i = i + 1;
        }
        proof {
            assert(acc.deep_view() =~= spec_analyze_text(text@));
        }
        acc
    }
}

} // verus!
