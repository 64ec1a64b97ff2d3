//! The discriminant classifier: a fixed linear model that scores the count
//! vector of a text against four calibration groups.
//!
//! For each group the raw discriminant score is a dot product of ten
//! features with fixed coefficients, plus a constant. The features are the
//! log-transformed word count and nine percentages of `total_words`. Here
//! the score is computed exactly over the integers: coefficients are kept in
//! hundredths, the log-volume feature arrives in millionths, and the score
//! is scaled by `100_000_000 * d`, where `d` is `total_words` floored at
//! one. The scale is one positive factor shared by all four groups, so
//! comparisons of scaled scores are comparisons of the real scores, and the
//! primary group under the softmax posterior (a strictly monotone map of
//! the raw scores) is the group with the greatest raw score, earliest group
//! first on exact ties.

use vstd::prelude::*;

use crate::analyzer::TextCounts;
use crate::analyzer::spec_counts_wf;

verus! {

/// The four calibration groups, in their fixed order.
#[derive(Debug, Clone, Copy, PartialEq, Eq, Structural)]
pub enum DiagnosticGroup {
    Healthy,
    Schizophrenia,
    PersonalityDisorder,
    BipolarDisorder,
}

/// Discriminant coefficients of one group, in hundredths: a stored value of
/// 250 stands for 2.5 in the underlying linear model.
#[derive(Debug, Clone, PartialEq, Eq, Structural)]
pub struct DiscriminantCoefficients {
    pub log_volume: i64,
    pub non_finite_verbs: i64,
    pub first_person_sing: i64,
    pub past_tense: i64,
    pub present_tense: i64,
    pub external_pred: i64,
    pub internal_pred: i64,
    pub emotion_words: i64,
    pub social_interaction: i64,
    pub lexical_diversity: i64,
    pub constant: i64,
}

/// Every coefficient lies within ten thousand hundredths; the score
/// arithmetic is bounded through this.
pub open spec fn spec_coefficients_bounded(c: DiscriminantCoefficients) -> bool {
    &&& -10000 <= c.log_volume <= 10000
    &&& -10000 <= c.non_finite_verbs <= 10000
    &&& -10000 <= c.first_person_sing <= 10000
    &&& -10000 <= c.past_tense <= 10000
    &&& -10000 <= c.present_tense <= 10000
    &&& -10000 <= c.external_pred <= 10000
    &&& -10000 <= c.internal_pred <= 10000
    &&& -10000 <= c.emotion_words <= 10000
    &&& -10000 <= c.social_interaction <= 10000
    &&& -10000 <= c.lexical_diversity <= 10000
    &&& -10000 <= c.constant <= 10000
}

/// Calibration for the healthy group: long texts, present tense, inner
/// states and emotion words weigh in its favour.
pub open spec fn spec_healthy_coefficients() -> DiscriminantCoefficients {
    DiscriminantCoefficients {
        log_volume: 250,
        non_finite_verbs: 80,
        first_person_sing: 15,
        past_tense: -5i64,
        present_tense: 12,
        external_pred: -2i64,
        internal_pred: 18,
        emotion_words: 15,
        social_interaction: -5i64,
        lexical_diversity: -2i64,
        constant: -1200i64,
    }
}

/// Calibration for the schizophrenia group: short texts, past tense, few
/// inner states and few emotion words.
pub open spec fn spec_schizophrenia_coefficients() -> DiscriminantCoefficients {
    DiscriminantCoefficients {
        log_volume: -200i64,
        non_finite_verbs: -50i64,
        first_person_sing: -15i64,
        past_tense: 20,
        present_tense: -25i64,
        external_pred: 5,
        internal_pred: -35i64,
        emotion_words: -40i64,
        social_interaction: -10i64,
        lexical_diversity: 4,
        constant: -200i64,
    }
}

/// Calibration for the personality-disorder group: social-interaction
/// markers are its strongest sign.
pub open spec fn spec_personality_disorder_coefficients() -> DiscriminantCoefficients {
    DiscriminantCoefficients {
        log_volume: -80i64,
        non_finite_verbs: 5,
        first_person_sing: 8,
        past_tense: -5i64,
        present_tense: 15,
        external_pred: 5,
        internal_pred: 20,
        emotion_words: 20,
        social_interaction: 80,
        lexical_diversity: 2,
        constant: -400i64,
    }
}

/// Calibration for the bipolar-disorder group: first-person singular forms,
/// emotion words and non-finite verb forms weigh in its favour.
pub open spec fn spec_bipolar_disorder_coefficients() -> DiscriminantCoefficients {
    DiscriminantCoefficients {
        log_volume: -60i64,
        non_finite_verbs: 50,
        first_person_sing: 20,
        past_tense: 2,
        present_tense: 10,
        external_pred: 12,
        internal_pred: -10i64,
        emotion_words: 35,
        social_interaction: -20i64,
        lexical_diversity: 1,
        constant: -550i64,
    }
}

impl DiscriminantCoefficients {
    pub fn healthy() -> (r: DiscriminantCoefficients)
        ensures
            r == spec_healthy_coefficients(),
    {
        DiscriminantCoefficients {
            log_volume: 250,
            non_finite_verbs: 80,
            first_person_sing: 15,
            past_tense: -5,
            present_tense: 12,
            external_pred: -2,
            internal_pred: 18,
            emotion_words: 15,
            social_interaction: -5,
            lexical_diversity: -2,
            constant: -1200,
        }
    }

    pub fn schizophrenia() -> (r: DiscriminantCoefficients)
        ensures
            r == spec_schizophrenia_coefficients(),
    {
        DiscriminantCoefficients {
            log_volume: -200,
            non_finite_verbs: -50,
            first_person_sing: -15,
            past_tense: 20,
            present_tense: -25,
            external_pred: 5,
            internal_pred: -35,
            emotion_words: -40,
            social_interaction: -10,
            lexical_diversity: 4,
            constant: -200,
        }
    }

    pub fn personality_disorder() -> (r: DiscriminantCoefficients)
        ensures
            r == spec_personality_disorder_coefficients(),
    {
        DiscriminantCoefficients {
            log_volume: -80,
            non_finite_verbs: 5,
            first_person_sing: 8,
            past_tense: -5,
            present_tense: 15,
            external_pred: 5,
            internal_pred: 20,
            emotion_words: 20,
            social_interaction: 80,
            lexical_diversity: 2,
            constant: -400,
        }
    }

    pub fn bipolar_disorder() -> (r: DiscriminantCoefficients)
        ensures
            r == spec_bipolar_disorder_coefficients(),
    {
        DiscriminantCoefficients {
            log_volume: -60,
            non_finite_verbs: 50,
            first_person_sing: 20,
            past_tense: 2,
            present_tense: 10,
            external_pred: 12,
            internal_pred: -10,
            emotion_words: 35,
            social_interaction: -20,
            lexical_diversity: 1,
            constant: -550,
        }
    }
}

/// The shared positive scale divisor: the word count, floored at one so
/// that the empty text still gets scored.
pub open spec fn spec_score_denom(total: int) -> int {
    if total == 0 {
        1
    } else {
        total
    }
}

/// The raw discriminant score of group coefficients `c` on counts `m`,
/// scaled by `100_000_000 * spec_score_denom(total)`: with that scale the
/// log term (in millionths, coefficient in hundredths), the nine percentage
/// terms `100 * count / total` and the constant are all integers.
pub open spec fn spec_raw_score(
    c: DiscriminantCoefficients,
    m: TextCounts,
    log_volume_micro: int,
) -> int {
    let d = spec_score_denom(m.total_words as int);
    c.log_volume * log_volume_micro * d + 100_000_000 * (c.non_finite_verbs
        * m.non_finite_verb_forms + c.first_person_sing * m.first_person_singular_pronouns
        + c.past_tense * m.past_tense_verbs + c.present_tense * m.present_tense_verbs
        + c.external_pred * m.external_predicates + c.internal_pred * m.internal_predicates
        + c.emotion_words * m.emotion_words + c.social_interaction * m.social_interaction_words
        + c.lexical_diversity * m.distinct_words) + c.constant * 1_000_000 * d
}

proof fn lemma_mul_range(a: int, b: int, aa: int, bb: int)
    by (nonlinear_arith)
    requires
        -aa <= a <= aa,
        0 <= b <= bb,
    ensures
        -(aa * bb) <= a * b <= aa * bb,
{
}

/// The scaled raw score, computed exactly.
pub fn raw_score(c: &DiscriminantCoefficients, m: &TextCounts, log_volume_micro: i64) -> (r: i128)
    requires
        spec_coefficients_bounded(*c),
        0 <= log_volume_micro <= 100_000_000,
        spec_counts_wf(*m),
    ensures
        r == spec_raw_score(*c, *m, log_volume_micro as int),
{
    let total = m.total_words;
    let d: i128 = if total == 0 {
        1
    } else {
        total as i128
    };
    assert(1 <= d <= 0x1_0000_0000_0000_0000i128);
    assert(m.non_finite_verb_forms as i128 <= d && m.first_person_singular_pronouns as i128 <= d
        && m.past_tense_verbs as i128 <= d && m.present_tense_verbs as i128 <= d
        && m.external_predicates as i128 <= d && m.internal_predicates as i128 <= d
        && m.emotion_words as i128 <= d && m.social_interaction_words as i128 <= d
        && m.distinct_words as i128 <= d);

    proof {
        lemma_mul_range(c.log_volume as int, log_volume_micro as int, 10000, 100_000_000);
    }
    let log_part: i128 = (c.log_volume as i128) * (log_volume_micro as i128);
    proof {
        lemma_mul_range(log_part as int, d as int, 1_000_000_000_000, 0x1_0000_0000_0000_0000);
    }
    let log_term: i128 = log_part * d;

    proof {
        lemma_mul_range(
            c.non_finite_verbs as int,
            m.non_finite_verb_forms as int,
            10000,
            0x1_0000_0000_0000_0000,
        );
        lemma_mul_range(
            c.first_person_sing as int,
            m.first_person_singular_pronouns as int,
            10000,
            0x1_0000_0000_0000_0000,
        );
        lemma_mul_range(
            c.past_tense as int,
            m.past_tense_verbs as int,
            10000,
            0x1_0000_0000_0000_0000,
        );
        lemma_mul_range(
            c.present_tense as int,
            m.present_tense_verbs as int,
            10000,
            0x1_0000_0000_0000_0000,
        );
        lemma_mul_range(
            c.external_pred as int,
            m.external_predicates as int,
            10000,
            0x1_0000_0000_0000_0000,
        );
        lemma_mul_range(
            c.internal_pred as int,
            m.internal_predicates as int,
            10000,
            0x1_0000_0000_0000_0000,
        );
        lemma_mul_range(c.emotion_words as int, m.emotion_words as int, 10000, 0x1_0000_0000_0000_0000);
        lemma_mul_range(
            c.social_interaction as int,
            m.social_interaction_words as int,
            10000,
            0x1_0000_0000_0000_0000,
        );
        lemma_mul_range(
            c.lexical_diversity as int,
            m.distinct_words as int,
            10000,
            0x1_0000_0000_0000_0000,
        );
    }
    let pct_sum: i128 = (c.non_finite_verbs as i128) * (m.non_finite_verb_forms as i128) + (
    c.first_person_sing as i128) * (m.first_person_singular_pronouns as i128) + (
    c.past_tense as i128) * (m.past_tense_verbs as i128) + (c.present_tense as i128) * (
    m.present_tense_verbs as i128) + (c.external_pred as i128) * (m.external_predicates as i128) + (
    c.internal_pred as i128) * (m.internal_predicates as i128) + (c.emotion_words as i128) * (
    m.emotion_words as i128) + (c.social_interaction as i128) * (m.social_interaction_words as i128)
        + (c.lexical_diversity as i128) * (m.distinct_words as i128);

    proof {
        lemma_mul_range(
            pct_sum as int,
            100_000_000,
            1_700_000_000_000_000_000_000_000,
            100_000_000,
        );
    }
    let pct_term: i128 = 100_000_000i128 * pct_sum;

    let const_part: i128 = (c.constant as i128) * 1_000_000i128;
    proof {
        lemma_mul_range(const_part as int, d as int, 10_000_000_000, 0x1_0000_0000_0000_0000);
    }
    let const_term: i128 = const_part * d;

    log_term + pct_term + const_term
}

/// The four scaled raw scores of one text.
#[derive(Debug, Clone, PartialEq, Eq, Structural)]
pub struct RawScores {
    pub healthy: i128,
    pub schizophrenia: i128,
    pub personality_disorder: i128,
    pub bipolar_disorder: i128,
}

/// The scaled raw score of every group on counts `m`.
pub fn compute_raw_scores(m: &TextCounts, log_volume_micro: i64) -> (r: RawScores)
    requires
        0 <= log_volume_micro <= 100_000_000,
        spec_counts_wf(*m),
    ensures
        r.healthy == spec_raw_score(spec_healthy_coefficients(), *m, log_volume_micro as int),
        r.schizophrenia == spec_raw_score(
            spec_schizophrenia_coefficients(),
            *m,
            log_volume_micro as int,
        ),
        r.personality_disorder == spec_raw_score(
            spec_personality_disorder_coefficients(),
            *m,
            log_volume_micro as int,
        ),
        r.bipolar_disorder == spec_raw_score(
            spec_bipolar_disorder_coefficients(),
            *m,
            log_volume_micro as int,
        ),
{
    let ch = DiscriminantCoefficients::healthy();
    let cs = DiscriminantCoefficients::schizophrenia();
    let cp = DiscriminantCoefficients::personality_disorder();
    let cb = DiscriminantCoefficients::bipolar_disorder();
    RawScores {
        healthy: raw_score(&ch, m, log_volume_micro),
        schizophrenia: raw_score(&cs, m, log_volume_micro),
        personality_disorder: raw_score(&cp, m, log_volume_micro),
        bipolar_disorder: raw_score(&cb, m, log_volume_micro),
    }
}

/// The group with the strictly greatest score, and that score. A running
/// best is replaced only on a strictly greater score, so on exact ties the
/// group enumerated first wins.
pub open spec fn spec_primary(s: RawScores) -> (DiagnosticGroup, int) {
    let g1 = DiagnosticGroup::Healthy;
    let b1 = s.healthy as int;
    let g2 = if s.schizophrenia > b1 {
        DiagnosticGroup::Schizophrenia
    } else {
        g1
    };
    let b2 = if s.schizophrenia > b1 {
        s.schizophrenia as int
    } else {
        b1
    };
    let g3 = if s.personality_disorder > b2 {
        DiagnosticGroup::PersonalityDisorder
    } else {
        g2
    };
    let b3 = if s.personality_disorder > b2 {
        s.personality_disorder as int
    } else {
        b2
    };
    let g4 = if s.bipolar_disorder > b3 {
        DiagnosticGroup::BipolarDisorder
    } else {
        g3
    };
    let b4 = if s.bipolar_disorder > b3 {
        s.bipolar_disorder as int
    } else {
        b3
    };
    (g4, b4)
}

/// Select the primary group and its score.
pub fn primary_diagnosis(s: &RawScores) -> (r: (DiagnosticGroup, i128))
    ensures
        r.0 == spec_primary(*s).0,
        r.1 as int == spec_primary(*s).1,
{
    let mut best_group = DiagnosticGroup::Healthy;
    let mut best_score = s.healthy;

    if s.schizophrenia > best_score {
        best_group = DiagnosticGroup::Schizophrenia;
        best_score = s.schizophrenia;
    }
    if s.personality_disorder > best_score {
        best_group = DiagnosticGroup::PersonalityDisorder;
        best_score = s.personality_disorder;
    }
    if s.bipolar_disorder > best_score {
        best_group = DiagnosticGroup::BipolarDisorder;
        best_score = s.bipolar_disorder;
    }

    (best_group, best_score)
}

/// The selected score is the maximum, the selected group attains it, and a
/// later group is selected only when it strictly beats every earlier one.
pub proof fn lemma_primary_selects_max(s: RawScores)
    ensures
        spec_primary(s).1 >= s.healthy,
        spec_primary(s).1 >= s.schizophrenia,
        spec_primary(s).1 >= s.personality_disorder,
        spec_primary(s).1 >= s.bipolar_disorder,
        spec_primary(s).0 == DiagnosticGroup::Healthy ==> spec_primary(s).1 == s.healthy,
        spec_primary(s).0 == DiagnosticGroup::Schizophrenia ==> spec_primary(s).1
            == s.schizophrenia && s.schizophrenia > s.healthy,
        spec_primary(s).0 == DiagnosticGroup::PersonalityDisorder ==> spec_primary(s).1
            == s.personality_disorder && s.personality_disorder > s.healthy
            && s.personality_disorder > s.schizophrenia,
        spec_primary(s).0 == DiagnosticGroup::BipolarDisorder ==> spec_primary(s).1
            == s.bipolar_disorder && s.bipolar_disorder > s.healthy && s.bipolar_disorder
            > s.schizophrenia && s.bipolar_disorder > s.personality_disorder,
{
}

/// Score the counts of a text and select the primary group. The softmax
/// over the raw scores is strictly monotone, so the group selected here is
/// the group of greatest posterior probability.
pub fn classify_counts(m: &TextCounts, log_volume_micro: i64) -> (r: (RawScores, DiagnosticGroup))
    requires
        0 <= log_volume_micro <= 100_000_000,
        spec_counts_wf(*m),
    ensures
        r.0.healthy == spec_raw_score(spec_healthy_coefficients(), *m, log_volume_micro as int),
        r.0.schizophrenia == spec_raw_score(
            spec_schizophrenia_coefficients(),
            *m,
            log_volume_micro as int,
        ),
        r.0.personality_disorder == spec_raw_score(
            spec_personality_disorder_coefficients(),
            *m,
            log_volume_micro as int,
        ),
        r.0.bipolar_disorder == spec_raw_score(
            spec_bipolar_disorder_coefficients(),
            *m,
            log_volume_micro as int,
        ),
        r.1 == spec_primary(r.0).0,
{
    let scores = compute_raw_scores(m, log_volume_micro);
    let (group, _best) = primary_diagnosis(&scores);
    (scores, group)
}

} // verus!
