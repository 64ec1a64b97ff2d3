//! Structural analysis of Russian written speech.
//!
//! The crate tags each word of a text morphologically, segments the text
//! into sentences and classifies their structure, aggregates the tags into
//! a vector of counts, and scores that vector against four fixed
//! calibration groups with a linear discriminant model. Every percentage
//! reported downstream is `100 * count / total_words` over the fields of
//! [`analyzer::TextCounts`]; the posterior probabilities are a softmax over
//! the raw discriminant scores, which are computed here exactly in fixed
//! point.
//!
//! The analysis is research tooling, not a medical instrument: its output
//! is never a diagnosis.

pub mod analyzer;
pub mod classifier;
pub mod lexicon;
pub mod morphology;
pub mod rsmorph;
pub mod sentence;
pub mod text;

pub use analyzer::TextAnalyzer;
pub use analyzer::TextCounts;
pub use classifier::DiagnosticGroup;
pub use classifier::DiscriminantCoefficients;
pub use classifier::RawScores;
pub use morphology::MorphAnalyzer;
pub use rsmorph::PartOfSpeech;
pub use rsmorph::PredicateType;
pub use rsmorph::PronounNumber;
pub use rsmorph::PronounPerson;
pub use rsmorph::VerbForm;
pub use rsmorph::VerbTense;
pub use sentence::SentenceAnalysis;
pub use sentence::SentenceAnalyzer;
pub use sentence::SentenceType;
