//! Phonemes as articulatory data, their transcription, and a fixed chain of
//! sound changes over words.

pub mod vector2;
pub mod phones;
pub mod chart;
pub mod word;
pub mod rewrite;
pub mod rules;
pub mod pipeline;
pub mod laws;
