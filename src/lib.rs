//! Rule-driven transcription of Latin-script names into Cyrillic.
//!
//! A language is a table of `pattern => replacement` rules. Input text is split
//! into runs of alphabetic and non-alphabetic grapheme clusters; each alphabetic
//! run is case-folded, rewritten by greedy longest match with word-boundary
//! anchors, and given back the casing it was written in.

pub mod text;
pub mod casing;
pub mod rules;
pub mod engine;
pub mod handler;
pub mod langs;
pub mod transcriber;
pub mod laws;
