//! Extraction of Arabic proverbs from loosely structured HTML.
//!
//! A proverb page lists each proverb as a `span` of Arabic text followed by a
//! flat chain of sibling nodes: a parenthesized phonetic transcription and, a
//! few nodes later, the English translation. This crate models that sibling
//! chain as plain data, and verifies the walk that aligns the three fields of
//! each proverb: the Arabic text, the transcription with its enclosing
//! parentheses stripped, and the first qualifying translation text.
#![verifier::loop_isolation(false)]

pub mod model;
pub mod text;
pub mod extract;
pub mod dom;
pub mod laws;
