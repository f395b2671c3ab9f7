//! Classics, chapters and sentences: their records, the shapes of the
//! requests that change them, and what is replied for each way a
//! request can end.

pub mod chapter;
pub mod classic;
pub mod outcome;
pub mod sentence;

