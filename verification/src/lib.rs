//! A verified line, word, character and byte counter.
//!
//! The library is organised around a small counting engine: the mode
//! resolver ([`modes`]) turns command-line flags into the set of active
//! metrics; a [`count::Count`] record holds one optional accumulator per
//! active metric; the stream counter ([`count`]) folds lines of text
//! into a `Count`; the reporter ([`report`]) folds per-input counts into
//! a running total; and the renderer ([`render`]) turns a finished
//! `Count` into the printed report row. The laws the engine obeys are
//! stated and proved in [`laws`].

pub mod count;
pub mod laws;
pub mod modes;
pub mod render;
pub mod report;
pub mod words;
