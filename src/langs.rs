//! The rule tables of the supported languages.

pub mod burmese;
pub mod thai;
pub mod vietnamese;
