//! Small shared pieces: the symbol interner, source spans, and the
//! comparison of texts.

pub mod interner;
pub mod span;
pub mod text;
