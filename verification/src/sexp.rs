//! Writing values as S-expressions, for debugging: each value is a cell with
//! a name, and its parts are cells or bare values inside it.

pub mod case;
pub mod impls;
pub mod serializer;
pub mod symbol;
