//! Source positions.

use vstd::prelude::*;

verus! {

/// A region of source text: start row, start column, end row, end column,
/// all counted from one.
pub type Span = (usize, usize, usize, usize);

/// A value paired with the region of source text it belongs to.
#[derive(Debug)]
pub struct Spanned<T> {
    pub inner: T,
    pub span: Span,
}

impl<T: View> View for Spanned<T> {
    type V = Spanned<T::V>;

    open spec fn view(&self) -> Spanned<T::V> {
        Spanned { inner: self.inner@, span: self.span }
    }
}

} // verus!
