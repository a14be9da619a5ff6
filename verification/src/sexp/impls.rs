//! Values that can be written as S-expressions.

use super::serializer::{
    cell_start, decimal, quoted, word, Layout, SexpSerializerImpl, Unbalanced,
};
use std::collections::VecDeque;
use vstd::prelude::*;
use vstd::string::StringSliceAdditionalSpecFns;

verus! {

/// A value that can be written as an S-expression.
pub trait ToSexp {
    /// Where a serializer that stood at `before` stands after this value
    /// has been written; nothing when the value cannot be written there.
    spec fn written(&self, before: Layout) -> Option<Layout>;

    /// Writes this value with `s`.
    fn to_sexp(&self, s: &mut SexpSerializerImpl) -> (r: Result<(), Unbalanced>)
        ensures
            (match self.written(old(s)@) {
                Some(after) => r is Ok && final(s)@ == after,
                None => r is Err,
            }),
    ;
}

/// Where a serializer stands after `bytes` have been written.
pub open spec fn appended(before: Layout, bytes: Seq<u8>) -> Layout {
    Layout { out: before.out + bytes, ..before }
}

impl ToSexp for bool {
    open spec fn written(&self, before: Layout) -> Option<Layout> {
        Some(appended(before, word(*self)))
    }

    fn to_sexp(&self, s: &mut SexpSerializerImpl) -> (r: Result<(), Unbalanced>) {
        s.serialize_bool(*self);
        Ok(())
    }
}

impl ToSexp for u8 {
    open spec fn written(&self, before: Layout) -> Option<Layout> {
        Some(appended(before, decimal(*self as int)))
    }

    fn to_sexp(&self, s: &mut SexpSerializerImpl) -> (r: Result<(), Unbalanced>) {
        s.serialize_unsigned(*self as u128);
        Ok(())
    }
}

impl ToSexp for u16 {
    open spec fn written(&self, before: Layout) -> Option<Layout> {
        Some(appended(before, decimal(*self as int)))
    }

    fn to_sexp(&self, s: &mut SexpSerializerImpl) -> (r: Result<(), Unbalanced>) {
        s.serialize_unsigned(*self as u128);
        Ok(())
    }
}

impl ToSexp for u32 {
    open spec fn written(&self, before: Layout) -> Option<Layout> {
        Some(appended(before, decimal(*self as int)))
    }

    fn to_sexp(&self, s: &mut SexpSerializerImpl) -> (r: Result<(), Unbalanced>) {
        s.serialize_unsigned(*self as u128);
        Ok(())
    }
}

impl ToSexp for u64 {
    open spec fn written(&self, before: Layout) -> Option<Layout> {
        Some(appended(before, decimal(*self as int)))
    }

    fn to_sexp(&self, s: &mut SexpSerializerImpl) -> (r: Result<(), Unbalanced>) {
        s.serialize_unsigned(*self as u128);
        Ok(())
    }
}

impl ToSexp for u128 {
    open spec fn written(&self, before: Layout) -> Option<Layout> {
        Some(appended(before, decimal(*self as int)))
    }

    fn to_sexp(&self, s: &mut SexpSerializerImpl) -> (r: Result<(), Unbalanced>) {
        s.serialize_unsigned(*self);
        Ok(())
    }
}

impl ToSexp for i8 {
    open spec fn written(&self, before: Layout) -> Option<Layout> {
        Some(appended(before, decimal(*self as int)))
    }

    fn to_sexp(&self, s: &mut SexpSerializerImpl) -> (r: Result<(), Unbalanced>) {
        s.serialize_num(*self as i128);
        Ok(())
    }
}

impl ToSexp for i16 {
    open spec fn written(&self, before: Layout) -> Option<Layout> {
        Some(appended(before, decimal(*self as int)))
    }

    fn to_sexp(&self, s: &mut SexpSerializerImpl) -> (r: Result<(), Unbalanced>) {
        s.serialize_num(*self as i128);
        Ok(())
    }
}

impl ToSexp for i32 {
    open spec fn written(&self, before: Layout) -> Option<Layout> {
        Some(appended(before, decimal(*self as int)))
    }

    fn to_sexp(&self, s: &mut SexpSerializerImpl) -> (r: Result<(), Unbalanced>) {
        s.serialize_num(*self as i128);
        Ok(())
    }
}

impl ToSexp for i64 {
    open spec fn written(&self, before: Layout) -> Option<Layout> {
        Some(appended(before, decimal(*self as int)))
    }

    fn to_sexp(&self, s: &mut SexpSerializerImpl) -> (r: Result<(), Unbalanced>) {
        s.serialize_num(*self as i128);
        Ok(())
    }
}

impl ToSexp for i128 {
    open spec fn written(&self, before: Layout) -> Option<Layout> {
        Some(appended(before, decimal(*self as int)))
    }

    fn to_sexp(&self, s: &mut SexpSerializerImpl) -> (r: Result<(), Unbalanced>) {
        s.serialize_num(*self);
        Ok(())
    }
}

impl ToSexp for char {
    open spec fn written(&self, before: Layout) -> Option<Layout> {
        Some(appended(before, quoted(vstd::utf8::encode_utf8(seq![*self]))))
    }

    fn to_sexp(&self, s: &mut SexpSerializerImpl) -> (r: Result<(), Unbalanced>) {
        s.serialize_char(*self);
        Ok(())
    }
}

impl ToSexp for str {
    open spec fn written(&self, before: Layout) -> Option<Layout> {
        Some(appended(before, quoted(self.spec_bytes())))
    }

    fn to_sexp(&self, s: &mut SexpSerializerImpl) -> (r: Result<(), Unbalanced>) {
        s.serialize_str(self);
        Ok(())
    }
}

impl ToSexp for String {
    open spec fn written(&self, before: Layout) -> Option<Layout> {
        Some(appended(before, quoted(vstd::utf8::encode_utf8(self@))))
    }

    fn to_sexp(&self, s: &mut SexpSerializerImpl) -> (r: Result<(), Unbalanced>) {
        s.serialize_str(self.as_str());
        Ok(())
    }
}

impl<T: ToSexp> ToSexp for Option<T> {
    open spec fn written(&self, before: Layout) -> Option<Layout> {
        match self {
            Some(value) => value.written(before),
            None => Some(before),
        }
    }

    fn to_sexp(&self, s: &mut SexpSerializerImpl) -> (r: Result<(), Unbalanced>) {
        match self {
            Some(value) => s.serialize_some(value),
            None => {
                s.serialize_none();
                Ok(())
            },
        }
    }
}

impl<T: ToSexp> ToSexp for Box<T> {
    open spec fn written(&self, before: Layout) -> Option<Layout> {
        (**self).written(before)
    }

    fn to_sexp(&self, s: &mut SexpSerializerImpl) -> (r: Result<(), Unbalanced>) {
        (**self).to_sexp(s)
    }
}

/// Where a serializer that stood at `before` stands after the values of
/// `items` have been written one after the other.
pub open spec fn written_all<T: ToSexp>(items: Seq<T>, before: Layout) -> Option<Layout>
    decreases items.len(),
{
    if items.len() == 0 {
        Some(before)
    } else {
        match written_all(items.drop_last(), before) {
            Some(mid) => items.last().written(mid),
            None => None,
        }
    }
}

impl<T: ToSexp> ToSexp for Vec<T> {
    open spec fn written(&self, before: Layout) -> Option<Layout> {
        written_all(self@, before)
    }

    fn to_sexp(&self, s: &mut SexpSerializerImpl) -> (r: Result<(), Unbalanced>) {
        let mut i: usize = 0;
        while i < self.len()
            invariant
                i <= self.len(),
                written_all(self@.take(i as int), old(s)@) == Some(s@),
            decreases self.len() - i,
        {
            proof {
                assert(self@.take(i + 1).drop_last() =~= self@.take(i as int));
            }
            match self[i].to_sexp(s) {
                Ok(()) => {},
                Err(e) => {
                    proof {
                        lemma_written_all_fails(self@, i + 1, old(s)@);
                    }
                    return Err(e);
                },
            }
            i = i + 1;
        }
        assert(self@.take(i as int) =~= self@);
        Ok(())
    }
}

impl<T: ToSexp> ToSexp for [T] {
    open spec fn written(&self, before: Layout) -> Option<Layout> {
        written_all(self@, before)
    }

    fn to_sexp(&self, s: &mut SexpSerializerImpl) -> (r: Result<(), Unbalanced>) {
        let mut i: usize = 0;
        assert(self@.take(0) =~= Seq::<T>::empty());
        while i < self.len()
            invariant
                i <= self.len(),
                written_all(self@.take(i as int), old(s)@) == Some(s@),
            decreases self.len() - i,
        {
            proof {
                assert(self@.take(i + 1).drop_last() =~= self@.take(i as int));
                assert(self@.take(i + 1).last() == self@[i as int]);
            }
            match self[i].to_sexp(s) {
                Ok(()) => {},
                Err(e) => {
                    proof {
                        lemma_written_all_fails(self@, i + 1, old(s)@);
                    }
                    return Err(e);
                },
            }
            i = i + 1;
        }
        assert(self@.take(i as int) =~= self@);
        Ok(())
    }
}

impl<T: ToSexp> ToSexp for VecDeque<T> {
    open spec fn written(&self, before: Layout) -> Option<Layout> {
        written_all(self@, before)
    }

    fn to_sexp(&self, s: &mut SexpSerializerImpl) -> (r: Result<(), Unbalanced>) {
        let mut i: usize = 0;
        assert(self@.take(0) =~= Seq::<T>::empty());
        while i < self.len()
            invariant
                i <= self.len(),
                written_all(self@.take(i as int), old(s)@) == Some(s@),
            decreases self.len() - i,
        {
            proof {
                assert(self@.take(i + 1).drop_last() =~= self@.take(i as int));
                assert(self@.take(i + 1).last() == self@[i as int]);
            }
            match self[i].to_sexp(s) {
                Ok(()) => {},
                Err(e) => {
                    proof {
                        lemma_written_all_fails(self@, i + 1, old(s)@);
                    }
                    return Err(e);
                },
            }
            i = i + 1;
        }
        assert(self@.take(i as int) =~= self@);
        Ok(())
    }
}

impl<'a, T: ToSexp> ToSexp for &'a T {
    open spec fn written(&self, before: Layout) -> Option<Layout> {
        (**self).written(before)
    }

    fn to_sexp(&self, s: &mut SexpSerializerImpl) -> (r: Result<(), Unbalanced>) {
        (**self).to_sexp(s)
    }
}

impl<'a, T: ToSexp> ToSexp for &'a mut T {
    open spec fn written(&self, before: Layout) -> Option<Layout> {
        (**self).written(before)
    }

    fn to_sexp(&self, s: &mut SexpSerializerImpl) -> (r: Result<(), Unbalanced>) {
        (**self).to_sexp(s)
    }
}

/// When the first `k` of the items cannot be written, neither can all.
proof fn lemma_written_all_fails<T: ToSexp>(items: Seq<T>, k: int, before: Layout)
    requires
        0 <= k <= items.len(),
        written_all(items.take(k), before) is None,
    ensures
        written_all(items, before) is None,
    decreases items.len(),
{
    if k == items.len() {
        assert(items.take(k) =~= items);
    } else {
        assert(items.drop_last().take(k) =~= items.take(k));
        lemma_written_all_fails(items.drop_last(), k, before);
    }
}

/// Where a serializer that stood at `before` stands after a field named
/// `name` with the value `value` has been written: the field is a cell of
/// its own, with a colon between name and value.
pub open spec fn written_field<T: ToSexp>(before: Layout, name: Seq<u8>, value: &T) -> Option<
    Layout,
> {
    if before.depth >= usize::MAX {
        None
    } else {
        let marked = Layout { has_value: true, ..before };
        let opened = Layout {
            out: before.out + cell_start(marked, name) + seq![58u8, 32u8],
            depth: before.depth + 1,
            has_value: true,
        };
        match value.written(opened) {
            Some(inner) => if inner.depth > 0 {
                Some(
                    Layout {
                        out: inner.out + seq![41u8],
                        depth: (inner.depth - 1) as nat,
                        has_value: inner.has_value,
                    },
                )
            } else {
                None
            },
            None => None,
        }
    }
}

/// Where a serializer that stood at `before` stands after a cell named
/// `name` has been written whose content is what `content` says.
pub open spec fn written_cell(
    before: Layout,
    name: Seq<u8>,
    content: spec_fn(Layout) -> Option<Layout>,
) -> Option<Layout> {
    if before.depth >= usize::MAX {
        None
    } else {
        let opened = Layout {
            out: before.out + cell_start(before, name),
            depth: before.depth + 1,
            has_value: before.has_value,
        };
        match content(opened) {
            Some(inner) => if inner.depth > 0 {
                Some(
                    Layout {
                        out: inner.out + seq![41u8],
                        depth: (inner.depth - 1) as nat,
                        has_value: inner.has_value,
                    },
                )
            } else {
                None
            },
            None => None,
        }
    }
}

impl SexpSerializerImpl {
    /// Writes a value that is present: the value itself.
    pub fn serialize_some<T: ToSexp>(&mut self, value: &T) -> (r: Result<(), Unbalanced>)
        ensures
            (match value.written(old(self)@) {
                Some(after) => r is Ok && final(self)@ == after,
                None => r is Err,
            }),
    {
        value.to_sexp(self)
    }

    /// Writes a cell named `name`: opens it, lets `f` write what it holds,
    /// and closes it. Whatever `content` describes what `f` writes, the
    /// cell is that content between its opening and its closing.
    pub fn cell<F: FnOnce(&mut SexpSerializerImpl) -> Result<(), Unbalanced>>(
        &mut self,
        name: &str,
        f: F,
    ) -> (r: Result<(), Unbalanced>)
        requires
            forall|s: &mut SexpSerializerImpl| call_requires(f, (s,)),
        ensures
            forall|content: spec_fn(Layout) -> Option<Layout>|
                (forall|s: &mut SexpSerializerImpl, inner: Result<(), Unbalanced>| #[trigger]
                    call_ensures(f, (s,), inner) ==> (match content((*s)@) {
                        Some(after) => inner is Ok && (*final(s))@ == after,
                        None => inner is Err,
                    })) ==> (match #[trigger] written_cell(
                    old(self)@,
                    name.spec_bytes(),
                    content,
                ) {
                    Some(after) => r is Ok && final(self)@ == after,
                    None => r is Err,
                }),
    {
        self.begin_cell(name)?;
        f(self)?;
        self.end_cell()
    }

    /// Writes a field without a name: the value itself.
    pub fn serialize_tuple_field<T: ToSexp>(&mut self, value: &T) -> (r: Result<(), Unbalanced>)
        ensures
            (match value.written(Layout { has_value: true, ..old(self)@ }) {
                Some(after) => r is Ok && final(self)@ == after,
                None => r is Err,
            }),
    {
        self.mark_value();
        value.to_sexp(self)
    }

    /// Writes a field with a name, as a cell of its own.
    pub fn serialize_struct_field<T: ToSexp>(&mut self, field: &str, value: &T) -> (r: Result<
        (),
        Unbalanced,
    >)
        ensures
            (match written_field(old(self)@, field.spec_bytes(), value) {
                Some(after) => r is Ok && final(self)@ == after,
                None => r is Err,
            }),
    {
        self.mark_value();
        self.begin_cell(field)?;
        self.begin_value();
        value.to_sexp(self)?;
        self.end_value();
        self.end_cell()
    }
}

} // verus!
