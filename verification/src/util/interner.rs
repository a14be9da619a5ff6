//! Symbol interner: maps each distinct piece of text to a dense integer handle.

use rustc_hash::{FxBuildHasher, FxHashMap};
use vstd::prelude::*;

verus! {

/// rustc-hash's `FxBuildHasher`, the hasher of the lookup table. Nothing is
/// claimed of it.
#[verifier::external_type_specification]
#[verifier::external_body]
pub struct ExFxBuildHasher(FxBuildHasher);

/// The largest capacity hint that is handed on when storage is reserved.
pub const CAPACITY_LIMIT: usize = 0x100_0000;

/// The entries of a lookup table: each stored text with the number filed under it.
pub uninterp spec fn table_entries(table: FxHashMap<String, usize>) -> Map<Seq<char>, usize>;

/// A table without entries.
pub open spec fn no_entries() -> Map<Seq<char>, usize> {
    Map::empty()
}

/// `HashMap::with_capacity_and_hasher` with rustc-hash's `FxBuildHasher`:
/// the new table holds no entry. The hint is kept small enough that sizing
/// the table cannot overflow.
#[verifier::external_body]
fn table_with_capacity(capacity: usize) -> (table: FxHashMap<String, usize>)
    requires
        capacity <= CAPACITY_LIMIT,
    ensures
        table_entries(table) == no_entries(),
{
    FxHashMap::with_capacity_and_hasher(capacity, FxBuildHasher)
}

/// `HashMap::get` on a table hashed by rustc-hash: the number filed under
/// `key`, if the table has an entry for exactly that text.
#[verifier::external_body]
fn table_get(table: &FxHashMap<String, usize>, key: &str) -> (found: Option<usize>)
    ensures
        found == (if table_entries(*table).contains_key(key@) {
            Some(table_entries(*table)[key@])
        } else {
            None
        }),
{
    table.get(key).copied()
}

/// `HashMap::insert` on a table hashed by rustc-hash: afterwards the table
/// files `value` under `key` and is otherwise unchanged.
#[verifier::external_body]
fn table_insert(table: &mut FxHashMap<String, usize>, key: String, value: usize)
    ensures
        table_entries(*final(table)) == table_entries(*old(table)).insert(key@, value),
{
    table.insert(key, value);
}

/// Handle of an interned text.
#[derive(Debug, PartialEq, Eq, Structural)]
pub struct InternedIdx(usize);

impl View for InternedIdx {
    type V = nat;

    open spec fn view(&self) -> nat {
        self.index() as nat
    }
}

impl InternedIdx {
    /// The position of the text among the distinct texts, in first-seen order.
    pub closed spec fn index(&self) -> usize {
        self.0
    }

    /// The position of the text among the distinct texts, in first-seen order.
    pub fn value(&self) -> (value: usize)
        ensures
            value == self@,
    {
        self.0
    }
}

/// The interner. Its model is the sequence of distinct texts seen so far, in
/// first-seen order; the handle of a text is its position in that sequence.
pub struct Interner {
    map: FxHashMap<String, usize>,
    vec: Vec<String>,
}

impl View for Interner {
    type V = Seq<Seq<char>>;

    closed spec fn view(&self) -> Seq<Seq<char>> {
        self.vec@.map_values(|s: String| s@)
    }
}

impl Interner {
    /// The lookup table and the list of texts agree: the table files each
    /// text under its position in the list, and holds nothing else.
    pub closed spec fn wf(&self) -> bool {
        &&& forall|i: int| 0 <= i < self.vec@.len() ==> {
            &&& #[trigger] table_entries(self.map).contains_key(self.vec@[i]@)
            &&& table_entries(self.map)[self.vec@[i]@] == i
        }
        &&& forall|k: Seq<char>| #[trigger] table_entries(self.map).contains_key(k) ==> {
            &&& table_entries(self.map)[k] < self.vec@.len()
            &&& self.vec@[table_entries(self.map)[k] as int]@ == k
        }
    }

    /// No text is stored twice.
    pub proof fn lemma_distinct(&self)
        requires
            self.wf(),
        ensures
            self@.no_duplicates(),
    {
        assert forall|i: int, j: int|
            0 <= i < self@.len() && 0 <= j < self@.len() && i != j implies self@[i] != self@[j] by {
            assert(table_entries(self.map).contains_key(self.vec@[i]@));
        }
    }

    /// An empty interner, sized for `capacity` texts. The capacity is a hint:
    /// above `CAPACITY_LIMIT` it is cut down to that.
    pub fn with_capacity(capacity: usize) -> (interner: Interner)
        ensures
            interner.wf(),
            interner@ == Seq::<Seq<char>>::empty(),
    {
        let hint = if capacity > CAPACITY_LIMIT {
            CAPACITY_LIMIT
        } else {
            capacity
        };
        let interner = Interner { map: table_with_capacity(hint), vec: Vec::with_capacity(hint) };
        interner
    }

    /// The handle of `name`: the one issued before if this exact text was seen,
    /// else the next unused number, under which a copy of the text is kept.
    pub fn intern(&mut self, name: &str) -> (idx: InternedIdx)
        requires
            old(self).wf(),
        ensures
            final(self).wf(),
            final(self)@ == intern_names(old(self)@, name@),
            idx@ == intern_index(old(self)@, name@),
    {
        match table_get(&self.map, name) {
            Some(idx) => {
                proof {
                    self.lemma_distinct();
                    lemma_index_unique(self@, name@, idx as int);
                }
                InternedIdx(idx)
            },
            None => {
                let idx = self.vec.len();
                assert(!self@.contains(name@)) by {
                    if self@.contains(name@) {
                        let i = choose|i: int| 0 <= i < self@.len() && self@[i] == name@;
                    }
                }
                table_insert(&mut self.map, name.to_owned(), idx);
                self.vec.push(name.to_owned());
                InternedIdx(idx)
            },
        }
    }

    /// The number of distinct texts seen so far.
    pub fn intern_count(&self) -> (count: usize)
        ensures
            count == self@.len(),
    {
        self.vec.len()
    }

    /// The text that `idx` was issued for.
    pub fn lookup(&self, idx: &InternedIdx) -> (text: &str)
        requires
            self.wf(),
            idx@ < self@.len(),
        ensures
            text@ == self@[idx@ as int],
    {
        self.vec[idx.0].as_str()
    }
}

/// The distinct texts after `text` has been interned.
pub open spec fn intern_names(names: Seq<Seq<char>>, text: Seq<char>) -> Seq<Seq<char>> {
    if names.contains(text) {
        names
    } else {
        names.push(text)
    }
}

/// The handle that interning `text` gives.
pub open spec fn intern_index(names: Seq<Seq<char>>, text: Seq<char>) -> nat {
    if names.contains(text) {
        names.index_of(text) as nat
    } else {
        names.len()
    }
}

/// The distinct texts after each of `texts` has been interned in turn.
pub open spec fn intern_each(names: Seq<Seq<char>>, texts: Seq<Seq<char>>) -> Seq<Seq<char>>
    decreases texts.len(),
{
    if texts.len() == 0 {
        names
    } else {
        intern_names(intern_each(names, texts.drop_last()), texts.last())
    }
}

/// Interning is idempotent: a text that is interned again gets the handle
/// that it got the first time, and the second time changes nothing.
pub proof fn lemma_intern_again(names: Seq<Seq<char>>, text: Seq<char>)
    requires
        names.no_duplicates(),
    ensures
        intern_names(intern_names(names, text), text) == intern_names(names, text),
        intern_index(intern_names(names, text), text) == intern_index(names, text),
        intern_names(names, text).no_duplicates(),
        intern_names(names, text)[intern_index(names, text) as int] == text,
{
    let after = intern_names(names, text);
    if names.contains(text) {
    } else {
        assert(after.no_duplicates()) by {
            assert forall|i: int, j: int|
                0 <= i < after.len() && 0 <= j < after.len() && i != j implies after[i]
                != after[j] by {
                if i < names.len() {
                }
                if j < names.len() {
                }
            }
        }
        lemma_index_unique(after, text, names.len() as int);
    }
}

/// Interning keeps the order in which texts were first seen: texts that all
/// differ, interned in turn by an interner that knows none, are kept in
/// their order, and each gets its place in that order as its handle.
pub proof fn lemma_first_seen_order(texts: Seq<Seq<char>>, i: int)
    requires
        texts.no_duplicates(),
        0 <= i <= texts.len(),
    ensures
        intern_each(Seq::empty(), texts.take(i)) == texts.take(i),
        i < texts.len() ==> intern_index(intern_each(Seq::empty(), texts.take(i)), texts[i]) == i,
    decreases i,
{
    if i == 0 {
    } else {
        lemma_first_seen_order(texts, i - 1);
        assert(texts.take(i).drop_last() =~= texts.take(i - 1));
        assert(!texts.take(i - 1).contains(texts[i - 1])) by {
            if texts.take(i - 1).contains(texts[i - 1]) {
                let before = texts.take(i - 1);
                let j = choose|j: int| 0 <= j < before.len() && before[j] == texts[i - 1];
            }
        }
    }
    if i < texts.len() {
        assert(!texts.take(i).contains(texts[i])) by {
            if texts.take(i).contains(texts[i]) {
                let before = texts.take(i);
                let j = choose|j: int| 0 <= j < before.len() && before[j] == texts[i];
            }
        }
    }
}

proof fn lemma_index_unique(names: Seq<Seq<char>>, text: Seq<char>, i: int)
    requires
        names.no_duplicates(),
        0 <= i < names.len(),
        names[i] == text,
    ensures
        names.contains(text),
        names.index_of(text) == i,
{
    let j = names.index_of(text);
}

} // verus!
