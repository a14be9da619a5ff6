//! Reading the source text that a node covers.

use super::bindings::{first_child, node_ok, text_of, Node};
use super::rules::{
    boolean_of, bytes_of, content_from, decimal, facts, integer_of, is_digit, string_of, unsigned,
    word_false, word_true,
};
use crate::language::Cool;
use vstd::prelude::*;
use vstd::slice::slice_subrange;

verus! {

/// A kind of value that a literal spells.
pub trait Literal: Sized {
    /// The value that `bytes` spell, if they spell one.
    spec fn spelled(bytes: Seq<u8>) -> Option<Self>;

    /// Reads `bytes` as a value of this kind.
    fn parse(bytes: &[u8]) -> (value: Option<Self>)
        ensures
            value == Self::spelled(bytes@),
    ;
}

/// A string of digits spells at least what its beginning spells.
proof fn lemma_decimal_grows(digits: Seq<u8>, k: int)
    requires
        0 <= k <= digits.len(),
    ensures
        decimal(digits.take(k)) <= decimal(digits),
    decreases digits.len(),
{
    if k == digits.len() {
        assert(digits.take(k) =~= digits);
    } else {
        lemma_decimal_grows(digits.drop_last(), k);
        assert(digits.drop_last().take(k) =~= digits.take(k));
    }
}

impl Literal for u64 {
    open spec fn spelled(bytes: Seq<u8>) -> Option<u64> {
        integer_of(bytes)
    }

    fn parse(bytes: &[u8]) -> (value: Option<u64>) {
        let n = bytes.len();
        let start: usize = if n > 0 && bytes[0] == 43 {
            1
        } else {
            0
        };
        let ghost digits = unsigned(bytes@);
        if start == n {
            return None;
        }
        let mut value: u64 = 0;
        let mut i: usize = start;
        while i < n
            invariant
                start <= i <= n,
                n == bytes@.len(),
                digits == bytes@.skip(start as int),
                digits == unsigned(bytes@),
                forall|j: int| 0 <= j < i - start ==> is_digit(#[trigger] digits[j]),
                value == decimal(digits.take(i - start)),
            decreases n - i,
        {
            let byte = bytes[i];
            assert(digits[i - start] == byte);
            if byte < 48 || byte > 57 {
                return None;
            }
            let digit = (byte - 48) as u64;
            proof {
                assert(digits.take(i + 1 - start).drop_last() =~= digits.take(i - start));
            }
            if value > (u64::MAX - digit) / 10 {
                proof {
                    lemma_decimal_grows(digits, i + 1 - start);
                }
                return None;
            }
            value = value * 10 + digit;
            i = i + 1;
        }
        assert(digits.take(i - start) =~= digits);
        Some(value)
    }
}

impl Literal for bool {
    open spec fn spelled(bytes: Seq<u8>) -> Option<bool> {
        boolean_of(bytes)
    }

    fn parse(bytes: &[u8]) -> (value: Option<bool>) {
        if bytes.len() == 4 && bytes[0] == 116 && bytes[1] == 114 && bytes[2] == 117 && bytes[3]
            == 101 {
            assert(bytes@ =~= word_true());
            Some(true)
        } else if bytes.len() == 5 && bytes[0] == 102 && bytes[1] == 97 && bytes[2] == 108
            && bytes[3] == 115 && bytes[4] == 101 {
            assert(bytes@ =~= word_false());
            Some(false)
        } else {
            assert(bytes@ != word_true()) by {
                if bytes@ == word_true() {
                }
            }
            assert(bytes@ != word_false()) by {
                if bytes@ == word_false() {
                }
            }
            None
        }
    }
}

/// The text that `text` is, or the empty text when there is none.
pub open spec fn or_empty(text: Option<Seq<char>>) -> Seq<char> {
    match text {
        Some(text) => text,
        None => Seq::empty(),
    }
}

/// The text that `node` covers in `src`; the empty text when its range does
/// not lie in `src` or its bytes are not text.
pub fn lexeme<'a>(src: &'a [u8], node: &Node<'a>) -> (text: &'a str)
    ensures
        text@ == or_empty(text_of(src@, node.nodes()[node.index()].info)),
{
    match node.utf8_text(src) {
        Some(text) => text,
        None => {
            let text = "";
            proof {
                reveal_strlit("");
            }
            text
        },
    }
}

/// The value that the text of `node` spells, if it spells one.
pub fn trivial<T: Literal>(src: &[u8], node: &Node) -> (value: Option<T>)
    ensures
        value == (match bytes_of(src@, node.nodes()[node.index()].info) {
            Some(bytes) => T::spelled(bytes),
            None => None,
        }),
{
    let info = node.data().info;
    if info.start_byte <= info.end_byte && info.end_byte <= src.len() {
        T::parse(slice_subrange(src, info.start_byte, info.end_byte))
    } else {
        None
    }
}

/// The content of the string literal `node`: the text of the first of its
/// children that is string content; empty when it has no such child.
pub fn string<'a>(src: &'a [u8], node: &Node<'a>) -> (content: String)
    ensures
        content@ == string_of(facts(node.nodes(), src@, node.index())),
{
    let ghost nodes = node.nodes();
    let mut at = node.first_child();
    loop
        invariant
            nodes == node.nodes(),
            at matches Some(c) ==> c.nodes() == nodes,
            content_from(nodes, first_child(nodes, node.index())) == content_from(
                nodes,
                match at {
                    Some(c) => Some(c.index()),
                    None => None,
                },
            ),
        decreases
            (match at {
                Some(c) => nodes.len() - c.index(),
                None => 0,
            }),
    {
        match at {
            None => {
                let text = "";
                proof {
                    reveal_strlit("");
                }
                return text.to_owned();
            },
            Some(child) => {
                let data = child.data();
                assert(node_ok(nodes, child.index()));
                match child.rule() {
                    Cool::StringContent => {
                        return lexeme(src, &child).to_owned();
                    },
                    _ => {
                        at = child.next_sibling();
                    },
                }
            },
        }
    }
}

} // verus!
