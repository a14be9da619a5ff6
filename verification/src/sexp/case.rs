//! The rules by which the names of fields and variants are rewritten.

use crate::util::text::same_text;
use vstd::prelude::*;
use vstd::string::StrSliceExecFns;

verus! {

/// A way to rewrite the names of the fields or variants of a type.
#[derive(Default, Copy, Clone, Debug, PartialEq, Eq, Structural)]
pub enum RenameRule {
    /// The name stays as it is.
    #[default]
    Exact,
    /// All letters small, words run together.
    LowerCase,
    /// All letters capital, words run together.
    UpperCase,
    /// Each word begins with a capital, words run together.
    PascalCase,
    /// As `PascalCase`, the first letter small.
    CamelCase,
    /// All letters small, an underscore between words.
    SnakeCase,
    /// All letters capital, an underscore between words.
    ScreamingSnakeCase,
    /// All letters small, a hyphen between words.
    KebabCase,
    /// All letters capital, a hyphen between words.
    ScreamingKebabCase,
}

/// A text that names no rule.
#[derive(Debug)]
pub struct ParseError<'a>(pub &'a str);

/// The rule that `text` names, if it names one.
pub open spec fn rule_named(text: Seq<char>) -> Option<RenameRule> {
    if text == "lowercase"@ {
        Some(RenameRule::LowerCase)
    } else if text == "UPPERCASE"@ {
        Some(RenameRule::UpperCase)
    } else if text == "PascalCase"@ {
        Some(RenameRule::PascalCase)
    } else if text == "camelCase"@ {
        Some(RenameRule::CamelCase)
    } else if text == "snake_case"@ {
        Some(RenameRule::SnakeCase)
    } else if text == "SCREAMING_SNAKE_CASE"@ {
        Some(RenameRule::ScreamingSnakeCase)
    } else if text == "kebab-case"@ {
        Some(RenameRule::KebabCase)
    } else if text == "SCREAMING-KEBAB-CASE"@ {
        Some(RenameRule::ScreamingKebabCase)
    } else {
        None
    }
}

/// Whether `c` is a capital letter, as Unicode has it.
pub uninterp spec fn uppercase(c: char) -> bool;

/// `char::is_uppercase`: whether `c` is a capital letter, as Unicode has it.
#[verifier::external_body]
fn is_uppercase(c: char) -> (capital: bool)
    ensures
        capital == uppercase(c),
{
    c.is_uppercase()
}

/// `String::from_iter` on characters: the text that holds `chars`, in order.
#[verifier::external_body]
fn text_from(chars: Vec<char>) -> (text: String)
    ensures
        text@ == chars@,
{
    chars.into_iter().collect()
}

/// Whether `c` is one of the characters of ASCII.
pub open spec fn is_ascii_char(c: char) -> bool {
    (c as u32) < 128
}

/// The small letter for `c` when it is a capital letter of ASCII, else `c`.
pub open spec fn lower(c: char) -> char {
    if 'A' <= c && c <= 'Z' {
        ((c as u8) + 32) as char
    } else {
        c
    }
}

/// The capital letter for `c` when it is a small letter of ASCII, else `c`.
pub open spec fn upper(c: char) -> char {
    if 'a' <= c && c <= 'z' {
        ((c as u8) - 32) as char
    } else {
        c
    }
}

/// `text` with its capital letters of ASCII made small.
pub open spec fn lowered(text: Seq<char>) -> Seq<char> {
    text.map_values(|c: char| lower(c))
}

/// `text` with its small letters of ASCII made capital.
pub open spec fn raised(text: Seq<char>) -> Seq<char> {
    text.map_values(|c: char| upper(c))
}

/// `text` with a hyphen for each underscore.
pub open spec fn hyphened(text: Seq<char>) -> Seq<char> {
    text.map_values(
        |c: char|
            if c == '_' {
                '-'
            } else {
                c
            },
    )
}

/// `text` with its first character made small.
pub open spec fn first_lowered(text: Seq<char>) -> Seq<char> {
    seq![lower(text[0])] + text.skip(1)
}

/// What the character at place `i` of the name of a variant becomes in
/// snake case: the character made small, after an underscore when it is a
/// capital letter that is not the first character.
pub open spec fn snake_piece(text: Seq<char>, i: int) -> Seq<char> {
    if i > 0 && uppercase(text[i]) {
        seq!['_', lower(text[i])]
    } else {
        seq![lower(text[i])]
    }
}

/// The name of a variant in snake case.
pub open spec fn snake(text: Seq<char>) -> Seq<char>
    decreases text.len(),
{
    if text.len() == 0 {
        Seq::empty()
    } else {
        snake(text.drop_last()) + snake_piece(text, text.len() - 1)
    }
}

/// What the character at place `i` of the name of a field becomes in
/// Pascal case: nothing when it is an underscore, the character made
/// capital when it is the first or follows an underscore, else itself.
pub open spec fn pascal_piece(text: Seq<char>, i: int) -> Seq<char> {
    if text[i] == '_' {
        Seq::empty()
    } else if i == 0 || text[i - 1] == '_' {
        seq![upper(text[i])]
    } else {
        seq![text[i]]
    }
}

/// The name of a field in Pascal case.
pub open spec fn pascal(text: Seq<char>) -> Seq<char>
    decreases text.len(),
{
    if text.len() == 0 {
        Seq::empty()
    } else {
        pascal(text.drop_last()) + pascal_piece(text, text.len() - 1)
    }
}

/// The name that a variant named `text` gets under `rule`.
pub open spec fn renamed_variant(rule: RenameRule, text: Seq<char>) -> Seq<char> {
    match rule {
        RenameRule::Exact | RenameRule::PascalCase => text,
        RenameRule::LowerCase => lowered(text),
        RenameRule::UpperCase => raised(text),
        RenameRule::CamelCase => first_lowered(text),
        RenameRule::SnakeCase => snake(text),
        RenameRule::ScreamingSnakeCase => raised(snake(text)),
        RenameRule::KebabCase => hyphened(snake(text)),
        RenameRule::ScreamingKebabCase => hyphened(raised(snake(text))),
    }
}

/// The name that a field named `text` gets under `rule`.
pub open spec fn renamed_field(rule: RenameRule, text: Seq<char>) -> Seq<char> {
    match rule {
        RenameRule::Exact | RenameRule::LowerCase | RenameRule::SnakeCase => text,
        RenameRule::UpperCase | RenameRule::ScreamingSnakeCase => raised(text),
        RenameRule::PascalCase => pascal(text),
        RenameRule::CamelCase => first_lowered(pascal(text)),
        RenameRule::KebabCase => hyphened(text),
        RenameRule::ScreamingKebabCase => hyphened(raised(text)),
    }
}

/// Whether the first character of `text` can be made small on its own:
/// there is one, and it is a character of ASCII.
pub open spec fn starts_plain(text: Seq<char>) -> bool {
    text.len() > 0 && is_ascii_char(text[0])
}

/// The characters of `text`.
fn chars_of(text: &str) -> (chars: Vec<char>)
    ensures
        chars@ == text@,
{
    let n = text.unicode_len();
    let mut chars: Vec<char> = Vec::new();
    let mut i: usize = 0;
    while i < n
        invariant
            i <= n,
            n == text@.len(),
            chars@ == text@.take(i as int),
        decreases n - i,
    {
        chars.push(text.get_char(i));
        i = i + 1;
    }
    chars
}

/// The small letter for `c` when it is a capital letter of ASCII, else `c`.
fn to_lower(c: char) -> (small: char)
    ensures
        small == lower(c),
{
    if 'A' <= c && c <= 'Z' {
        ((c as u8) + 32) as char
    } else {
        c
    }
}

/// The capital letter for `c` when it is a small letter of ASCII, else `c`.
fn to_upper(c: char) -> (capital: char)
    ensures
        capital == upper(c),
{
    if 'a' <= c && c <= 'z' {
        ((c as u8) - 32) as char
    } else {
        c
    }
}

/// `chars` with its capital letters of ASCII made small.
fn lowered_chars(chars: &Vec<char>) -> (out: Vec<char>)
    ensures
        out@ == lowered(chars@),
{
    let mut out: Vec<char> = Vec::new();
    let mut i: usize = 0;
    while i < chars.len()
        invariant
            i <= chars.len(),
            out@ == lowered(chars@.take(i as int)),
        decreases chars.len() - i,
    {
        out.push(to_lower(chars[i]));
        i = i + 1;
    }
    out
}

/// `chars` with its small letters of ASCII made capital.
fn raised_chars(chars: &Vec<char>) -> (out: Vec<char>)
    ensures
        out@ == raised(chars@),
{
    let mut out: Vec<char> = Vec::new();
    let mut i: usize = 0;
    while i < chars.len()
        invariant
            i <= chars.len(),
            out@ == raised(chars@.take(i as int)),
        decreases chars.len() - i,
    {
        out.push(to_upper(chars[i]));
        i = i + 1;
    }
    out
}

/// `chars` with a hyphen for each underscore.
fn hyphened_chars(chars: &Vec<char>) -> (out: Vec<char>)
    ensures
        out@ == hyphened(chars@),
{
    let mut out: Vec<char> = Vec::new();
    let mut i: usize = 0;
    while i < chars.len()
        invariant
            i <= chars.len(),
            out@ == hyphened(chars@.take(i as int)),
        decreases chars.len() - i,
    {
        let c = chars[i];
        out.push(
            if c == '_' {
                '-'
            } else {
                c
            },
        );
        i = i + 1;
    }
    out
}

/// `chars` with its first character made small.
fn first_lowered_chars(chars: &Vec<char>) -> (out: Vec<char>)
    requires
        chars@.len() > 0,
    ensures
        out@ == first_lowered(chars@),
{
    let mut out: Vec<char> = Vec::new();
    out.push(to_lower(chars[0]));
    let mut i: usize = 1;
    while i < chars.len()
        invariant
            1 <= i <= chars.len(),
            out@ == seq![lower(chars@[0])] + chars@.subrange(1, i as int),
        decreases chars.len() - i,
    {
        out.push(chars[i]);
        i = i + 1;
    }
    out
}

/// The name of a variant in snake case.
fn snake_chars(chars: &Vec<char>) -> (out: Vec<char>)
    ensures
        out@ == snake(chars@),
{
    let mut out: Vec<char> = Vec::new();
    let mut i: usize = 0;
    while i < chars.len()
        invariant
            i <= chars.len(),
            out@ == snake(chars@.take(i as int)),
        decreases chars.len() - i,
    {
        let c = chars[i];
        if i > 0 && is_uppercase(c) {
            out.push('_');
        }
        out.push(to_lower(c));
        proof {
            let next = chars@.take(i + 1);
            assert(next.drop_last() =~= chars@.take(i as int));
        }
        i = i + 1;
    }
    assert(chars@.take(i as int) =~= chars@);
    out
}

/// The name of a field in Pascal case.
fn pascal_chars(chars: &Vec<char>) -> (out: Vec<char>)
    ensures
        out@ == pascal(chars@),
{
    let mut out: Vec<char> = Vec::new();
    let mut capitalize = true;
    let mut i: usize = 0;
    while i < chars.len()
        invariant
            i <= chars.len(),
            out@ == pascal(chars@.take(i as int)),
            capitalize == (i == 0 || chars@[i - 1] == '_'),
        decreases chars.len() - i,
    {
        let c = chars[i];
        if c == '_' {
            capitalize = true;
        } else if capitalize {
            out.push(to_upper(c));
            capitalize = false;
        } else {
            out.push(c);
        }
        proof {
            let next = chars@.take(i + 1);
            assert(next.drop_last() =~= chars@.take(i as int));
            if i > 0 {
            }
        }
        i = i + 1;
    }
    assert(chars@.take(i as int) =~= chars@);
    out
}

impl RenameRule {
    /// The rule that `s` names. A text that names no rule comes back inside
    /// the error.
    pub fn from_str(s: &str) -> (r: Result<RenameRule, ParseError<'_>>)
        ensures
            (match rule_named(s@) {
                Some(rule) => r == Ok::<RenameRule, ParseError>(rule),
                None => r matches Err(error) && error.0@ == s@,
            }),
    {
        if same_text(s, "lowercase") {
            Ok(RenameRule::LowerCase)
        } else if same_text(s, "UPPERCASE") {
            Ok(RenameRule::UpperCase)
        } else if same_text(s, "PascalCase") {
            Ok(RenameRule::PascalCase)
        } else if same_text(s, "camelCase") {
            Ok(RenameRule::CamelCase)
        } else if same_text(s, "snake_case") {
            Ok(RenameRule::SnakeCase)
        } else if same_text(s, "SCREAMING_SNAKE_CASE") {
            Ok(RenameRule::ScreamingSnakeCase)
        } else if same_text(s, "kebab-case") {
            Ok(RenameRule::KebabCase)
        } else if same_text(s, "SCREAMING-KEBAB-CASE") {
            Ok(RenameRule::ScreamingKebabCase)
        } else {
            Err(ParseError(s))
        }
    }

    /// The name that a variant named `variant` gets under this rule. Camel
    /// case makes the first character small on its own, so that the name
    /// must begin with a character of ASCII.
    pub fn apply_to_variant(self, variant: &str) -> (name: String)
        requires
            self == RenameRule::CamelCase ==> starts_plain(variant@),
        ensures
            name@ == renamed_variant(self, variant@),
    {
        let chars = chars_of(variant);
        match self {
            RenameRule::Exact | RenameRule::PascalCase => text_from(chars),
            RenameRule::LowerCase => text_from(lowered_chars(&chars)),
            RenameRule::UpperCase => text_from(raised_chars(&chars)),
            RenameRule::CamelCase => text_from(first_lowered_chars(&chars)),
            RenameRule::SnakeCase => text_from(snake_chars(&chars)),
            RenameRule::ScreamingSnakeCase => text_from(raised_chars(&snake_chars(&chars))),
            RenameRule::KebabCase => text_from(hyphened_chars(&snake_chars(&chars))),
            RenameRule::ScreamingKebabCase => text_from(
                hyphened_chars(&raised_chars(&snake_chars(&chars))),
            ),
        }
    }

    /// The name that a field named `field` gets under this rule. Camel case
    /// makes the first character of the name in Pascal case small on its
    /// own, so that this name must begin with a character of ASCII.
    pub fn apply_to_field(self, field: &str) -> (name: String)
        requires
            self == RenameRule::CamelCase ==> starts_plain(pascal(field@)),
        ensures
            name@ == renamed_field(self, field@),
    {
        let chars = chars_of(field);
        match self {
            RenameRule::Exact | RenameRule::LowerCase | RenameRule::SnakeCase => text_from(chars),
            RenameRule::UpperCase | RenameRule::ScreamingSnakeCase => text_from(
                raised_chars(&chars),
            ),
            RenameRule::PascalCase => text_from(pascal_chars(&chars)),
            RenameRule::CamelCase => text_from(first_lowered_chars(&pascal_chars(&chars))),
            RenameRule::KebabCase => text_from(hyphened_chars(&chars)),
            RenameRule::ScreamingKebabCase => text_from(hyphened_chars(&raised_chars(&chars))),
        }
    }
}

} // verus!
