//! The serializer: it appends the text of an S-expression to a buffer of
//! bytes, cell by cell.

use vstd::prelude::*;
use vstd::string::StringSliceAdditionalSpecFns;

verus! {

/// What a serializer has written and where it stands: the bytes so far,
/// how many cells are open, and whether a field has been written so that
/// the next cell starts on a line of its own.
pub struct Layout {
    pub out: Seq<u8>,
    pub depth: nat,
    pub has_value: bool,
}

/// A cell cannot be opened or closed: too many cells are open, or none is.
#[derive(Debug, PartialEq, Eq, Clone, Copy, Structural)]
pub struct Unbalanced;

/// Writes S-expressions into a buffer of bytes.
pub struct SexpSerializerImpl {
    writer: Vec<u8>,
    indent_depth: usize,
    has_value: bool,
}

impl View for SexpSerializerImpl {
    type V = Layout;

    closed spec fn view(&self) -> Layout {
        Layout {
            out: self.writer@,
            depth: self.indent_depth as nat,
            has_value: self.has_value,
        }
    }
}

/// The bytes that stand for the byte `byte` inside a quoted string: a
/// backslash and a letter for backspace, tab, line feed, form feed and
/// carriage return, a backslash and the quote for a quote, and the byte
/// itself otherwise.
pub open spec fn escape(byte: u8) -> Seq<u8> {
    if byte == 8 {
        seq![92u8, 98u8]
    } else if byte == 9 {
        seq![92u8, 116u8]
    } else if byte == 10 {
        seq![92u8, 110u8]
    } else if byte == 12 {
        seq![92u8, 102u8]
    } else if byte == 13 {
        seq![92u8, 114u8]
    } else if byte == 34 {
        seq![92u8, 34u8]
    } else {
        seq![byte]
    }
}

/// The bytes `bytes` as they stand inside a quoted string.
pub open spec fn escaped(bytes: Seq<u8>) -> Seq<u8>
    decreases bytes.len(),
{
    if bytes.len() == 0 {
        Seq::empty()
    } else {
        escaped(bytes.drop_last()) + escape(bytes.last())
    }
}

/// The bytes `bytes` as a quoted string.
pub open spec fn quoted(bytes: Seq<u8>) -> Seq<u8> {
    seq![34u8] + escaped(bytes) + seq![34u8]
}

/// The indentation of a line inside `depth` open cells: two spaces for each.
pub open spec fn indentation(depth: nat) -> Seq<u8>
    decreases depth,
{
    if depth == 0 {
        Seq::empty()
    } else {
        indentation((depth - 1) as nat) + seq![32u8, 32u8]
    }
}

/// The bytes of the word for a truth value.
pub open spec fn word(value: bool) -> Seq<u8> {
    if value {
        seq![116u8, 114u8, 117u8, 101u8]
    } else {
        seq![102u8, 97u8, 108u8, 115u8, 101u8]
    }
}

/// The decimal digits of a natural number, without leading zeros.
pub open spec fn digits(n: nat) -> Seq<u8>
    decreases n,
{
    if n < 10 {
        seq![(48 + n) as u8]
    } else {
        digits(n / 10).push((48 + n % 10) as u8)
    }
}

/// A number in decimal, with a minus sign when it is negative.
pub open spec fn decimal(i: int) -> Seq<u8> {
    if i < 0 {
        seq![45u8] + digits((-i) as nat)
    } else {
        digits(i as nat)
    }
}

/// What opening a cell named `name` writes: a new line with its indentation
/// when a field has been written, then the parenthesis and the name.
pub open spec fn cell_start(before: Layout, name: Seq<u8>) -> Seq<u8> {
    (if before.has_value {
        seq![10u8] + indentation(before.depth)
    } else {
        Seq::empty()
    }) + seq![40u8] + name
}

/// `itoa::Buffer::format` on a signed number: its decimal digits, after a
/// minus sign when it is negative.
#[verifier::external_body]
fn format_signed(value: i128) -> (text: Vec<u8>)
    ensures
        text@ == decimal(value as int),
{
    itoa::Buffer::new().format(value).as_bytes().to_vec()
}

/// `itoa::Buffer::format` on an unsigned number: its decimal digits.
#[verifier::external_body]
fn format_unsigned(value: u128) -> (text: Vec<u8>)
    ensures
        text@ == decimal(value as int),
{
    itoa::Buffer::new().format(value).as_bytes().to_vec()
}

/// `char::encode_utf8`, as a text of its own: the text that holds the one
/// character `value`.
#[verifier::external_body]
fn char_text(value: char) -> (text: String)
    ensures
        text@ == seq![value],
{
    value.encode_utf8(&mut [0_u8; 4]).to_owned()
}

/// Appends `bytes` to `writer`.
fn write_all(writer: &mut Vec<u8>, bytes: &[u8])
    ensures
        final(writer)@ == old(writer)@ + bytes@,
{
    let mut i: usize = 0;
    while i < bytes.len()
        invariant
            i <= bytes.len(),
            writer@ == old(writer)@ + bytes@.take(i as int),
        decreases bytes.len() - i,
    {
        writer.push(bytes[i]);
        i = i + 1;
    }
}

/// Appends `value` to `writer` as a quoted string.
pub fn format_escaped_str(writer: &mut Vec<u8>, value: &str)
    ensures
        final(writer)@ == old(writer)@ + quoted(value.spec_bytes()),
{
    writer.push(34);
    format_escaped_str_content(writer, value);
    writer.push(34);
}

/// Appends `value` to `writer` as it stands inside a quoted string.
pub fn format_escaped_str_content(writer: &mut Vec<u8>, value: &str)
    ensures
        final(writer)@ == old(writer)@ + escaped(value.spec_bytes()),
{
    let bytes = value.as_bytes();
    let mut i: usize = 0;
    while i < bytes.len()
        invariant
            i <= bytes.len(),
            bytes@ == value.spec_bytes(),
            writer@ == old(writer)@ + escaped(bytes@.take(i as int)),
        decreases bytes.len() - i,
    {
        let byte = bytes[i];
        let letter: Option<u8> = if byte == 8 {
            Some(98)
        } else if byte == 9 {
            Some(116)
        } else if byte == 10 {
            Some(110)
        } else if byte == 12 {
            Some(102)
        } else if byte == 13 {
            Some(114)
        } else if byte == 34 {
            Some(34)
        } else {
            None
        };
        match letter {
            Some(letter) => {
                writer.push(92);
                writer.push(letter);
            },
            None => {
                writer.push(byte);
            },
        }
        proof {
            assert(bytes@.take(i + 1).drop_last() =~= bytes@.take(i as int));
        }
        i = i + 1;
    }
    assert(bytes@.take(i as int) =~= bytes@);
}

/// Appends `fragment` to `writer` as it is.
pub fn write_string_fragment(writer: &mut Vec<u8>, fragment: &str)
    ensures
        final(writer)@ == old(writer)@ + fragment.spec_bytes(),
{
    write_all(writer, fragment.as_bytes());
}

/// Appends the indentation of a line inside `n` open cells to `writer`.
pub fn indent(writer: &mut Vec<u8>, n: usize)
    ensures
        final(writer)@ == old(writer)@ + indentation(n as nat),
{
    let mut i: usize = 0;
    while i < n
        invariant
            i <= n,
            writer@ == old(writer)@ + indentation(i as nat),
        decreases n - i,
    {
        writer.push(32);
        writer.push(32);
        i = i + 1;
    }
}

impl SexpSerializerImpl {
    /// A serializer that appends to `writer`, with no cell open.
    pub fn new(writer: Vec<u8>) -> (s: SexpSerializerImpl)
        ensures
            s@ == (Layout { out: writer@, depth: 0, has_value: false }),
    {
        SexpSerializerImpl { writer, indent_depth: 0, has_value: false }
    }

    /// The buffer with all that was written.
    pub fn into_inner(self) -> (writer: Vec<u8>)
        ensures
            writer@ == self@.out,
    {
        self.writer
    }

    /// Writes a truth value as the word `true` or `false`.
    pub fn serialize_bool(&mut self, value: bool)
        ensures
            final(self)@ == (Layout { out: old(self)@.out + word(value), ..old(self)@ }),
    {
        if value {
            self.writer.push(116);
            self.writer.push(114);
            self.writer.push(117);
            self.writer.push(101);
        } else {
            self.writer.push(102);
            self.writer.push(97);
            self.writer.push(108);
            self.writer.push(115);
            self.writer.push(101);
        }
        assert(self.writer@ =~= old(self).writer@ + word(value));
    }

    /// Writes a number in decimal.
    pub fn serialize_num(&mut self, value: i128)
        ensures
            final(self)@ == (Layout { out: old(self)@.out + decimal(value as int), ..old(self)@ }),
    {
        let text = format_signed(value);
        write_all(&mut self.writer, text.as_slice());
    }

    /// Writes a number that has no sign in decimal.
    pub fn serialize_unsigned(&mut self, value: u128)
        ensures
            final(self)@ == (Layout { out: old(self)@.out + decimal(value as int), ..old(self)@ }),
    {
        let text = format_unsigned(value);
        write_all(&mut self.writer, text.as_slice());
    }

    /// Writes a character as a quoted string of that one character.
    pub fn serialize_char(&mut self, value: char)
        ensures
            final(self)@ == (Layout {
                out: old(self)@.out + quoted(vstd::utf8::encode_utf8(seq![value])),
                ..old(self)@
            }),
    {
        let text = char_text(value);
        self.serialize_str(text.as_str());
    }

    /// Writes a text as a quoted string.
    pub fn serialize_str(&mut self, value: &str)
        ensures
            final(self)@ == (Layout {
                out: old(self)@.out + quoted(value.spec_bytes()),
                ..old(self)@
            }),
    {
        format_escaped_str(&mut self.writer, value);
    }

    /// Writes a value that is absent: nothing.
    pub fn serialize_none(&mut self)
        ensures
            final(self)@ == old(self)@,
    {
        self.serialize_unit();
    }

    /// Writes a value without content: nothing.
    pub fn serialize_unit(&mut self)
        ensures
            final(self)@ == old(self)@,
    {
    }

    /// Writes a text as it is, without quotes.
    pub fn serialize_fragment(&mut self, fragment: &str)
        ensures
            final(self)@ == (Layout {
                out: old(self)@.out + fragment.spec_bytes(),
                ..old(self)@
            }),
    {
        write_string_fragment(&mut self.writer, fragment);
    }

    /// Writes a type without fields: its bare name.
    pub fn serialize_unit_struct(&mut self, name: &str)
        ensures
            final(self)@ == (Layout { out: old(self)@.out + name.spec_bytes(), ..old(self)@ }),
    {
        self.serialize_fragment(name);
    }

    /// Notes that a field is being written, so that the cells that follow
    /// start on lines of their own.
    pub fn mark_value(&mut self)
        ensures
            final(self)@ == (Layout { has_value: true, ..old(self)@ }),
    {
        self.has_value = true;
    }

    /// Opens a cell named `name`. No cell is opened, and nothing is
    /// written, when as many cells are open as can be counted.
    pub fn begin_cell(&mut self, name: &str) -> (r: Result<(), Unbalanced>)
        ensures
            r is Ok <==> old(self)@.depth < usize::MAX,
            r is Ok ==> final(self)@ == (Layout {
                out: old(self)@.out + cell_start(old(self)@, name.spec_bytes()),
                depth: old(self)@.depth + 1,
                has_value: old(self)@.has_value,
            }),
            r is Err ==> final(self)@ == old(self)@,
    {
        if self.indent_depth == usize::MAX {
            return Err(Unbalanced);
        }
        if self.has_value {
            self.writer.push(10);
            indent(&mut self.writer, self.indent_depth);
        }
        self.indent_depth = self.indent_depth + 1;
        self.writer.push(40);
        write_string_fragment(&mut self.writer, name);
        assert(self.writer@ =~= old(self).writer@ + cell_start(old(self)@, name.spec_bytes()));
        Ok(())
    }

    /// Closes the innermost open cell. Nothing is written when no cell is
    /// open.
    pub fn end_cell(&mut self) -> (r: Result<(), Unbalanced>)
        ensures
            r is Ok <==> old(self)@.depth > 0,
            r is Ok ==> final(self)@ == (Layout {
                out: old(self)@.out + seq![41u8],
                depth: (old(self)@.depth - 1) as nat,
                has_value: old(self)@.has_value,
            }),
            r is Err ==> final(self)@ == old(self)@,
    {
        if self.indent_depth == 0 {
            return Err(Unbalanced);
        }
        self.indent_depth = self.indent_depth - 1;
        self.writer.push(41);
        assert(self.writer@ =~= old(self).writer@ + seq![41u8]);
        Ok(())
    }

    /// Writes what stands between the name of a field and its value: a
    /// colon and a space.
    pub fn begin_value(&mut self)
        ensures
            final(self)@ == (Layout { out: old(self)@.out + seq![58u8, 32u8], ..old(self)@ }),
    {
        self.writer.push(58);
        self.writer.push(32);
        assert(self.writer@ =~= old(self).writer@ + seq![58u8, 32u8]);
    }

    /// Writes what follows the value of a field: nothing.
    pub fn end_value(&mut self)
        ensures
            final(self)@ == old(self)@,
    {
    }
}

} // verus!
