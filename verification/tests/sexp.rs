use cool::sexp::impls::ToSexp;
use cool::sexp::serializer::{
    format_escaped_str, format_escaped_str_content, indent, write_string_fragment, Layout,
    SexpSerializerImpl, Unbalanced,
};

fn assert_sexp<T: ToSexp + ?Sized>(value: &T, expected: &str) {
    let mut serializer = SexpSerializerImpl::new(Vec::new());

    match value.to_sexp(&mut serializer) {
        Ok(()) => {}
        Err(err) => panic!("failed generating s-expression for value: {:?}", err),
    }
    let actual = String::from_utf8(serializer.into_inner()).unwrap();

    println!("{actual}");

    assert_eq!(actual, expected)
}

#[allow(dead_code)]
struct Unit(Vec<u8>);

impl ToSexp for Unit {
    fn written(&self, _: Layout) -> Option<Layout> {
        unreachable!()
    }

    fn to_sexp(&self, s: &mut SexpSerializerImpl) -> Result<(), Unbalanced> {
        s.serialize_unit_struct("unit");
        Ok(())
    }
}

#[test]
fn test_unit_struct() {
    assert_sexp(&Unit(vec![1, 2, 3]), "unit");
}

struct Pair {
    foo: i32,
    flag: bool,
}

impl ToSexp for Pair {
    fn written(&self, _: Layout) -> Option<Layout> {
        unreachable!()
    }

    fn to_sexp(&self, s: &mut SexpSerializerImpl) -> Result<(), Unbalanced> {
        s.begin_cell("pair")?;
        s.serialize_struct_field("foo", &self.foo)?;
        s.serialize_struct_field("flag", &self.flag)?;
        s.end_cell()
    }
}

#[test]
fn fields_are_cells_on_lines_of_their_own() {
    assert_sexp(&Pair { foo: 4, flag: false }, "(pair\n  (foo: 4)\n  (flag: false))");
}

struct Outer {
    inner: Pair,
}

impl ToSexp for Outer {
    fn written(&self, _: Layout) -> Option<Layout> {
        unreachable!()
    }

    fn to_sexp(&self, s: &mut SexpSerializerImpl) -> Result<(), Unbalanced> {
        s.begin_cell("outer")?;
        s.serialize_struct_field("inner", &self.inner)?;
        s.end_cell()
    }
}

#[test]
fn nested_cells_are_indented_by_their_depth() {
    assert_sexp(
        &Outer { inner: Pair { foo: -80, flag: true } },
        "(outer\n  (inner: \n    (pair\n      (foo: -80)\n      (flag: true))))",
    );
}

#[test]
fn numbers_are_written_in_decimal() {
    assert_sexp(&0u8, "0");
    assert_sexp(&255u8, "255");
    assert_sexp(&-128i8, "-128");
    assert_sexp(&65535u16, "65535");
    assert_sexp(&-2147483648i32, "-2147483648");
    assert_sexp(&18446744073709551615u64, "18446744073709551615");
    assert_sexp(&-9223372036854775808i64, "-9223372036854775808");
    assert_sexp(&340282366920938463463374607431768211455u128, "340282366920938463463374607431768211455");
    assert_sexp(&i128::MIN, "-170141183460469231731687303715884105728");
    assert_sexp(&1234567u32, "1234567");
}

#[test]
fn truth_values_are_words() {
    assert_sexp(&true, "true");
    assert_sexp(&false, "false");
}

#[test]
fn strings_are_quoted_and_escaped() {
    assert_sexp(&String::from("plain"), "\"plain\"");
    assert_sexp(
        &String::from("a\"b\tc\nd\re\u{8}f\u{c}g"),
        "\"a\\\"b\\tc\\nd\\re\\bf\\fg\"",
    );
    assert_sexp(&String::from("back\\slash"), "\"back\\slash\"");
    assert_sexp(&String::from(""), "\"\"");
}

#[test]
fn lists_are_written_item_after_item() {
    assert_sexp(&vec![1u8, 2, 3], "123");
    assert_sexp(&Vec::<u8>::new(), "");
    assert_sexp(&vec![true, false], "truefalse");
}

#[test]
fn absent_values_write_nothing() {
    assert_sexp(&Option::<u8>::None, "");
    assert_sexp(&Some(7u8), "7");
    assert_sexp(&Box::new(Some(String::from("x"))), "\"x\"");
}

#[test]
fn tuple_fields_are_bare_values() {
    let mut s = SexpSerializerImpl::new(Vec::new());
    s.begin_cell("point").unwrap();
    s.serialize_tuple_field(&1u8).unwrap();
    s.begin_cell("next").unwrap();
    s.end_cell().unwrap();
    s.end_cell().unwrap();
    assert_eq!(String::from_utf8(s.into_inner()).unwrap(), "(point1\n  (next))");
}

#[test]
fn closing_without_an_open_cell_fails() {
    let mut s = SexpSerializerImpl::new(Vec::new());
    assert_eq!(s.end_cell(), Err(Unbalanced));
    assert_eq!(s.begin_cell("a"), Ok(()));
    assert_eq!(s.end_cell(), Ok(()));
    assert_eq!(s.end_cell(), Err(Unbalanced));
    assert_eq!(String::from_utf8(s.into_inner()).unwrap(), "(a)");
}

#[test]
fn the_serializer_appends_to_its_buffer() {
    let mut s = SexpSerializerImpl::new(b"; ".to_vec());
    s.serialize_bool(true);
    s.begin_value();
    s.end_value();
    s.serialize_none();
    s.serialize_unit();
    s.serialize_num(-5);
    s.serialize_unsigned(5);
    s.serialize_str("q");
    assert_eq!(String::from_utf8(s.into_inner()).unwrap(), "; true: -55\"q\"");
}

#[test]
fn fragments_and_indentation() {
    let mut out = Vec::new();
    write_string_fragment(&mut out, "name");
    indent(&mut out, 0);
    indent(&mut out, 2);
    format_escaped_str_content(&mut out, "a\nb");
    format_escaped_str(&mut out, "c\"");
    assert_eq!(String::from_utf8(out).unwrap(), "name    a\\nb\"c\\\"\"");
}

#[test]
fn characters_are_quoted_strings() {
    assert_sexp(&'a', "\"a\"");
    assert_sexp(&'"', "\"\\\"\"");
    assert_sexp(&'\n', "\"\\n\"");
    assert_sexp(&'\u{e9}', "\"\u{e9}\"");
    assert_sexp(&'\u{1f600}', "\"\u{1f600}\"");
    let mut s = SexpSerializerImpl::new(Vec::new());
    s.serialize_char('z');
    assert_eq!(String::from_utf8(s.into_inner()).unwrap(), "\"z\"");
}

#[test]
fn borrowed_values_are_written_as_what_they_point_to() {
    assert_sexp("text", "\"text\"");
    assert_sexp(&&7u8, "7");
    let mut flag = true;
    assert_sexp(&&mut flag, "true");
    let items = [1u8, 20, 3];
    assert_sexp(&items[..], "1203");
    assert_sexp(&items[..0], "");
    let queue: std::collections::VecDeque<i32> = vec![-1, 2].into();
    assert_sexp(&queue, "-12");
    assert_sexp(&std::collections::VecDeque::<bool>::new(), "");
}

#[test]
fn a_cell_holds_what_its_closure_writes() {
    let mut s = SexpSerializerImpl::new(Vec::new());
    let r = s.cell("outer", |s| {
        s.serialize_bool(true);
        s.mark_value();
        s.cell("inner", |s| {
            s.serialize_num(5);
            Ok(())
        })
    });
    assert_eq!(r, Ok(()));
    assert_eq!(String::from_utf8(s.into_inner()).unwrap(), "(outertrue\n  (inner5))");

    let mut s = SexpSerializerImpl::new(Vec::new());
    let r = s.cell("a", |s| s.end_cell().and_then(|_| s.end_cell()));
    assert_eq!(r, Err(Unbalanced));
    let mut s = SexpSerializerImpl::new(Vec::new());
    let r = s.cell("a", |s| s.end_cell());
    assert_eq!(r, Err(Unbalanced));
    assert_eq!(String::from_utf8(s.into_inner()).unwrap(), "(a)");
}
