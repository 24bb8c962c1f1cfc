//! The JSON text of an envelope: scalar values, members and the object
//! around them.
//!
//! Numbers, `true`, `false` and `null` are written here. The text of a JSON
//! string is asked of `serde_json`, and this file only names it.

use crate::expect_ext::ExpectExt;
use vstd::prelude::*;

verus! {

#[verifier::external_type_specification]
#[verifier::external_body]
pub struct ExJsonError(serde_json::Error);

/// A payload could not be written as JSON.
#[derive(Clone, Copy, Debug, PartialEq, Eq, Structural)]
pub struct SerializeError;

/// The value of one member of an envelope.
#[derive(Clone, Debug)]
pub enum FieldValue {
    /// `null`
    Null,
    /// `true` or `false`
    Bool(bool),
    /// a number from 0 to 255
    Number(u8),
    /// a string
    Text(String),
    /// a value that is JSON text already, such as a payload
    Raw(Vec<u8>),
}

/// What a [`FieldValue`] stands for.
pub enum FieldValueView {
    Null,
    Bool(bool),
    Number(u8),
    Text(Seq<char>),
    Raw(Seq<u8>),
}

impl View for FieldValue {
    type V = FieldValueView;

    open spec fn view(&self) -> FieldValueView {
        match self {
            FieldValue::Null => FieldValueView::Null,
            FieldValue::Bool(b) => FieldValueView::Bool(*b),
            FieldValue::Number(n) => FieldValueView::Number(*n),
            FieldValue::Text(s) => FieldValueView::Text(s@),
            FieldValue::Raw(b) => FieldValueView::Raw(b@),
        }
    }
}

/// One member of an envelope: a name and a value.
#[derive(Clone, Debug)]
pub struct Field {
    pub name: String,
    pub value: FieldValue,
}

/// What a [`Field`] stands for.
pub struct FieldView {
    pub name: Seq<char>,
    pub value: FieldValueView,
}

impl View for Field {
    type V = FieldView;

    open spec fn view(&self) -> FieldView {
        FieldView { name: self.name@, value: self.value@ }
    }
}

/// The members that a vector of fields stands for, in its order.
pub open spec fn field_views(fields: Seq<Field>) -> Seq<FieldView> {
    fields.map_values(|f: Field| f@)
}

/// The JSON text of a string, quotes and escapes included, as `serde_json`
/// writes it.
pub uninterp spec fn json_string(text: Seq<char>) -> Seq<u8>;

/// The digits of `n` in base ten, the most significant first.
pub open spec fn decimal(n: nat) -> Seq<u8>
    decreases n,
{
    if n < 10 {
        seq![(48 + n) as u8]
    } else {
        decimal(n / 10).push((48 + n % 10) as u8)
    }
}

/// The JSON text of an integer: a minus sign where it is negative, then the
/// digits of its magnitude.
pub open spec fn integer_text(n: int) -> Seq<u8> {
    if n < 0 {
        seq![45u8] + decimal((-n) as nat)
    } else {
        decimal(n as nat)
    }
}

/// The JSON text `null`.
pub open spec fn null_text() -> Seq<u8> {
    seq![110u8, 117u8, 108u8, 108u8]
}

/// The JSON text `true` or `false`.
pub open spec fn bool_text(b: bool) -> Seq<u8> {
    if b {
        seq![116u8, 114u8, 117u8, 101u8]
    } else {
        seq![102u8, 97u8, 108u8, 115u8, 101u8]
    }
}

/// The JSON text of a value.
pub open spec fn value_text(value: FieldValueView) -> Seq<u8> {
    match value {
        FieldValueView::Null => null_text(),
        FieldValueView::Bool(b) => bool_text(b),
        FieldValueView::Number(n) => decimal(n as nat),
        FieldValueView::Text(s) => json_string(s),
        FieldValueView::Raw(b) => b,
    }
}

/// The JSON text of a member: its name as a string, a colon, its value.
pub open spec fn member_text(field: FieldView) -> Seq<u8> {
    json_string(field.name) + seq![58u8] + value_text(field.value)
}

/// The texts of the members of `fields`, in their order.
pub open spec fn member_texts(fields: Seq<FieldView>) -> Seq<Seq<u8>> {
    fields.map_values(|f: FieldView| member_text(f))
}

/// `parts` one after another, with a comma between each two.
pub open spec fn comma_joined(parts: Seq<Seq<u8>>) -> Seq<u8>
    decreases parts.len(),
{
    if parts.len() == 0 {
        Seq::empty()
    } else if parts.len() == 1 {
        parts[0]
    } else {
        comma_joined(parts.drop_last()) + seq![44u8] + parts.last()
    }
}

/// The JSON text of an object whose members have the texts `parts`.
pub open spec fn object_of(parts: Seq<Seq<u8>>) -> Seq<u8> {
    seq![123u8] + comma_joined(parts) + seq![125u8]
}

/// The JSON text of the object that holds `fields`, in their order.
pub open spec fn object_text(fields: Seq<FieldView>) -> Seq<u8> {
    object_of(member_texts(fields))
}

/// `serde_json::to_vec` on a string: the JSON text of that string. It does
/// not fail: a string serializes as itself, and the vector that is written
/// to takes every byte.
#[verifier::external_body]
pub(crate) fn encode_str(text: &str) -> (r: Result<Vec<u8>, serde_json::Error>)
    ensures
        r is Ok,
        r matches Ok(bytes) ==> bytes@ == json_string(text@),
{
    serde_json::to_vec(text)
}

/// `String::push`: `c` comes behind the text.
#[verifier::external_body]
pub(crate) fn push_char(text: &mut String, c: char)
    ensures
        final(text)@ == old(text)@.push(c),
{
    text.push(c)
}

/// The characters that the bytes of a text of digits and signs stand for.
pub open spec fn ascii_chars(bytes: Seq<u8>) -> Seq<char> {
    bytes.map_values(|b: u8| b as char)
}

/// The text that `bytes` spell, byte for character.
pub fn ascii_text(bytes: &Vec<u8>) -> (r: String)
    ensures
        r@ == ascii_chars(bytes@),
{
    let mut out = String::new();
    let mut i: usize = 0;
    while i < bytes.len()
        invariant
            i <= bytes.len(),
            out@ == ascii_chars(bytes@.take(i as int)),
        decreases bytes.len() - i,
    {
        push_char(&mut out, bytes[i] as char);
        i += 1;
        assert(bytes@.take(i as int) == bytes@.take(i as int - 1).push(bytes@[i as int - 1]));
    }
    assert(bytes@.take(bytes.len() as int) == bytes@);
    out
}

/// Appends every byte of `tail` to `out`.
pub fn push_all(out: &mut Vec<u8>, tail: &Vec<u8>)
    ensures
        final(out)@ == old(out)@ + tail@,
{
    let mut i: usize = 0;
    while i < tail.len()
        invariant
            i <= tail.len(),
            out@ == old(out)@ + tail@.take(i as int),
        decreases tail.len() - i,
    {
        out.push(tail[i]);
        i += 1;
        assert(tail@.take(i as int) == tail@.take(i as int - 1).push(tail@[i as int - 1]));
    }
    assert(tail@.take(tail.len() as int) == tail@);
}

/// Appends the digits of `n` in base ten to `out`.
pub fn push_decimal(out: &mut Vec<u8>, n: u64)
    ensures
        final(out)@ == old(out)@ + decimal(n as nat),
    decreases n,
{
    if n >= 10 {
        push_decimal(out, n / 10);
    }
    let digit: u8 = (n % 10) as u8;
    out.push(48 + digit);
}

/// The JSON text of an unsigned integer.
pub fn write_unsigned(n: u64) -> (r: Vec<u8>)
    ensures
        r@ == integer_text(n as int),
{
    let mut out: Vec<u8> = Vec::new();
    push_decimal(&mut out, n);
    out
}

/// The JSON text of a signed integer.
pub fn write_signed(n: i64) -> (r: Vec<u8>)
    ensures
        r@ == integer_text(n as int),
{
    let mut out: Vec<u8> = Vec::new();
    if n < 0 {
        out.push(45);
        let magnitude: u64 = if n == i64::MIN {
            9223372036854775808
        } else {
            (-n) as u64
        };
        push_decimal(&mut out, magnitude);
    } else {
        push_decimal(&mut out, n as u64);
    }
    out
}

/// The JSON text `null`.
pub fn write_null() -> (r: Vec<u8>)
    ensures
        r@ == null_text(),
{
    let mut out: Vec<u8> = Vec::new();
    out.push(110);
    out.push(117);
    out.push(108);
    out.push(108);
    out
}

/// The JSON text of a boolean.
pub fn write_bool(b: bool) -> (r: Vec<u8>)
    ensures
        r@ == bool_text(b),
{
    let mut out: Vec<u8> = Vec::new();
    if b {
        out.push(116);
        out.push(114);
        out.push(117);
        out.push(101);
    } else {
        out.push(102);
        out.push(97);
        out.push(108);
        out.push(115);
        out.push(101);
    }
    out
}

/// The JSON text of a string, as `serde_json` writes it.
pub fn write_string(text: &str) -> (r: Vec<u8>)
    ensures
        r@ == json_string(text@),
{
    encode_str(text).with_expect("a string is written as JSON")
}

/// The JSON text of a value.
pub fn write_value(value: &FieldValue) -> (r: Vec<u8>)
    ensures
        r@ == value_text(value@),
{
    match value {
        FieldValue::Null => write_null(),
        FieldValue::Bool(b) => write_bool(*b),
        FieldValue::Number(n) => write_unsigned(*n as u64),
        FieldValue::Text(s) => write_string(s.as_str()),
        FieldValue::Raw(b) => b.clone(),
    }
}

/// The JSON text of a member, from the text of its name and of its value.
pub fn join_member(name: &Vec<u8>, value: &Vec<u8>) -> (r: Vec<u8>)
    ensures
        r@ == name@ + seq![58u8] + value@,
{
    let mut out: Vec<u8> = Vec::new();
    push_all(&mut out, name);
    out.push(58);
    push_all(&mut out, value);
    out
}

/// The JSON text of a member.
pub fn write_member(field: &Field) -> (r: Vec<u8>)
    ensures
        r@ == member_text(field@),
{
    let name = write_string(field.name.as_str());
    let value = write_value(&field.value);
    join_member(&name, &value)
}

/// The JSON text of an object, from the texts of its members: an opening
/// brace, the members with a comma between each two, a closing brace.
pub fn join_object(parts: &Vec<Vec<u8>>) -> (r: Vec<u8>)
    ensures
        r@ == object_of(parts@.map_values(|p: Vec<u8>| p@)),
{
    let ghost texts = parts@.map_values(|p: Vec<u8>| p@);
    let mut out: Vec<u8> = Vec::new();
    out.push(123);
    let mut i: usize = 0;
    while i < parts.len()
        invariant
            i <= parts.len(),
            texts == parts@.map_values(|p: Vec<u8>| p@),
            out@ == seq![123u8] + comma_joined(texts.take(i as int)),
        decreases parts.len() - i,
    {
        let ghost before = texts.take(i as int);
        let ghost after = texts.take(i as int + 1);
        assert(after.drop_last() == before);
        assert(after.last() == parts@[i as int]@);
        if i > 0 {
            out.push(44);
        }
        push_all(&mut out, &parts[i]);
        i += 1;
    }
    assert(texts.take(parts.len() as int) == texts);
    out.push(125);
    out
}

/// The JSON text of the object that holds `fields`, in their order.
pub fn write_object(fields: &Vec<Field>) -> (r: Vec<u8>)
    ensures
        r@ == object_text(field_views(fields@)),
{
    let ghost wanted = member_texts(field_views(fields@));
    let mut parts: Vec<Vec<u8>> = Vec::new();
    let mut i: usize = 0;
    while i < fields.len()
        invariant
            i <= fields.len(),
            wanted == member_texts(field_views(fields@)),
            parts@.map_values(|p: Vec<u8>| p@) == wanted.take(i as int),
        decreases fields.len() - i,
    {
        let part = write_member(&fields[i]);
        let ghost done = parts@.map_values(|p: Vec<u8>| p@);
        parts.push(part);
        i += 1;
        assert(parts@.map_values(|p: Vec<u8>| p@) == done.push(part@));
        assert(wanted.take(i as int) == wanted.take(i as int - 1).push(wanted[i as int - 1]));
    }
    assert(wanted.take(fields.len() as int) == wanted);
    join_object(&parts)
}

} // verus!
