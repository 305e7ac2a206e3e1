//! JSON text framing used on the wire: decimal numbers, quoted strings,
//! objects and arrays built from already-rendered members.
use vstd::prelude::*;

use serde_json::Error as JsonError;

verus! {

#[verifier::external_type_specification]
#[verifier::external_body]
pub struct ExJsonError(JsonError);

/// The lower-case hexadecimal digit for `d` (`d < 16`).
pub open spec fn hex_digit(d: int) -> char {
    if d < 10 {
        digit_char(d as nat)
    } else if d == 10 {
        'a'
    } else if d == 11 {
        'b'
    } else if d == 12 {
        'c'
    } else if d == 13 {
        'd'
    } else if d == 14 {
        'e'
    } else {
        'f'
    }
}

/// How a character is written inside a JSON string literal: `"` and `\`
/// behind a backslash; backspace, tab, line feed, form feed and carriage
/// return as `\b \t \n \f \r`; the other characters below U+0020 as
/// `\u00` and two lower-case hex digits; every other character as it is.
pub open spec fn json_char(c: char) -> Seq<char> {
    if c == '"' {
        seq!['\\', '"']
    } else if c == '\\' {
        seq!['\\', '\\']
    } else if c == '\u{8}' {
        seq!['\\', 'b']
    } else if c == '\t' {
        seq!['\\', 't']
    } else if c == '\n' {
        seq!['\\', 'n']
    } else if c == '\u{c}' {
        seq!['\\', 'f']
    } else if c == '\r' {
        seq!['\\', 'r']
    } else if (c as int) < 0x20 {
        seq!['\\', 'u', '0', '0', hex_digit(c as int / 16), hex_digit(c as int % 16)]
    } else {
        seq![c]
    }
}

/// The characters of `s`, each written as `json_char` says.
pub open spec fn json_escaped(s: Seq<char>) -> Seq<char>
    decreases s.len(),
{
    if s.len() == 0 {
        Seq::empty()
    } else {
        json_escaped(s.drop_last()) + json_char(s.last())
    }
}

/// The JSON string literal that serde_json writes for a string value: the
/// escaped characters between double quotes.
pub open spec fn json_str(s: Seq<char>) -> Seq<char> {
    seq!['"'] + json_escaped(s) + seq!['"']
}

/// Quotes `s` as a JSON string literal.
///
/// Calls `serde_json::to_string` on the `&str`; the contract claims that it
/// succeeds and gives `json_str(s@)`: serde_json's escape table escapes
/// exactly the quote, the backslash and the bytes below 0x20, in the forms
/// `json_char` lists, and writes every other byte as it is. Serializing a string only writes into a
/// growing byte vector, and the documented failures (a `Serialize` impl
/// that fails, a map with non-string keys) cannot occur for a string.
#[verifier::external_body]
pub(crate) fn quote(s: &str) -> (r: Result<String, serde_json::Error>)
    ensures
        r is Ok,
        r matches Ok(t) ==> t@ == json_str(s@),
{
    serde_json::to_string(s)
}

/// The decimal digit character for `d` (`d < 10`).
pub open spec fn digit_char(d: nat) -> char {
    if d == 0 {
        '0'
    } else if d == 1 {
        '1'
    } else if d == 2 {
        '2'
    } else if d == 3 {
        '3'
    } else if d == 4 {
        '4'
    } else if d == 5 {
        '5'
    } else if d == 6 {
        '6'
    } else if d == 7 {
        '7'
    } else if d == 8 {
        '8'
    } else {
        '9'
    }
}

/// Decimal numeral of a natural number, most significant digit first, no
/// leading zeros.
pub open spec fn dec_nat(n: nat) -> Seq<char>
    decreases n,
{
    if n < 10 {
        seq![digit_char(n)]
    } else {
        dec_nat(n / 10).push(digit_char(n % 10))
    }
}

/// Decimal numeral of an integer, with a leading `-` when negative.
pub open spec fn dec_int(v: int) -> Seq<char> {
    if v < 0 {
        seq!['-'] + dec_nat((-v) as nat)
    } else {
        dec_nat(v as nat)
    }
}

/// `true` / `false`.
pub open spec fn json_bool(b: bool) -> Seq<char> {
    if b {
        seq!['t', 'r', 'u', 'e']
    } else {
        seq!['f', 'a', 'l', 's', 'e']
    }
}

/// Members joined by commas.
pub open spec fn join_commas(items: Seq<Seq<char>>) -> Seq<char>
    decreases items.len(),
{
    if items.len() == 0 {
        Seq::empty()
    } else if items.len() == 1 {
        items[0]
    } else {
        join_commas(items.drop_last()) + seq![','] + items.last()
    }
}

/// A JSON object whose members (each `"key":value`) are already rendered.
pub open spec fn json_obj(members: Seq<Seq<char>>) -> Seq<char> {
    seq!['{'] + join_commas(members) + seq!['}']
}

/// A JSON array whose elements are already rendered.
pub open spec fn json_arr(elems: Seq<Seq<char>>) -> Seq<char> {
    seq!['['] + join_commas(elems) + seq![']']
}

/// The characters of each string of a sequence.
pub open spec fn texts(v: Seq<String>) -> Seq<Seq<char>> {
    v.map_values(|s: String| s@)
}

fn digit_str(d: u64) -> (r: &'static str)
    requires
        d < 10,
    ensures
        r@ == seq![digit_char(d as nat)],
{
    proof {
        reveal_strlit("0");
        reveal_strlit("1");
        reveal_strlit("2");
        reveal_strlit("3");
        reveal_strlit("4");
        reveal_strlit("5");
        reveal_strlit("6");
        reveal_strlit("7");
        reveal_strlit("8");
        reveal_strlit("9");
    }
    if d == 0 {
        "0"
    } else if d == 1 {
        "1"
    } else if d == 2 {
        "2"
    } else if d == 3 {
        "3"
    } else if d == 4 {
        "4"
    } else if d == 5 {
        "5"
    } else if d == 6 {
        "6"
    } else if d == 7 {
        "7"
    } else if d == 8 {
        "8"
    } else {
        "9"
    }
}

/// Appends the decimal numeral of `n` to `out`.
pub fn push_dec_u64(n: u64, out: &mut String)
    ensures
        final(out)@ == old(out)@ + dec_nat(n as nat),
    decreases n,
{
    if n >= 10 {
        push_dec_u64(n / 10, out);
    }
    out.append(digit_str(n % 10));
    proof {
        if n >= 10 {
            assert(old(out)@ + dec_nat(n as nat) =~= old(out)@ + dec_nat((n / 10) as nat) + seq![
                digit_char((n % 10) as nat),
            ]);
        }
    }
}

/// Appends the decimal numeral of `v` (with `-` when negative) to `out`.
pub fn push_dec_i64(v: i64, out: &mut String)
    ensures
        final(out)@ == old(out)@ + dec_int(v as int),
{
    if v < 0 {
        proof {
            reveal_strlit("-");
        }
        out.append("-");
        let m: u64 = ((-(v + 1)) as u64) + 1;
        assert(m as int == -(v as int));
        push_dec_u64(m, out);
        assert(final(out)@ =~= old(out)@ + dec_int(v as int));
    } else {
        push_dec_u64(v as u64, out);
    }
}

/// Decimal text of an `i64`.
pub fn dec_text(v: i64) -> (r: String)
    ensures
        r@ == dec_int(v as int),
{
    let mut s = String::new();
    push_dec_i64(v, &mut s);
    assert(s@ =~= dec_int(v as int));
    s
}

/// `true` or `false` as text.
pub fn bool_text(b: bool) -> (r: String)
    ensures
        r@ == json_bool(b),
{
    proof {
        reveal_strlit("true");
        reveal_strlit("false");
    }
    if b {
        "true".to_owned()
    } else {
        "false".to_owned()
    }
}

/// Members (or elements) joined by commas.
pub fn join_text(items: &Vec<String>) -> (r: String)
    ensures
        r@ == join_commas(texts(items@)),
{
    let mut out = String::new();
    let mut i: usize = 0;
    proof {
        reveal_strlit(",");
        assert(texts(items@).take(0) =~= Seq::<Seq<char>>::empty());
    }
    while i < items.len()
        invariant
            i <= items.len(),
            out@ == join_commas(texts(items@).take(i as int)),
        decreases items.len() - i,
    {
        let ghost prev = texts(items@).take(i as int);
        if i > 0 {
            out.append(",");
        }
        out.append(items[i].as_str());
        proof {
            let cur = texts(items@).take(i + 1);
            assert(cur.drop_last() =~= prev);
            assert(cur.last() == items@[i as int]@);
            if i == 0 {
                assert(cur.len() == 1);
                assert(out@ =~= cur[0]);
            } else {
                reveal_strlit(",");
                assert(","@ =~= seq![',']);
                assert(out@ =~= join_commas(prev) + seq![','] + cur.last());
                assert(join_commas(cur) == join_commas(cur.drop_last()) + seq![','] + cur.last());
            }
        }
        i = i + 1;
    }
    proof {
        assert(texts(items@).take(items.len() as int) =~= texts(items@));
    }
    out
}

/// A JSON object from rendered members.
pub fn obj_text(members: &Vec<String>) -> (r: String)
    ensures
        r@ == json_obj(texts(members@)),
{
    proof {
        reveal_strlit("{");
        reveal_strlit("}");
    }
    let mut out = "{".to_owned();
    let inner = join_text(members);
    out.append(inner.as_str());
    out.append("}");
    assert(out@ =~= json_obj(texts(members@)));
    out
}

/// A JSON array from rendered elements.
pub fn arr_text(elems: &Vec<String>) -> (r: String)
    ensures
        r@ == json_arr(texts(elems@)),
{
    proof {
        reveal_strlit("[");
        reveal_strlit("]");
    }
    let mut out = "[".to_owned();
    let inner = join_text(elems);
    out.append(inner.as_str());
    out.append("]");
    assert(out@ =~= json_arr(texts(elems@)));
    out
}

/// `key` followed by a colon and `value`, where `key` is the already quoted
/// member name.
pub open spec fn member(key: Seq<char>, value: Seq<char>) -> Seq<char> {
    key + seq![':'] + value
}

/// Renders a member from its quoted name and rendered value.
pub fn member_text(key: &str, value: &str) -> (r: String)
    ensures
        r@ == member(key@, value@),
{
    proof {
        reveal_strlit(":");
    }
    let mut out = key.to_owned();
    out.append(":");
    out.append(value);
    assert(out@ =~= member(key@, value@));
    out
}

/// A value that renders itself as JSON text.
pub trait JsonBody {
    /// The JSON text of the value.
    spec fn json(&self) -> Seq<char>;

    fn to_json(&self) -> (r: Result<String, serde_json::Error>)
        ensures
            r matches Ok(t) && t@ == self.json(),
    ;
}

pub open spec fn json_null() -> Seq<char> {
    seq!['n', 'u', 'l', 'l']
}

/// A string member.
pub open spec fn str_m(key: Seq<char>, v: Seq<char>) -> Seq<char> {
    member(key, json_str(v))
}

/// An integer member.
pub open spec fn int_m(key: Seq<char>, v: int) -> Seq<char> {
    member(key, dec_int(v))
}

/// A boolean member.
pub open spec fn bool_m(key: Seq<char>, v: bool) -> Seq<char> {
    member(key, json_bool(v))
}

/// A member that is left out when absent.
pub open spec fn opt_m(m: Option<Seq<char>>) -> Seq<Seq<char>> {
    match m {
        Some(x) => seq![x],
        None => Seq::empty(),
    }
}

/// An optional string rendered as a string or as `null`.
pub open spec fn str_or_null(v: Option<Seq<char>>) -> Seq<char> {
    match v {
        Some(x) => json_str(x),
        None => json_null(),
    }
}

/// An optional JSON text, or `null`.
pub open spec fn raw_or_null(v: Option<Seq<char>>) -> Seq<char> {
    match v {
        Some(x) => x,
        None => json_null(),
    }
}

pub fn null_text() -> (r: String)
    ensures
        r@ == json_null(),
{
    proof {
        reveal_strlit("null");
    }
    "null".to_owned()
}

pub fn str_member(key: &str, v: &str) -> (r: Result<String, serde_json::Error>)
    ensures
        r matches Ok(t) && t@ == str_m(key@, v@),
{
    let q = quote(v)?;
    Ok(member_text(key, q.as_str()))
}

pub fn int_member(key: &str, v: i64) -> (r: String)
    ensures
        r@ == int_m(key@, v as int),
{
    member_text(key, dec_text(v).as_str())
}

pub fn bool_member(key: &str, v: bool) -> (r: String)
    ensures
        r@ == bool_m(key@, v),
{
    member_text(key, bool_text(v).as_str())
}

/// An optional string as a JSON string or `null`.
pub fn str_or_null_text(v: Option<&str>) -> (r: Result<String, serde_json::Error>)
    ensures
        r matches Ok(t) && t@ == str_or_null(match v {
            Some(x) => Some(x@),
            None => None,
        }),
{
    match v {
        Some(x) => quote(x),
        None => Ok(null_text()),
    }
}

/// An optional JSON text, or `null`.
pub fn raw_or_null_text(v: Option<&str>) -> (r: String)
    ensures
        r@ == raw_or_null(match v {
            Some(x) => Some(x@),
            None => None,
        }),
{
    match v {
        Some(x) => x.to_owned(),
        None => null_text(),
    }
}


/// The rendered members held by an optional text: none or one.
pub open spec fn opt_strs(o: Option<String>) -> Seq<Seq<char>> {
    match o {
        Some(s) => seq![s@],
        None => Seq::empty(),
    }
}

/// A member with an already rendered value, left out when absent.
pub open spec fn opt_raw_m(key: Seq<char>, v: Option<Seq<char>>) -> Seq<Seq<char>> {
    match v {
        Some(x) => seq![member(key, x)],
        None => Seq::empty(),
    }
}

/// A string member, left out when absent.
pub open spec fn opt_str_m(key: Seq<char>, v: Option<Seq<char>>) -> Seq<Seq<char>> {
    match v {
        Some(x) => seq![str_m(key, x)],
        None => Seq::empty(),
    }
}

/// A boolean member, left out when absent.
pub open spec fn opt_bool_m(key: Seq<char>, v: Option<bool>) -> Seq<Seq<char>> {
    match v {
        Some(x) => seq![bool_m(key, x)],
        None => Seq::empty(),
    }
}

/// An integer member, left out when absent.
pub open spec fn opt_int_m(key: Seq<char>, v: Option<int>) -> Seq<Seq<char>> {
    match v {
        Some(x) => seq![int_m(key, x)],
        None => Seq::empty(),
    }
}

/// Appends one rendered member.
pub fn push_member(members: &mut Vec<String>, m: String)
    ensures
        texts(final(members)@) == texts(old(members)@).push(m@),
{
    members.push(m);
    assert(texts(members@) =~= texts(old(members)@).push(m@));
}

/// Appends a rendered member if there is one.
pub fn push_opt_member(members: &mut Vec<String>, m: Option<String>)
    ensures
        texts(final(members)@) == texts(old(members)@) + opt_strs(m),
{
    match m {
        Some(x) => {
            let ghost xv = x@;
            members.push(x);
            assert(texts(members@) =~= texts(old(members)@) + seq![xv]);
        },
        None => {
            assert(texts(members@) =~= texts(old(members)@) + Seq::<Seq<char>>::empty());
        },
    }
}

/// A string member when `v` is present.
pub fn opt_str_member_text(key: &str, v: Option<&str>) -> (r: Result<Option<String>, serde_json::Error>)
    ensures
        r matches Ok(o) && opt_strs(o) == opt_str_m(key@, match v {
            Some(x) => Some(x@),
            None => None,
        }),
{
    match v {
        Some(x) => {
            let m = str_member(key, x)?;
            Ok(Some(m))
        },
        None => Ok(None),
    }
}

/// A boolean member when `v` is present.
pub fn opt_bool_member_text(key: &str, v: Option<bool>) -> (r: Option<String>)
    ensures
        opt_strs(r) == opt_bool_m(key@, v),
{
    match v {
        Some(x) => Some(bool_member(key, x)),
        None => None,
    }
}

/// A member with the rendered value `v` when present.
pub fn opt_raw_member_text(key: &str, v: Option<String>) -> (r: Option<String>)
    ensures
        opt_strs(r) == opt_raw_m(key@, match v {
            Some(x) => Some(x@),
            None => None,
        }),
{
    match v {
        Some(x) => Some(member_text(key, x.as_str())),
        None => None,
    }
}


/// An integer member when `v` is present.
pub fn opt_int_member_text(key: &str, v: Option<i64>) -> (r: Option<String>)
    ensures
        opt_strs(r) == opt_int_m(key@, match v {
            Some(x) => Some(x as int),
            None => None,
        }),
{
    match v {
        Some(x) => Some(int_member(key, x)),
        None => None,
    }
}

} // verus!
