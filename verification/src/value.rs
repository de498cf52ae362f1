//! Scalar field values.
//!
//! Every lookup through the document abstraction yields a scalar: a string, a
//! number or a boolean. Filter clauses compare values by their string
//! representation, so the decimal rendering of integers is defined here and
//! proved against its specification.

use vstd::prelude::*;

use crate::strings::chars_of;

verus! {

/// A scalar value found at some structural path of a record.
///
/// Numbers carry their sign split over two variants, mirroring how JSON
/// distinguishes non-negative from negative integers; a number that is
/// neither is carried by its decimal rendering in [`FieldValue::Num`].
#[derive(Debug)]
pub enum FieldValue {
    /// A boolean.
    Bool(bool),
    /// A non-negative integer.
    UInt(u64),
    /// A negative integer.
    Int(i64),
    /// Any other number, by its decimal rendering.
    Num(String),
    /// A string.
    Str(String),
}

/// The mathematical model of a [`FieldValue`]: strings become character
/// sequences.
pub enum FieldValueV {
    Bool(bool),
    UInt(u64),
    Int(i64),
    Num(Seq<char>),
    Str(Seq<char>),
}

impl View for FieldValue {
    type V = FieldValueV;

    open spec fn view(&self) -> FieldValueV {
        match self {
            FieldValue::Bool(b) => FieldValueV::Bool(*b),
            FieldValue::UInt(u) => FieldValueV::UInt(*u),
            FieldValue::Int(i) => FieldValueV::Int(*i),
            FieldValue::Num(s) => FieldValueV::Num(s@),
            FieldValue::Str(s) => FieldValueV::Str(s@),
        }
    }
}

/// The character for one decimal digit.
pub open spec fn spec_digit(n: int) -> char {
    ((48 + n) as u8) as char
}

/// The decimal rendering of a natural number, most significant digit first.
pub open spec fn dec_rep(n: nat) -> Seq<char>
    decreases n,
{
    if n < 10 {
        seq![spec_digit(n as int)]
    } else {
        dec_rep(n / 10).push(spec_digit((n % 10) as int))
    }
}

/// The string representation of a value, the form by which filter clauses
/// compare: booleans render as `true`/`false`, integers in decimal, strings
/// and other numbers as themselves.
pub open spec fn repr(v: FieldValueV) -> Seq<char> {
    match v {
        FieldValueV::Bool(b) => if b {
            seq!['t', 'r', 'u', 'e']
        } else {
            seq!['f', 'a', 'l', 's', 'e']
        },
        FieldValueV::UInt(u) => dec_rep(u as nat),
        FieldValueV::Int(i) => if i >= 0 {
            dec_rep(i as nat)
        } else {
            seq!['-'] + dec_rep((-(i as int)) as nat)
        },
        FieldValueV::Num(s) => s,
        FieldValueV::Str(s) => s,
    }
}

/// One decimal digit as a character.
fn digit_char(d: u8) -> (r: char)
    requires
        d < 10,
    ensures
        r == spec_digit(d as int),
{
    (48 + d) as char
}

/// The decimal rendering of a non-negative integer.
pub fn u64_chars(n: u64) -> (r: Vec<char>)
    ensures
        r@ == dec_rep(n as nat),
    decreases n,
{
    if n < 10 {
        let mut v: Vec<char> = Vec::new();
        v.push(digit_char(n as u8));
        assert(v@ =~= dec_rep(n as nat));
        v
    } else {
        let mut v = u64_chars(n / 10);
        v.push(digit_char((n % 10) as u8));
        assert(v@ =~= dec_rep(n as nat));
        v
    }
}

/// Whether two character vectors hold the same characters.
pub fn chars_eq(a: &Vec<char>, b: &Vec<char>) -> (r: bool)
    ensures
        r == (a@ == b@),
{
    if a.len() != b.len() {
        assert(a@ != b@);
        return false;
    }
    let n: usize = a.len();
    let mut i: usize = 0;
    while i < n
        invariant
            0 <= i <= n,
            n == a@.len() == b@.len(),
            forall|j: int| 0 <= j < i ==> a@[j] == b@[j],
        decreases n - i,
    {
        if a[i] != b[i] {
            assert(a@ != b@);
            return false;
        }
        i += 1;
    }
    assert(a@ =~= b@);
    true
}

/// The string representation of a value, as characters.
pub fn repr_chars(v: &FieldValue) -> (r: Vec<char>)
    ensures
        r@ == repr(v@),
{
    match v {
        FieldValue::Bool(b) => {
            if *b {
                let mut v: Vec<char> = Vec::new();
                v.push('t');
                v.push('r');
                v.push('u');
                v.push('e');
                assert(v@ =~= seq!['t', 'r', 'u', 'e']);
                v
            } else {
                let mut v: Vec<char> = Vec::new();
                v.push('f');
                v.push('a');
                v.push('l');
                v.push('s');
                v.push('e');
                assert(v@ =~= seq!['f', 'a', 'l', 's', 'e']);
                v
            }
        },
        FieldValue::UInt(u) => u64_chars(*u),
        FieldValue::Int(i) => {
            if *i >= 0 {
                u64_chars(*i as u64)
            } else {
                let m: u64 = (-(*i as i128)) as u64;
                assert(m == (-(*i as int)) as nat);
                let mut out: Vec<char> = Vec::new();
                out.push('-');
                let mut digits = u64_chars(m);
                out.append(&mut digits);
                assert(out@ =~= seq!['-'] + dec_rep((-(*i as int)) as nat));
                out
            }
        },
        FieldValue::Num(s) => chars_of(s.as_str()),
        FieldValue::Str(s) => chars_of(s.as_str()),
    }
}

/// Whether two values compare equal by string representation, the equality
/// used by filter clauses.
pub fn repr_eq(a: &FieldValue, b: &FieldValue) -> (r: bool)
    ensures
        r == (repr(a@) == repr(b@)),
{
    let ca = repr_chars(a);
    let cb = repr_chars(b);
    chars_eq(&ca, &cb)
}

/// A copy of a value.
pub fn dup_value(v: &FieldValue) -> (r: FieldValue)
    ensures
        r@ == v@,
{
    match v {
        FieldValue::Bool(b) => FieldValue::Bool(*b),
        FieldValue::UInt(u) => FieldValue::UInt(*u),
        FieldValue::Int(i) => FieldValue::Int(*i),
        FieldValue::Num(s) => FieldValue::Num(s.clone()),
        FieldValue::Str(s) => FieldValue::Str(s.clone()),
    }
}

} // verus!
