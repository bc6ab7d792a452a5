//! Small text utilities: conversion between `String` and `Vec<char>`,
//! string equality, and a verified decimal rendering of `u64`.

use vstd::prelude::*;
use vstd::string::StringExecFns;

verus! {

/// Relies on `core::iter::Iterator::collect` for `String`: collecting the
/// chars of `v` yields a string holding exactly those chars, in order.
#[verifier::external_body]
pub fn chars_to_string(v: &Vec<char>) -> (r: String)
    ensures
        r@ == v@,
{
    v.iter().collect()
}

/// Relies on `str::chars`: iterating a string slice yields exactly its
/// chars, in order.
#[verifier::external_body]
pub fn str_to_chars(s: &str) -> (r: Vec<char>)
    ensures
        r@ == s@,
{
    s.chars().collect()
}

/// A copy of an optional string.
pub fn clone_opt_string(o: &Option<String>) -> (r: Option<String>)
    ensures
        r == *o,
{
    match o {
        Option::Some(s) => Option::Some(s.clone()),
        Option::None => Option::None,
    }
}

/// Content equality of two string slices.
pub fn str_eq(a: &str, b: &str) -> (r: bool)
    ensures
        r == (a@ == b@),
{
    let sa = a.to_owned();
    let sb = b.to_owned();
    sa == sb
}

/// The decimal digit character for `d` (expects `d < 10`).
pub open spec fn dec_digit(d: nat) -> char {
    (d + 48) as char
}

/// The decimal rendering of `n`: no sign, no leading zeros, "0" for zero.
pub open spec fn dec_chars(n: nat) -> Seq<char>
    decreases n,
{
    if n < 10 {
        seq![dec_digit(n)]
    } else {
        dec_chars(n / 10).push(dec_digit(n % 10))
    }
}

/// Renders `n` in decimal.
pub fn u64_to_dec_chars(n: u64) -> (r: Vec<char>)
    ensures
        r@ == dec_chars(n as nat),
    decreases n,
{
    if n < 10 {
        let d: char = ((n as u8) + 48) as char;
        let mut v: Vec<char> = Vec::new();
        v.push(d);
        proof {
            assert(v@ =~= seq![dec_digit(n as nat)]);
        }
        v
    } else {
        let mut v = u64_to_dec_chars(n / 10);
        let d: char = (((n % 10) as u8) + 48) as char;
        v.push(d);
        proof {
            assert(d == dec_digit((n % 10) as nat));
            assert((n / 10) as nat == (n as nat) / 10);
            assert((n % 10) as nat == (n as nat) % 10);
        }
        v
    }
}

/// Renders `n` in decimal, as a `String`.
pub fn u64_to_dec(n: u64) -> (r: String)
    ensures
        r@ == dec_chars(n as nat),
{
    let v = u64_to_dec_chars(n);
    chars_to_string(&v)
}

/// Concatenation of two string slices.
pub fn concat2(a: &str, b: &str) -> (r: String)
    ensures
        r@ == a@ + b@,
{
    let mut s = String::from_str(a);
    s.append(b);
    s
}

/// Concatenation of three string slices.
pub fn concat3(a: &str, b: &str, c: &str) -> (r: String)
    ensures
        r@ == a@ + b@ + c@,
{
    let mut s = String::from_str(a);
    s.append(b);
    s.append(c);
    s
}

/// Every char of `s` is a decimal digit.
pub open spec fn all_dec_digits(s: Seq<char>) -> bool {
    forall|i: int| 0 <= i < s.len() ==> '0' <= #[trigger] s[i] <= '9'
}

/// A decimal rendering consists of digit characters only.
pub proof fn lemma_dec_chars_digits(n: nat)
    ensures
        all_dec_digits(dec_chars(n)),
        dec_chars(n).len() >= 1,
    decreases n,
{
    if n < 10 {
        assert(dec_chars(n) =~= seq![dec_digit(n)]);
        assert('0' <= dec_digit(n) <= '9');
    } else {
        lemma_dec_chars_digits(n / 10);
        assert('0' <= dec_digit(n % 10) <= '9');
        assert(forall|i: int|
            0 <= i < dec_chars(n).len() - 1 ==> dec_chars(n)[i] == #[trigger] dec_chars(
                n / 10,
            )[i]);
    }
}

} // verus!
