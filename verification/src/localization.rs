//! Digit localization: conversion between Persian (Extended
//! Arabic-Indic) and ASCII digits, character by character.

use vstd::prelude::*;

use crate::strutil::push_char;

verus! {

/// The ASCII digit for a Persian digit; any other character is kept.
pub open spec fn persian_digit_to_english(c: char) -> char {
    if c == '۰' { '0' }
    else if c == '۱' { '1' }
    else if c == '۲' { '2' }
    else if c == '۳' { '3' }
    else if c == '۴' { '4' }
    else if c == '۵' { '5' }
    else if c == '۶' { '6' }
    else if c == '۷' { '7' }
    else if c == '۸' { '8' }
    else if c == '۹' { '9' }
    else { c }
}

/// The Persian digit for an ASCII digit; any other character is kept.
pub open spec fn english_digit_to_persian(c: char) -> char {
    if c == '0' { '۰' }
    else if c == '1' { '۱' }
    else if c == '2' { '۲' }
    else if c == '3' { '۳' }
    else if c == '4' { '۴' }
    else if c == '5' { '۵' }
    else if c == '6' { '۶' }
    else if c == '7' { '۷' }
    else if c == '8' { '۸' }
    else if c == '9' { '۹' }
    else { c }
}

/// Replaces every Persian digit with its ASCII counterpart.
pub fn persian_to_english_numbers(s: &str) -> (r: String)
    ensures
        r@ == s@.map_values(|c: char| persian_digit_to_english(c)),
{
    let n: usize = s.unicode_len();
    let mut out = String::new();
    let mut i: usize = 0;
    while i < n
        invariant
            0 <= i <= n,
            n == s@.len(),
            out@.len() == i,
            forall|j: int| 0 <= j < i ==> out@[j] == persian_digit_to_english(s@[j]),
        decreases n - i,
    {
        let c = s.get_char(i);
        let mapped = match c {
            '۰' => '0',
            '۱' => '1',
            '۲' => '2',
            '۳' => '3',
            '۴' => '4',
            '۵' => '5',
            '۶' => '6',
            '۷' => '7',
            '۸' => '8',
            '۹' => '9',
            _ => c,
        };
        push_char(&mut out, mapped);
        i = i + 1;
    }
    proof {
        assert(out@ =~= s@.map_values(|c: char| persian_digit_to_english(c)));
    }
    out
}

/// Replaces every ASCII digit with its Persian counterpart.
pub fn to_persian_digits(s: &str) -> (r: String)
    ensures
        r@ == s@.map_values(|c: char| english_digit_to_persian(c)),
{
    let n: usize = s.unicode_len();
    let mut out = String::new();
    let mut i: usize = 0;
    while i < n
        invariant
            0 <= i <= n,
            n == s@.len(),
            out@.len() == i,
            forall|j: int| 0 <= j < i ==> out@[j] == english_digit_to_persian(s@[j]),
        decreases n - i,
    {
        let c = s.get_char(i);
        let mapped = match c {
            '0' => '۰',
            '1' => '۱',
            '2' => '۲',
            '3' => '۳',
            '4' => '۴',
            '5' => '۵',
            '6' => '۶',
            '7' => '۷',
            '8' => '۸',
            '9' => '۹',
            _ => c,
        };
        push_char(&mut out, mapped);
        i = i + 1;
    }
    proof {
        assert(out@ =~= s@.map_values(|c: char| english_digit_to_persian(c)));
    }
    out
}

} // verus!
