//! Validation, normalization and display formatting of Iranian phone
//! numbers, both mobile and landline.

use vstd::prelude::*;

use crate::error::AppError;
use crate::strutil::push_char;

verus! {

/// Phone number types in Iran.
#[derive(Debug, PartialEq, Eq, Structural, Clone, Copy)]
pub enum PhoneType {
    Mobile,
    Landline,
}

/// Whether `c` is an ASCII decimal digit.
pub open spec fn is_ascii_digit(c: char) -> bool {
    '0' <= c && c <= '9'
}

/// The ASCII digits of `s`, in order, everything else dropped.
pub open spec fn digits_of(s: Seq<char>) -> Seq<char>
    decreases s.len(),
{
    if s.len() == 0 {
        Seq::empty()
    } else if is_ascii_digit(s.last()) {
        digits_of(s.drop_last()).push(s.last())
    } else {
        digits_of(s.drop_last())
    }
}

/// Extracts the ASCII digits of `s`.
pub fn extract_digits(s: &str) -> (r: String)
    ensures
        r@ == digits_of(s@),
{
    let n: usize = s.unicode_len();
    let mut out = String::new();
    let mut i: usize = 0;
    while i < n
        invariant
            0 <= i <= n,
            n == s@.len(),
            out@ == digits_of(s@.subrange(0, i as int)),
        decreases n - i,
    {
        let c = s.get_char(i);
        let ghost pre = s@.subrange(0, i as int);
        if '0' <= c && c <= '9' {
            push_char(&mut out, c);
        }
        proof {
            assert(s@.subrange(0, i + 1).drop_last() =~= pre);
            assert(s@.subrange(0, i + 1).last() == s@[i as int]);
        }
        i = i + 1;
    }
    proof {
        assert(s@.subrange(0, n as int) =~= s@);
    }
    out
}

/// The normalized form of a phone number whose digits are `d`: the
/// standard local 11-digit form for valid inputs, nothing for the
/// rest.
pub open spec fn phone_norm(d: Seq<char>) -> Option<Seq<char>> {
    if d.len() == 11 {
        // Standard format: mobile with the 09 prefix, or a landline,
        // which starts with 0 but never 08.
        if d[0] == '0' && d[1] == '9' {
            Some(d)
        } else if d[0] == '0' && d[1] != '8' {
            Some(d)
        } else {
            None
        }
    } else if d.len() == 10 {
        // Mobile without the 0 prefix.
        if d[0] == '9' {
            Some(seq!['0'] + d)
        } else {
            None
        }
    } else if d.len() == 12 || d.len() == 13 {
        // International mobile format with the country code.
        if d[0] == '9' && d[1] == '8' && d[2] == '9' {
            Some(seq!['0'] + d.subrange(2, d.len() as int))
        } else {
            None
        }
    } else {
        None
    }
}

/// Validates and normalizes an Iranian phone number. The result is
/// `Ok` exactly on inputs whose digits form a recognized mobile or
/// landline shape, and then carries the standard local form.
pub fn normalize_phone_number(phone: &str) -> (r: Result<String, AppError>)
    ensures
        match r {
            Ok(p) => phone_norm(digits_of(phone@)) == Some(p@),
            Err(e) => phone_norm(digits_of(phone@)) is None && (e matches AppError::BadRequest(_)),
        },
{
    let digits = extract_digits(phone);
    let len: usize = digits.as_str().unicode_len();
    if len == 11 {
        if digits.as_str().get_char(0) == '0' && digits.as_str().get_char(1) == '9' {
            Ok(digits)
        } else if digits.as_str().get_char(0) == '0' && digits.as_str().get_char(1) != '8' {
            Ok(digits)
        } else {
            Err(
                AppError::BadRequest(
                    "شماره تلفن نامعتبر است. شماره تلفن باید با 0 شروع شود".to_owned(),
                ),
            )
        }
    } else if len == 10 {
        if digits.as_str().get_char(0) == '9' {
            let mut out = String::new();
            push_char(&mut out, '0');
            out.append(digits.as_str());
            proof {
                assert(out@ =~= seq!['0'] + digits@);
            }
            Ok(out)
        } else {
            Err(
                AppError::BadRequest(
                    "شماره موبایل نامعتبر است. شماره موبایل باید با 9 شروع شود".to_owned(),
                ),
            )
        }
    } else if len == 12 || len == 13 {
        if digits.as_str().get_char(0) == '9' && digits.as_str().get_char(1) == '8'
            && digits.as_str().get_char(2) == '9' {
            let mut out = String::new();
            push_char(&mut out, '0');
            out.append(digits.as_str().substring_char(2, len));
            proof {
                assert(out@ =~= seq!['0'] + digits@.subrange(2, digits@.len() as int));
            }
            Ok(out)
        } else {
            Err(AppError::BadRequest("فرمت شماره تلفن نامعتبر است".to_owned()))
        }
    } else {
        Err(
            AppError::BadRequest(
                "شماره تلفن نامعتبر است. لطفاً یک شماره تلفن معتبر 11 رقمی وارد کنید".to_owned(),
            ),
        )
    }
}

/// The type of a phone number whose digits are `d`: mobile for the
/// `09` prefix, landline for any other `0` prefix, in the 11-digit
/// form only.
pub open spec fn phone_type_of(d: Seq<char>) -> Option<PhoneType> {
    if d.len() == 11 && d[0] == '0' && d[1] == '9' {
        Some(PhoneType::Mobile)
    } else if d.len() == 11 && d[0] == '0' {
        Some(PhoneType::Landline)
    } else {
        None
    }
}

/// Determines the phone type from the digits of `phone`.
pub fn get_phone_type(phone: &str) -> (r: Option<PhoneType>)
    ensures
        r == phone_type_of(digits_of(phone@)),
{
    let digits = extract_digits(phone);
    let len: usize = digits.as_str().unicode_len();
    if len == 11 {
        if digits.as_str().get_char(0) == '0' && digits.as_str().get_char(1) == '9' {
            Some(PhoneType::Mobile)
        } else if digits.as_str().get_char(0) == '0' {
            Some(PhoneType::Landline)
        } else {
            None
        }
    } else {
        None
    }
}

/// Whether the 11-digit landline number `d` carries one of the
/// 3-digit area codes of the major cities.
pub open spec fn has_major_area_code(d: Seq<char>) -> bool {
    d[0] == '0' && (
        (d[1] == '2' && (d[2] == '1' || d[2] == '6'))
        || (d[1] == '3' && (d[2] == '1' || d[2] == '4'))
        || (d[1] == '4' && d[2] == '1')
        || (d[1] == '5' && d[2] == '1')
        || (d[1] == '6' && d[2] == '1')
        || (d[1] == '7' && d[2] == '1')
    )
}

/// A phone number grouped for display: the digits split at `a` and
/// `b` with a space between the groups.
pub open spec fn grouped(d: Seq<char>, a: int, b: int) -> Seq<char> {
    d.subrange(0, a) + seq![' '] + d.subrange(a, b) + seq![' '] + d.subrange(b, d.len() as int)
}

/// The display form of a phone number with characters `s`: mobile as
/// 4-3-4, major-city landline as 3-4-4, other landline as 4-3-4, and
/// anything unrecognized unchanged.
pub open spec fn formatted_phone_of(s: Seq<char>) -> Seq<char> {
    let d = digits_of(s);
    match phone_type_of(d) {
        Some(PhoneType::Mobile) => grouped(d, 4, 7),
        Some(PhoneType::Landline) => if has_major_area_code(d) {
            grouped(d, 3, 7)
        } else {
            grouped(d, 4, 7)
        },
        None => s,
    }
}

/// Formats a phone number for display.
pub fn format_phone_for_display(phone: &str) -> (r: String)
    ensures
        r@ == formatted_phone_of(phone@),
{
    let digits = extract_digits(phone);
    let d = digits.as_str();
    let len: usize = d.unicode_len();
    if len == 11 && d.get_char(0) == '0' {
        if d.get_char(1) == '9' {
            group_digits(d, 4, 7)
        } else {
            let c1 = d.get_char(1);
            let c2 = d.get_char(2);
            let major = (c1 == '2' && (c2 == '1' || c2 == '6')) || (c1 == '3' && (c2 == '1'
                || c2 == '4')) || (c1 == '4' && c2 == '1') || (c1 == '5' && c2 == '1') || (c1
                == '6' && c2 == '1') || (c1 == '7' && c2 == '1');
            if major {
                group_digits(d, 3, 7)
            } else {
                group_digits(d, 4, 7)
            }
        }
    } else {
        phone.to_owned()
    }
}

/// Splits `d` into three space-separated groups at `a` and `b`.
fn group_digits(d: &str, a: usize, b: usize) -> (r: String)
    requires
        0 <= a <= b,
        b <= d@.len(),
    ensures
        r@ == grouped(d@, a as int, b as int),
{
    let len: usize = d.unicode_len();
    let mut out = d.substring_char(0, a).to_owned();
    push_char(&mut out, ' ');
    out.append(d.substring_char(a, b));
    push_char(&mut out, ' ');
    out.append(d.substring_char(b, len));
    proof {
        assert(out@ =~= grouped(d@, a as int, b as int));
    }
    out
}

} // verus!
