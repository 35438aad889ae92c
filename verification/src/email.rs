//! Validation and normalization of email addresses, with correction
//! hints for commonly mistyped domains.

use vstd::prelude::*;

use crate::error::AppError;
use crate::strutil::lower_of;
use crate::strutil::push_char;
use crate::strutil::str_eq;
use crate::strutil::to_lowercase_str;
use crate::strutil::trim_str;
use crate::strutil::trimmed;

verus! {

/// Whether `c` occurs in `s`.
pub open spec fn contains_char(s: Seq<char>, c: char) -> bool {
    exists|i: int| 0 <= i < s.len() && s[i] == c
}

/// How often `c` occurs in `s`.
pub open spec fn count_char(s: Seq<char>, c: char) -> nat
    decreases s.len(),
{
    if s.len() == 0 {
        0
    } else if s.last() == c {
        count_char(s.drop_last(), c) + 1
    } else {
        count_char(s.drop_last(), c)
    }
}

/// The index of the first occurrence of `c` in `s` (the length of `s`
/// if there is none).
pub open spec fn first_occ(s: Seq<char>, c: char) -> int
    decreases s.len(),
{
    if s.len() == 0 {
        0
    } else if s[0] == c {
        0
    } else {
        1 + first_occ(s.drop_first(), c)
    }
}

/// Whether `s` holds two consecutive dots.
pub open spec fn has_double_dot(s: Seq<char>) -> bool {
    exists|i: int| 0 <= i < s.len() - 1 && #[trigger] s[i] == '.' && s[i + 1] == '.'
}

/// The part of an address before its first `@`.
pub open spec fn email_local(n: Seq<char>) -> Seq<char> {
    n.subrange(0, first_occ(n, '@'))
}

/// The part of an address after its first `@`.
pub open spec fn email_domain(n: Seq<char>) -> Seq<char> {
    n.subrange(first_occ(n, '@') + 1, n.len() as int)
}

/// The well-known correction for a commonly mistyped domain.
pub open spec fn typo_correction(domain: Seq<char>) -> Option<Seq<char>> {
    if domain == "gmial.com"@ { Some("gmail.com"@) }
    else if domain == "gmai.com"@ { Some("gmail.com"@) }
    else if domain == "gmil.com"@ { Some("gmail.com"@) }
    else if domain == "gmail.co"@ { Some("gmail.com"@) }
    else if domain == "gmail.con"@ { Some("gmail.com"@) }
    else if domain == "yahoo.co"@ { Some("yahoo.com"@) }
    else if domain == "yahoo.con"@ { Some("yahoo.com"@) }
    else if domain == "yaho.com"@ { Some("yahoo.com"@) }
    else if domain == "hotmial.com"@ { Some("hotmail.com"@) }
    else if domain == "hotmai.com"@ { Some("hotmail.com"@) }
    else if domain == "outlok.com"@ { Some("outlook.com"@) }
    else { None }
}

/// The corrected address suggested for `s`, where `s` has exactly one
/// `@` and its domain is a well-known typo.
pub open spec fn suggestion_of(s: Seq<char>) -> Option<Seq<char>> {
    if count_char(s, '@') != 1 {
        None
    } else {
        match typo_correction(email_domain(s)) {
            Some(correct) => Some(email_local(s).push('@') + correct),
            None => None,
        }
    }
}

/// What a normalized address must satisfy to be accepted.
pub open spec fn valid_email(n: Seq<char>) -> bool {
    &&& n.len() > 0
    &&& contains_char(n, '@')
    &&& count_char(n, '@') == 1
    &&& email_local(n).len() > 0
    &&& contains_char(email_domain(n), '.')
    &&& !contains_char(n, ' ')
    &&& n.len() >= 5
    &&& !has_double_dot(n)
    &&& email_local(n)[0] != '.'
    &&& email_local(n)[email_local(n).len() - 1] != '.'
    &&& email_domain(n)[0] != '.'
    &&& email_domain(n)[email_domain(n).len() - 1] != '.'
    &&& suggestion_of(n) is None
}

/// A positive count means an occurrence and conversely.
proof fn lemma_count_pos_iff_contains(s: Seq<char>, c: char)
    ensures
        count_char(s, c) > 0 <==> contains_char(s, c),
    decreases s.len(),
{
    if s.len() > 0 {
        lemma_count_pos_iff_contains(s.drop_last(), c);
        if s.last() == c {
            assert(s[s.len() - 1] == c);
        } else {
            if contains_char(s, c) {
                let i = choose|i: int| 0 <= i < s.len() && s[i] == c;
                assert(s.drop_last()[i] == c);
            }
            if contains_char(s.drop_last(), c) {
                let i = choose|i: int| 0 <= i < s.drop_last().len() && s.drop_last()[i] == c;
                assert(s[i] == c);
            }
        }
    }
}

/// An occurrence at `i` with none before it pins the first occurrence
/// down to `i`.
proof fn lemma_first_occ_at(s: Seq<char>, c: char, i: int)
    requires
        0 <= i < s.len(),
        s[i] == c,
        forall|j: int| 0 <= j < i ==> s[j] != c,
    ensures
        first_occ(s, c) == i,
    decreases i,
{
    if i == 0 {
    } else {
        assert(s[0] != c);
        let t = s.drop_first();
        assert(t[i - 1] == c);
        assert(forall|j: int| 0 <= j < i - 1 ==> t[j] != c);
        lemma_first_occ_at(t, c, i - 1);
    }
}

/// Counts the occurrences of `c` in `s`.
pub fn count_char_str(s: &str, c: char) -> (r: usize)
    ensures
        r == count_char(s@, c),
{
    let n: usize = s.unicode_len();
    let mut cnt: usize = 0;
    let mut i: usize = 0;
    while i < n
        invariant
            0 <= i <= n,
            n == s@.len(),
            cnt <= i,
            cnt == count_char(s@.subrange(0, i as int), c),
        decreases n - i,
    {
        let ghost pre = s@.subrange(0, i as int);
        if s.get_char(i) == c {
            cnt = cnt + 1;
        }
        proof {
            assert(s@.subrange(0, i + 1).drop_last() =~= pre);
            assert(s@.subrange(0, i + 1).last() == s@[i as int]);
        }
        i = i + 1;
    }
    proof {
        assert(s@.subrange(0, n as int) =~= s@);
    }
    cnt
}

/// Whether `c` occurs in `s`.
fn contains_char_str(s: &str, c: char) -> (r: bool)
    ensures
        r == contains_char(s@, c),
{
    let n: usize = s.unicode_len();
    let mut i: usize = 0;
    while i < n
        invariant
            0 <= i <= n,
            n == s@.len(),
            forall|j: int| 0 <= j < i ==> s@[j] != c,
        decreases n - i,
    {
        if s.get_char(i) == c {
            return true;
        }
        i = i + 1;
    }
    false
}

/// The index of the first occurrence of `c` in `s`, if any.
fn find_char(s: &str, c: char) -> (r: Option<usize>)
    ensures
        match r {
            Some(i) => i < s@.len() && s@[i as int] == c && first_occ(s@, c) == i,
            None => !contains_char(s@, c),
        },
{
    let n: usize = s.unicode_len();
    let mut i: usize = 0;
    while i < n
        invariant
            0 <= i <= n,
            n == s@.len(),
            forall|j: int| 0 <= j < i ==> s@[j] != c,
        decreases n - i,
    {
        if s.get_char(i) == c {
            proof {
                lemma_first_occ_at(s@, c, i as int);
            }
            return Some(i);
        }
        i = i + 1;
    }
    None
}

/// Whether `s` holds two consecutive dots.
fn has_double_dot_str(s: &str) -> (r: bool)
    ensures
        r == has_double_dot(s@),
{
    let n: usize = s.unicode_len();
    if n < 2 {
        return false;
    }
    let mut i: usize = 0;
    while i < n - 1
        invariant
            2 <= n == s@.len(),
            0 <= i <= n - 1,
            forall|j: int| 0 <= j < i ==> !(#[trigger] s@[j] == '.' && s@[j + 1] == '.'),
        decreases n - i,
    {
        if s.get_char(i) == '.' && s.get_char(i + 1) == '.' {
            return true;
        }
        i = i + 1;
    }
    false
}

/// Builds the suggested address `local@correct`.
fn make_suggestion(local: &str, correct: &str) -> (r: String)
    ensures
        r@ == local@.push('@') + correct@,
{
    let mut out = local.to_owned();
    push_char(&mut out, '@');
    out.append(correct);
    proof {
        assert(out@ =~= local@.push('@') + correct@);
    }
    out
}

/// Suggests a corrected address for a commonly mistyped domain.
pub fn suggest_email_correction(email: &str) -> (r: Option<String>)
    ensures
        match r {
            Some(sug) => suggestion_of(email@) == Some(sug@),
            None => suggestion_of(email@) is None,
        },
{
    if count_char_str(email, '@') != 1 {
        return None;
    }
    let k = match find_char(email, '@') {
        Some(k) => k,
        None => {
            proof {
                lemma_count_pos_iff_contains(email@, '@');
            }
            return None;
        },
    };
    let n: usize = email.unicode_len();
    let local = email.substring_char(0, k);
    let domain = email.substring_char(k + 1, n);
    let correct: &str = if str_eq(domain, "gmial.com") { "gmail.com" }
    else if str_eq(domain, "gmai.com") { "gmail.com" }
    else if str_eq(domain, "gmil.com") { "gmail.com" }
    else if str_eq(domain, "gmail.co") { "gmail.com" }
    else if str_eq(domain, "gmail.con") { "gmail.com" }
    else if str_eq(domain, "yahoo.co") { "yahoo.com" }
    else if str_eq(domain, "yahoo.con") { "yahoo.com" }
    else if str_eq(domain, "yaho.com") { "yahoo.com" }
    else if str_eq(domain, "hotmial.com") { "hotmail.com" }
    else if str_eq(domain, "hotmai.com") { "hotmail.com" }
    else if str_eq(domain, "outlok.com") { "outlook.com" }
    else {
        return None;
    };
    Some(make_suggestion(local, correct))
}

/// Normalizes an address: whitespace trimmed, then lowercased.
pub fn normalize_email(email: &str) -> (r: String)
    ensures
        r@ == lower_of(trimmed(email@)),
{
    let t = trim_str(email);
    to_lowercase_str(t.as_str())
}

/// Validates an email address. The address is first normalized
/// (trimmed and lowercased); the result is `Ok` with the normalized
/// address exactly when that form is acceptable, and a request error
/// with a localized message otherwise.
pub fn validate_email(email: &str) -> (r: Result<String, AppError>)
    ensures
        match r {
            Ok(e) => valid_email(lower_of(trimmed(email@))) && e@ == lower_of(trimmed(email@)),
            Err(err) => !valid_email(lower_of(trimmed(email@))) && (
            err matches AppError::BadRequest(_)),
        },
{
    let t = trim_str(email);
    let e = to_lowercase_str(t.as_str());
    let s = e.as_str();
    let n: usize = s.unicode_len();

    if n == 0 {
        return Err(AppError::BadRequest("آدرس ایمیل نمی‌تواند خالی باشد".to_owned()));
    }
    if !contains_char_str(s, '@') {
        return Err(AppError::BadRequest("آدرس ایمیل باید شامل @ باشد".to_owned()));
    }
    if count_char_str(s, '@') != 1 {
        return Err(AppError::BadRequest("فرمت ایمیل نامعتبر است".to_owned()));
    }
    let k = match find_char(s, '@') {
        Some(k) => k,
        None => {
            return Err(AppError::BadRequest("آدرس ایمیل باید شامل @ باشد".to_owned()));
        },
    };
    let local = s.substring_char(0, k);
    let domain = s.substring_char(k + 1, n);
    if k == 0 {
        return Err(AppError::BadRequest("نام کاربری ایمیل نمی‌تواند خالی باشد".to_owned()));
    }
    if !contains_char_str(domain, '.') {
        return Err(
            AppError::BadRequest("آدرس ایمیل باید شامل نام دامنه معتبر باشد".to_owned()),
        );
    }
    if contains_char_str(s, ' ') {
        return Err(AppError::BadRequest("آدرس ایمیل نباید شامل فاصله باشد".to_owned()));
    }
    if n < 5 {
        return Err(AppError::BadRequest("آدرس ایمیل خیلی کوتاه است".to_owned()));
    }
    if has_double_dot_str(s) {
        return Err(
            AppError::BadRequest("آدرس ایمیل نباید شامل نقطه‌های متوالی باشد".to_owned()),
        );
    }
    let domain_len: usize = domain.unicode_len();
    if local.get_char(0) == '.' || local.get_char(k - 1) == '.' || domain.get_char(0) == '.'
        || domain.get_char(domain_len - 1) == '.' {
        return Err(
            AppError::BadRequest("آدرس ایمیل نباید با نقطه شروع یا تمام شود".to_owned()),
        );
    }
    if let Some(sug) = suggest_email_correction(s) {
        let mut msg = "آیا منظورتان ".to_owned();
        msg.append(sug.as_str());
        msg.append(" است؟");
        return Err(AppError::BadRequest(msg));
    }
    Ok(e)
}

} // verus!
