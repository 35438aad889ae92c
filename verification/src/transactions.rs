//! Transaction kinds and the validation of transaction dates, which
//! are entered as Persian-calendar `YYYY/MM/DD` strings, possibly in
//! Persian digits.

use vstd::prelude::*;

use crate::dates::format_date_shamsi;
use crate::dates::shamsi_display_of;
use crate::email::count_char;
use crate::email::count_char_str;
use crate::error::AppError;
use crate::localization::persian_digit_to_english;
use crate::localization::persian_to_english_numbers;
use crate::strutil::str_eq;
use crate::strutil::trim_str;
use crate::strutil::trimmed;

verus! {

/// The settlement kinds of a transaction.
#[derive(Debug, Clone, Copy, PartialEq, Eq, Structural)]
pub enum TransactionType {
    Cash,
    CardTransfer,
    Cheque,
    Credit,
    Other,
}

impl TransactionType {
    /// All transaction kinds, in form order.
    pub fn all() -> (r: Vec<TransactionType>)
        ensures
            r@ == seq![
                TransactionType::Cash,
                TransactionType::CardTransfer,
                TransactionType::Cheque,
                TransactionType::Credit,
                TransactionType::Other,
            ],
    {
        let mut kinds: Vec<TransactionType> = Vec::new();
        kinds.push(TransactionType::Cash);
        kinds.push(TransactionType::CardTransfer);
        kinds.push(TransactionType::Cheque);
        kinds.push(TransactionType::Credit);
        kinds.push(TransactionType::Other);
        proof {
            assert(kinds@ =~= seq![
                TransactionType::Cash,
                TransactionType::CardTransfer,
                TransactionType::Cheque,
                TransactionType::Credit,
                TransactionType::Other,
            ]);
        }
        kinds
    }

    /// The storage name of the kind.
    pub open spec fn spec_as_str(self) -> Seq<char> {
        match self {
            TransactionType::Cash => "Cash"@,
            TransactionType::CardTransfer => "CardTransfer"@,
            TransactionType::Cheque => "Cheque"@,
            TransactionType::Credit => "Credit"@,
            TransactionType::Other => "Other"@,
        }
    }

    /// The storage name of the kind.
    pub fn as_str(&self) -> (r: &'static str)
        ensures
            r@ == self.spec_as_str(),
    {
        match self {
            TransactionType::Cash => "Cash",
            TransactionType::CardTransfer => "CardTransfer",
            TransactionType::Cheque => "Cheque",
            TransactionType::Credit => "Credit",
            TransactionType::Other => "Other",
        }
    }

    /// The kind a storage name denotes; anything unrecognized counts
    /// as `Other`.
    pub open spec fn spec_from_str(s: Seq<char>) -> TransactionType {
        if s == "Cash"@ { TransactionType::Cash }
        else if s == "CardTransfer"@ { TransactionType::CardTransfer }
        else if s == "Cheque"@ { TransactionType::Cheque }
        else if s == "Credit"@ { TransactionType::Credit }
        else { TransactionType::Other }
    }

    /// Parses a kind from its storage name.
    pub fn from_str(s: &str) -> (r: TransactionType)
        ensures
            r == TransactionType::spec_from_str(s@),
    {
        if str_eq(s, "Cash") { TransactionType::Cash }
        else if str_eq(s, "CardTransfer") { TransactionType::CardTransfer }
        else if str_eq(s, "Cheque") { TransactionType::Cheque }
        else if str_eq(s, "Credit") { TransactionType::Credit }
        else { TransactionType::Other }
    }

    /// The Persian display name of the kind.
    pub open spec fn spec_display_name(self) -> Seq<char> {
        match self {
            TransactionType::Cash => "نقدی"@,
            TransactionType::CardTransfer => "کارت به کارت"@,
            TransactionType::Cheque => "چک"@,
            TransactionType::Credit => "اعتباری"@,
            TransactionType::Other => "سایر"@,
        }
    }

    /// The Persian display name of the kind.
    pub fn display_name(&self) -> (r: &'static str)
        ensures
            r@ == self.spec_display_name(),
    {
        match self {
            TransactionType::Cash => "نقدی",
            TransactionType::CardTransfer => "کارت به کارت",
            TransactionType::Cheque => "چک",
            TransactionType::Credit => "اعتباری",
            TransactionType::Other => "سایر",
        }
    }
}

/// The date string with its Persian digits replaced by ASCII ones.
pub open spec fn ascii_digits_form(s: Seq<char>) -> Seq<char> {
    s.map_values(|c: char| persian_digit_to_english(c))
}

/// Whether a (digit-normalized) date string has the `YYYY/MM/DD`
/// shape: four, two and two characters separated by slashes.
pub open spec fn valid_shamsi_date_shape(s: Seq<char>) -> bool {
    s.len() == 10 && count_char(s, '/') == 2 && s[4] == '/' && s[7] == '/'
}

/// Validates a transaction date as entered: it must be nonempty and,
/// after digit normalization, have the `YYYY/MM/DD` shape.
pub fn validate_transaction_date(date: &str) -> (r: Result<(), AppError>)
    ensures
        match r {
            Ok(()) => trimmed(ascii_digits_form(date@)).len() > 0 && valid_shamsi_date_shape(
                ascii_digits_form(date@),
            ),
            Err(e) => (trimmed(ascii_digits_form(date@)).len() == 0 || !valid_shamsi_date_shape(
                ascii_digits_form(date@),
            )) && (e matches AppError::BadRequest(_)),
        },
{
    let normalized = persian_to_english_numbers(date);
    let t = trim_str(normalized.as_str());
    if t.as_str().is_empty() {
        return Err(AppError::BadRequest("تاریخ تراکنش الزامی است".to_owned()));
    }
    let s = normalized.as_str();
    let n: usize = s.unicode_len();
    let shape_ok = n == 10 && count_char_str(s, '/') == 2 && s.get_char(4) == '/' && s.get_char(7)
        == '/';
    if !shape_ok {
        return Err(
            AppError::BadRequest(
                "فرمت تاریخ تراکنش معتبر نیست. لطفا از فرمت YYYY/MM/DD استفاده کنید".to_owned(),
            ),
        );
    }
    Ok(())
}

/// The Persian display form of a stored transaction timestamp.
pub fn formatted_date_shamsi(date: &str) -> (r: String)
    ensures
        r@ == shamsi_display_of(date@),
{
    format_date_shamsi(date)
}

} // verus!
