//! Customers of the CRM: the record, the form it is created from,
//! the city choices offered by the form, and the validation and
//! normalization applied to a submitted form.

use vstd::prelude::*;

use crate::error::AppError;
use crate::email::valid_email;
use crate::email::validate_email;
use crate::phone::digits_of;
use crate::phone::format_phone_for_display;
use crate::phone::formatted_phone_of;
use crate::phone::normalize_phone_number;
use crate::phone::phone_norm;
use crate::strutil::lower_of;
use crate::strutil::str_eq;
use crate::strutil::trim_str;
use crate::strutil::trimmed;

verus! {

/// A customer record.
#[derive(Debug, Clone)]
pub struct Customer {
    pub id: i64,
    pub full_name: String,
    pub company: String,
    pub email: String,
    pub phone_number: String,
    pub sales_count: i64,
    pub job_title: String,
    pub city: String,
    pub address: String,
    pub notes: String,
    pub coordinates: String,
}

/// Form data for creating or updating a customer.
#[derive(Debug)]
pub struct CustomerForm {
    pub full_name: String,
    pub company: String,
    pub email: String,
    pub phone_number: String,
    pub sales_count: i64,
    pub job_title: String,
    pub city: String,
    pub address: String,
    pub notes: String,
    pub coordinates: String,
}

/// The cities offered by the customer form.
#[derive(Debug, PartialEq, Eq, Structural, Clone, Copy)]
pub enum City {
    Hidaj,
    Khorramdarreh,
    Abhar,
    Zanjan,
    Qazvin,
    NoCity,
}

impl City {
    /// The selectable cities, in form order.
    pub fn all_cities() -> (r: Vec<City>)
        ensures
            r@ == seq![City::Hidaj, City::Khorramdarreh, City::Abhar, City::Zanjan, City::Qazvin],
    {
        let mut cities: Vec<City> = Vec::new();
        cities.push(City::Hidaj);
        cities.push(City::Khorramdarreh);
        cities.push(City::Abhar);
        cities.push(City::Zanjan);
        cities.push(City::Qazvin);
        proof {
            assert(cities@ =~= seq![
                City::Hidaj,
                City::Khorramdarreh,
                City::Abhar,
                City::Zanjan,
                City::Qazvin,
            ]);
        }
        cities
    }

    /// The storage name of the city; empty for no selection.
    pub open spec fn spec_as_str(self) -> Seq<char> {
        match self {
            City::Hidaj => "Hidaj"@,
            City::Khorramdarreh => "Khorramdarreh"@,
            City::Abhar => "Abhar"@,
            City::Zanjan => "Zanjan"@,
            City::Qazvin => "Qazvin"@,
            City::NoCity => ""@,
        }
    }

    /// The storage name of the city.
    pub fn as_str(&self) -> (r: &'static str)
        ensures
            r@ == self.spec_as_str(),
    {
        match self {
            City::Hidaj => "Hidaj",
            City::Khorramdarreh => "Khorramdarreh",
            City::Abhar => "Abhar",
            City::Zanjan => "Zanjan",
            City::Qazvin => "Qazvin",
            City::NoCity => "",
        }
    }

    /// The city a storage name denotes; anything unrecognized is no
    /// selection.
    pub open spec fn spec_from_str(s: Seq<char>) -> City {
        if s == "Hidaj"@ { City::Hidaj }
        else if s == "Khorramdarreh"@ { City::Khorramdarreh }
        else if s == "Abhar"@ { City::Abhar }
        else if s == "Zanjan"@ { City::Zanjan }
        else if s == "Qazvin"@ { City::Qazvin }
        else { City::NoCity }
    }

    /// Parses a city from its storage name.
    pub fn from_str(s: &str) -> (r: City)
        ensures
            r == City::spec_from_str(s@),
    {
        if str_eq(s, "Hidaj") { City::Hidaj }
        else if str_eq(s, "Khorramdarreh") { City::Khorramdarreh }
        else if str_eq(s, "Abhar") { City::Abhar }
        else if str_eq(s, "Zanjan") { City::Zanjan }
        else if str_eq(s, "Qazvin") { City::Qazvin }
        else { City::NoCity }
    }

    /// The Persian display name of the city; a prompt when none is
    /// selected.
    pub open spec fn spec_display_name(self) -> Seq<char> {
        match self {
            City::Hidaj => "هیدج"@,
            City::Khorramdarreh => "خرمدره"@,
            City::Abhar => "ابهر"@,
            City::Zanjan => "زنجان"@,
            City::Qazvin => "قزوین"@,
            City::NoCity => "انتخاب کنید"@,
        }
    }

    /// The Persian display name of the city.
    pub fn display_name(&self) -> (r: &'static str)
        ensures
            r@ == self.spec_display_name(),
    {
        match self {
            City::Hidaj => "هیدج",
            City::Khorramdarreh => "خرمدره",
            City::Abhar => "ابهر",
            City::Zanjan => "زنجان",
            City::Qazvin => "قزوین",
            City::NoCity => "انتخاب کنید",
        }
    }
}

impl Customer {
    /// The customer's phone number formatted for display.
    pub fn formatted_phone(&self) -> (r: String)
        ensures
            r@ == formatted_phone_of(self.phone_number@),
    {
        format_phone_for_display(self.phone_number.as_str())
    }

    /// The Persian display name of the customer's city.
    pub fn city_display_name(&self) -> (r: String)
        ensures
            r@ == City::spec_from_str(self.city@).spec_display_name(),
    {
        City::from_str(self.city.as_str()).display_name().to_owned()
    }
}

/// Whether the stored city choice is acceptable: a selectable city or
/// no selection at all.
pub open spec fn valid_city_choice(c: Seq<char>) -> bool {
    c.len() == 0 || City::spec_from_str(c) != City::NoCity
}

/// What a submitted customer form must satisfy, after trimming, to be
/// accepted.
pub open spec fn customer_form_ok(f: CustomerForm) -> bool {
    &&& trimmed(f.full_name@).len() > 0
    &&& trimmed(f.company@).len() > 0
    &&& phone_norm(digits_of(f.phone_number@)) is Some
    &&& valid_email(lower_of(trimmed(f.email@)))
    &&& f.sales_count >= 0
    &&& valid_city_choice(trimmed(f.city@))
}

/// Validates and normalizes a submitted customer form: text fields
/// are trimmed, the phone number is brought to its standard local
/// form, the email address is normalized, and each rule that fails is
/// reported as a request or field-validation error.
pub fn validate_customer_form(form: &CustomerForm) -> (r: Result<CustomerForm, AppError>)
    ensures
        match r {
            Ok(g) => customer_form_ok(*form) && g.full_name@ == trimmed(form.full_name@)
                && g.company@ == trimmed(form.company@) && g.notes@ == trimmed(form.notes@)
                && g.job_title@ == trimmed(form.job_title@) && g.address@ == trimmed(form.address@)
                && g.city@ == trimmed(form.city@) && Some(g.phone_number@) == phone_norm(
                digits_of(form.phone_number@),
            ) && g.email@ == lower_of(trimmed(form.email@)) && g.sales_count == form.sales_count
                && g.coordinates == form.coordinates,
            Err(e) => !customer_form_ok(*form) && match e {
                AppError::BadRequest(_) => true,
                AppError::Validation(v) => v@.len() == 1 && (v@[0].0@ == "phone_number"@
                    && phone_norm(digits_of(form.phone_number@)) is None || v@[0].0@ == "email"@
                    && !valid_email(lower_of(trimmed(form.email@)))),
                _ => false,
            },
        },
{
    let full_name = trim_str(form.full_name.as_str());
    let company = trim_str(form.company.as_str());
    let notes = trim_str(form.notes.as_str());
    let job_title = trim_str(form.job_title.as_str());
    let address = trim_str(form.address.as_str());
    let city = trim_str(form.city.as_str());

    if full_name.as_str().is_empty() {
        return Err(AppError::BadRequest("نام کامل نمی‌تواند خالی باشد".to_owned()));
    }
    if company.as_str().is_empty() {
        return Err(AppError::BadRequest("نام شرکت نمی‌تواند خالی باشد".to_owned()));
    }
    let phone_number = match normalize_phone_number(form.phone_number.as_str()) {
        Ok(p) => p,
        Err(e) => {
            let msg = match e {
                AppError::BadRequest(m) => m,
                _ => "شماره تلفن نامعتبر است".to_owned(),
            };
            let mut fields: Vec<(String, String)> = Vec::new();
            fields.push(("phone_number".to_owned(), msg));
            return Err(AppError::Validation(fields));
        },
    };
    let email = match validate_email(form.email.as_str()) {
        Ok(e) => e,
        Err(e) => {
            let msg = match e {
                AppError::BadRequest(m) => m,
                _ => "فرمت ایمیل نامعتبر است".to_owned(),
            };
            let mut fields: Vec<(String, String)> = Vec::new();
            fields.push(("email".to_owned(), msg));
            return Err(AppError::Validation(fields));
        },
    };
    if form.sales_count < 0 {
        return Err(AppError::BadRequest("تعداد فروش نمیتواند منفی باشد".to_owned()));
    }
    let city_known = match City::from_str(city.as_str()) {
        City::NoCity => false,
        _ => true,
    };
    if !city_known && !city.as_str().is_empty() {
        return Err(AppError::BadRequest("شهر انتخاب شده معتبر نیست".to_owned()));
    }
    Ok(
        CustomerForm {
            full_name,
            company,
            email,
            phone_number,
            sales_count: form.sales_count,
            job_title,
            city,
            address,
            notes,
            coordinates: form.coordinates.clone(),
        },
    )
}

} // verus!
