//! The data handed to the views: one struct per page, and the
//! prefilled error pages.

use vstd::prelude::*;

use crate::customer::City;
use crate::customer::Customer;
use crate::error::AppError;
use crate::strutil::push_char;
use crate::strutil::str_eq;
use crate::transactions::TransactionType;
use crate::user::User;

verus! {

/// Login page data.
#[derive(Debug)]
pub struct LoginTemplate {
    pub error: Option<String>,
    pub flash_message: Option<String>,
}

/// User list page data.
#[derive(Debug)]
pub struct UsersTemplate {
    pub users: Vec<User>,
    pub current_user: Option<User>,
    pub active_page: &'static str,
    pub flash_message: Option<String>,
}

/// Add-user page data.
#[derive(Debug)]
pub struct AddUserTemplate {
    pub current_user: Option<User>,
    pub active_page: &'static str,
}

/// Customer list page data.
#[derive(Debug)]
pub struct ListTemplate {
    pub customers: Vec<Customer>,
    pub active_page: &'static str,
    pub current_user: Option<User>,
    pub flash_message: Option<String>,
}

/// Add-customer page data.
#[derive(Debug)]
pub struct AddTemplate {
    pub active_page: &'static str,
    pub current_user: Option<User>,
    pub flash_message: Option<String>,
    pub cities: Vec<City>,
}

/// Edit-customer page data.
#[derive(Debug)]
pub struct EditTemplate {
    pub customer: Customer,
    pub active_page: &'static str,
    pub current_user: Option<User>,
    pub cities: Vec<City>,
}

/// Add-transaction page data.
#[derive(Debug)]
pub struct AddTransactionTemplate {
    pub customer: Customer,
    pub current_user: Option<User>,
    pub active_page: &'static str,
    pub transaction_types: Vec<TransactionType>,
}

/// Add-product page data.
#[derive(Debug)]
pub struct AddProductTemplate {
    pub current_user: Option<User>,
    pub active_page: &'static str,
}

/// Generic error page data.
#[derive(Debug)]
pub struct ErrorTemplate {
    pub title: String,
    pub message: String,
    pub details: Option<String>,
    pub suggestions: Vec<String>,
    pub error_code: Option<String>,
    pub back_url: String,
    pub home_url: String,
}

impl ErrorTemplate {
    /// The page shown when a resource is not found.
    pub fn for_not_found() -> (r: ErrorTemplate)
        ensures
            r.title@ == "صفحه پیدا نشد"@,
            r.message@ == "متأسفانه صفحه یا اطلاعات مورد نظر شما یافت نشد."@,
            r.details is None,
            r.suggestions@.len() == 3,
            r.suggestions@[0]@ == "از منوی بالا برای دسترسی به بخش‌های مختلف استفاده کنید"@,
            r.suggestions@[1]@ == "آدرس صفحه را بررسی و دوباره امتحان کنید"@,
            r.suggestions@[2]@ == "اگر از طریق لینکی وارد شده‌اید، ممکن است لینک قدیمی باشد"@,
            r.error_code matches Some(c) && c@ == "404"@,
            r.back_url@ == "javascript:history.back()"@,
            r.home_url@ == "/"@,
    {
        let mut suggestions: Vec<String> = Vec::new();
        suggestions.push("از منوی بالا برای دسترسی به بخش‌های مختلف استفاده کنید".to_owned());
        suggestions.push("آدرس صفحه را بررسی و دوباره امتحان کنید".to_owned());
        suggestions.push("اگر از طریق لینکی وارد شده‌اید، ممکن است لینک قدیمی باشد".to_owned());
        ErrorTemplate {
            title: "صفحه پیدا نشد".to_owned(),
            message: "متأسفانه صفحه یا اطلاعات مورد نظر شما یافت نشد.".to_owned(),
            details: None,
            suggestions,
            error_code: Some("404".to_owned()),
            back_url: "javascript:history.back()".to_owned(),
            home_url: "/".to_owned(),
        }
    }

    /// The page shown when a request is not authenticated.
    pub fn for_unauthorized() -> (r: ErrorTemplate)
        ensures
            r.title@ == "عدم دسترسی"@,
            r.message@ == "برای مشاهده این صفحه باید وارد سیستم شوید."@,
            r.details matches Some(d) && d@
                == "نشست کاربری شما منقضی شده یا هنوز وارد سیستم نشده‌اید."@,
            r.suggestions@.len() == 2,
            r.suggestions@[0]@ == "از دکمه زیر برای ورود به سیستم استفاده کنید"@,
            r.suggestions@[1]@ == "اگر قبلاً وارد شده بودید، ممکن است نشست شما منقضی شده باشد"@,
            r.error_code matches Some(c) && c@ == "401"@,
            r.back_url@ == "/login"@,
            r.home_url@ == "/login"@,
    {
        let mut suggestions: Vec<String> = Vec::new();
        suggestions.push("از دکمه زیر برای ورود به سیستم استفاده کنید".to_owned());
        suggestions.push("اگر قبلاً وارد شده بودید، ممکن است نشست شما منقضی شده باشد".to_owned());
        ErrorTemplate {
            title: "عدم دسترسی".to_owned(),
            message: "برای مشاهده این صفحه باید وارد سیستم شوید.".to_owned(),
            details: Some("نشست کاربری شما منقضی شده یا هنوز وارد سیستم نشده‌اید.".to_owned()),
            suggestions,
            error_code: Some("401".to_owned()),
            back_url: "/login".to_owned(),
            home_url: "/login".to_owned(),
        }
    }

    /// The page shown when a request lacks the required role.
    pub fn for_forbidden() -> (r: ErrorTemplate)
        ensures
            r.title@ == "دسترسی ممنوع"@,
            r.message@ == "شما اجازه دسترسی به این بخش را ندارید."@,
            r.details matches Some(d) && d@
                == "این بخش فقط برای مدیران سیستم قابل دسترسی است."@,
            r.suggestions@.len() == 2,
            r.suggestions@[0]@ == "اگر نیاز به دسترسی دارید، با مدیر سیستم تماس بگیرید"@,
            r.suggestions@[1]@ == "از منوی اصلی برای دسترسی به بخش‌های مجاز استفاده کنید"@,
            r.error_code matches Some(c) && c@ == "403"@,
            r.back_url@ == "/"@,
            r.home_url@ == "/"@,
    {
        let mut suggestions: Vec<String> = Vec::new();
        suggestions.push("اگر نیاز به دسترسی دارید، با مدیر سیستم تماس بگیرید".to_owned());
        suggestions.push("از منوی اصلی برای دسترسی به بخش‌های مجاز استفاده کنید".to_owned());
        ErrorTemplate {
            title: "دسترسی ممنوع".to_owned(),
            message: "شما اجازه دسترسی به این بخش را ندارید.".to_owned(),
            details: Some("این بخش فقط برای مدیران سیستم قابل دسترسی است.".to_owned()),
            suggestions,
            error_code: Some("403".to_owned()),
            back_url: "/".to_owned(),
            home_url: "/".to_owned(),
        }
    }

    /// The page shown on a storage failure.
    pub fn for_database_error() -> (r: ErrorTemplate)
        ensures
            r.title@ == "خطای پایگاه داده"@,
            r.message@ == "مشکلی در ذخیره یا بازیابی اطلاعات پیش آمده است."@,
            r.details matches Some(d) && d@
                == "این مشکل موقتی است و معمولاً با تلاش مجدد حل می‌شود."@,
            r.suggestions@.len() == 3,
            r.suggestions@[0]@ == "چند لحظه صبر کنید و دوباره امتحان کنید"@,
            r.suggestions@[1]@ == "مرورگر خود را رفرش کنید (F5)"@,
            r.suggestions@[2]@ == "اگر مشکل ادامه داشت، با پشتیبانی تماس بگیرید"@,
            r.error_code matches Some(c) && c@ == "500"@,
            r.back_url@ == "javascript:location.reload()"@,
            r.home_url@ == "/"@,
    {
        let mut suggestions: Vec<String> = Vec::new();
        suggestions.push("چند لحظه صبر کنید و دوباره امتحان کنید".to_owned());
        suggestions.push("مرورگر خود را رفرش کنید (F5)".to_owned());
        suggestions.push("اگر مشکل ادامه داشت، با پشتیبانی تماس بگیرید".to_owned());
        ErrorTemplate {
            title: "خطای پایگاه داده".to_owned(),
            message: "مشکلی در ذخیره یا بازیابی اطلاعات پیش آمده است.".to_owned(),
            details: Some("این مشکل موقتی است و معمولاً با تلاش مجدد حل می‌شود.".to_owned()),
            suggestions,
            error_code: Some("500".to_owned()),
            back_url: "javascript:location.reload()".to_owned(),
            home_url: "/".to_owned(),
        }
    }

    /// The page shown on a uniqueness conflict, worded for the field
    /// that clashed.
    pub fn for_duplicate_entry(field: &str) -> (r: ErrorTemplate)
        ensures
            r.title@ == "اطلاعات تکراری"@,
            field@ == "username"@ ==> r.message@ == "این نام کاربری قبلاً ثبت شده است"@,
            field@ != "username"@ && field@ == "email"@ ==> r.message@
                == "این آدرس ایمیل قبلاً ثبت شده است"@,
            field@ != "username"@ && field@ != "email"@ ==> r.message@
                == "این مورد قبلاً در سیستم ثبت شده است"@,
            r.details matches Some(d) && d@
                == "هر مورد باید منحصر به فرد باشد و نمی‌توان آن را دوباره ثبت کرد."@,
            r.suggestions@.len() == 3,
            r.suggestions@[0]@ == "اطلاعات وارد شده را بررسی و تغییر دهید"@,
            r.suggestions@[1]@
                == "اگر قبلاً این اطلاعات را ثبت کرده‌اید، می‌توانید آن را ویرایش کنید"@,
            r.suggestions@[2]@ == "از بخش جستجو برای یافتن موارد موجود استفاده کنید"@,
            r.error_code is None,
            r.back_url@ == "javascript:history.back()"@,
            r.home_url@ == "/"@,
    {
        let message: &str = if str_eq(field, "username") {
            "این نام کاربری قبلاً ثبت شده است"
        } else if str_eq(field, "email") {
            "این آدرس ایمیل قبلاً ثبت شده است"
        } else {
            "این مورد قبلاً در سیستم ثبت شده است"
        };
        let mut suggestions: Vec<String> = Vec::new();
        suggestions.push("اطلاعات وارد شده را بررسی و تغییر دهید".to_owned());
        suggestions.push(
            "اگر قبلاً این اطلاعات را ثبت کرده‌اید، می‌توانید آن را ویرایش کنید".to_owned(),
        );
        suggestions.push("از بخش جستجو برای یافتن موارد موجود استفاده کنید".to_owned());
        ErrorTemplate {
            title: "اطلاعات تکراری".to_owned(),
            message: message.to_owned(),
            details: Some(
                "هر مورد باید منحصر به فرد باشد و نمی‌توان آن را دوباره ثبت کرد.".to_owned(),
            ),
            suggestions,
            error_code: None,
            back_url: "javascript:history.back()".to_owned(),
            home_url: "/".to_owned(),
        }
    }

    /// The page shown when submitted data fails validation.
    pub fn for_validation_error(details: String) -> (r: ErrorTemplate)
        ensures
            r.title@ == "خطای اعتبارسنجی"@,
            r.message@ == "اطلاعات وارد شده معتبر نیست."@,
            r.details matches Some(d) && d == details,
            r.suggestions@.len() == 3,
            r.suggestions@[0]@ == "اطلاعات فرم را بررسی و اصلاح کنید"@,
            r.suggestions@[1]@ == "مطمئن شوید همه فیلدهای اجباری را پر کرده‌اید"@,
            r.suggestions@[2]@ == "از فرمت صحیح برای ایمیل و شماره تلفن استفاده کنید"@,
            r.error_code is None,
            r.back_url@ == "javascript:history.back()"@,
            r.home_url@ == "/"@,
    {
        let mut suggestions: Vec<String> = Vec::new();
        suggestions.push("اطلاعات فرم را بررسی و اصلاح کنید".to_owned());
        suggestions.push("مطمئن شوید همه فیلدهای اجباری را پر کرده‌اید".to_owned());
        suggestions.push("از فرمت صحیح برای ایمیل و شماره تلفن استفاده کنید".to_owned());
        ErrorTemplate {
            title: "خطای اعتبارسنجی".to_owned(),
            message: "اطلاعات وارد شده معتبر نیست.".to_owned(),
            details: Some(details),
            suggestions,
            error_code: None,
            back_url: "javascript:history.back()".to_owned(),
            home_url: "/".to_owned(),
        }
    }
}

/// The lines of a field-validation report: one bullet per field, as
/// `• field: message`, each line ended.
pub open spec fn validation_details(v: Seq<(String, String)>) -> Seq<char>
    decreases v.len(),
{
    if v.len() == 0 {
        Seq::empty()
    } else {
        validation_details(v.drop_last()) + "• "@ + v.last().0@ + ": "@ + v.last().1@
            + seq!['\n']
    }
}

/// Renders a field-validation report, one bulleted line per field.
pub fn render_validation_details(v: &Vec<(String, String)>) -> (r: String)
    ensures
        r@ == validation_details(v@),
{
    let mut out = String::new();
    let mut i: usize = 0;
    let n = v.len();
    while i < n
        invariant
            0 <= i <= n,
            n == v@.len(),
            out@ == validation_details(v@.subrange(0, i as int)),
        decreases n - i,
    {
        let ghost pre = v@.subrange(0, i as int);
        out.append("• ");
        out.append(v[i].0.as_str());
        out.append(": ");
        out.append(v[i].1.as_str());
        push_char(&mut out, '\n');
        proof {
            assert(v@.subrange(0, i + 1).drop_last() =~= pre);
            assert(v@.subrange(0, i + 1).last() == v@[i as int]);
        }
        i = i + 1;
    }
    proof {
        assert(v@.subrange(0, n as int) =~= v@);
    }
    out
}

/// The HTTP status that an error is reported with.
pub open spec fn spec_status_of(e: AppError) -> u16 {
    match e {
        AppError::Unauthorized => 401,
        AppError::SessionExpired => 401,
        AppError::Forbidden => 403,
        AppError::NotFound => 404,
        AppError::BadRequest(_) => 400,
        AppError::Validation(_) => 400,
        AppError::DuplicateEntry(_) => 409,
        AppError::Database(_) => 500,
        AppError::Internal(_) => 500,
        AppError::Bcrypt(_) => 500,
    }
}

/// Maps an application error to the HTTP status and the error page
/// shown for it. Storage errors map to the database page by their
/// variant alone: driver message text is never inspected.
pub fn error_page(e: &AppError) -> (r: (u16, ErrorTemplate))
    ensures
        r.0 == spec_status_of(*e),
        *e matches AppError::BadRequest(m) ==> r.1.details matches Some(d) && d == m,
        *e matches AppError::Validation(v) ==> r.1.details matches Some(d) && d@
            == validation_details(v@),
        *e matches AppError::DuplicateEntry(f) && f@ == "username"@ ==> r.1.message@
            == "این نام کاربری قبلاً ثبت شده است"@,
        *e matches AppError::SessionExpired ==> r.1.title@ == "نشست منقضی شده"@,
        *e matches AppError::Internal(_) ==> r.1.title@ == "خطای سیستمی"@,
{
    match e {
        AppError::Unauthorized => (401, ErrorTemplate::for_unauthorized()),
        AppError::SessionExpired => {
            let mut suggestions: Vec<String> = Vec::new();
            suggestions.push("روی دکمه ورود کلیک کنید".to_owned());
            suggestions.push("نام کاربری و رمز عبور خود را وارد کنید".to_owned());
            (
                401,
                ErrorTemplate {
                    title: "نشست منقضی شده".to_owned(),
                    message: "نشست کاربری شما منقضی شده است.".to_owned(),
                    details: Some("برای ادامه کار باید دوباره وارد سیستم شوید.".to_owned()),
                    suggestions,
                    error_code: Some("401".to_owned()),
                    back_url: "/login".to_owned(),
                    home_url: "/login".to_owned(),
                },
            )
        },
        AppError::Forbidden => (403, ErrorTemplate::for_forbidden()),
        AppError::NotFound => (404, ErrorTemplate::for_not_found()),
        AppError::BadRequest(msg) => (400, ErrorTemplate::for_validation_error(msg.clone())),
        AppError::DuplicateEntry(field) => (409, ErrorTemplate::for_duplicate_entry(field.as_str())),
        AppError::Validation(errors) => (
            400,
            ErrorTemplate::for_validation_error(render_validation_details(errors)),
        ),
        AppError::Database(_) => (500, ErrorTemplate::for_database_error()),
        AppError::Internal(_) => {
            let mut suggestions: Vec<String> = Vec::new();
            suggestions.push("صفحه را رفرش کنید (F5)".to_owned());
            suggestions.push("چند دقیقه صبر کرده و دوباره امتحان کنید".to_owned());
            suggestions.push("در صورت ادامه مشکل با پشتیبانی تماس بگیرید".to_owned());
            (
                500,
                ErrorTemplate {
                    title: "خطای سیستمی".to_owned(),
                    message: "متأسفانه مشکلی در سیستم رخ داده است.".to_owned(),
                    details: None,
                    suggestions,
                    error_code: Some("500".to_owned()),
                    back_url: "javascript:location.reload()".to_owned(),
                    home_url: "/".to_owned(),
                },
            )
        },
        AppError::Bcrypt(_) => (500, ErrorTemplate::for_database_error()),
    }
}

} // verus!
