use rumiland::city::{City as MajorCity, IranCity};
use rumiland::config::Config;
use rumiland::customer::{validate_customer_form, City, Customer, CustomerForm};
use rumiland::dates::format_date_shamsi;
use rumiland::error::AppError;
use rumiland::flash::{FlashMessage, FlashType};
use rumiland::product::stock_status_class;
use rumiland::templates::{error_page, ErrorTemplate};
use rumiland::transactions::{formatted_date_shamsi, validate_transaction_date, TransactionType};

fn sample_form() -> CustomerForm {
    CustomerForm {
        full_name: "  Sara Ahmadi ".to_string(),
        company: " Rumi Co ".to_string(),
        email: " SARA@Example.COM ".to_string(),
        phone_number: "0912 345 6789".to_string(),
        sales_count: 3,
        job_title: " Buyer ".to_string(),
        city: " Zanjan ".to_string(),
        address: " Some street ".to_string(),
        notes: " note ".to_string(),
        coordinates: "".to_string(),
    }
}

#[test]
fn test_validate_customer_form_ok() {
    let ok = validate_customer_form(&sample_form()).unwrap();
    assert_eq!(ok.full_name, "Sara Ahmadi");
    assert_eq!(ok.company, "Rumi Co");
    assert_eq!(ok.email, "sara@example.com");
    assert_eq!(ok.phone_number, "09123456789");
    assert_eq!(ok.city, "Zanjan");
    assert_eq!(ok.job_title, "Buyer");
    assert_eq!(ok.notes, "note");
    assert_eq!(ok.sales_count, 3);
}

#[test]
fn test_validate_customer_form_empty_city_ok() {
    let mut form = sample_form();
    form.city = "".to_string();
    assert!(validate_customer_form(&form).is_ok());
}

#[test]
fn test_validate_customer_form_errors() {
    let mut form = sample_form();
    form.full_name = "   ".to_string();
    assert!(matches!(
        validate_customer_form(&form),
        Err(AppError::BadRequest(_))
    ));

    let mut form = sample_form();
    form.company = "".to_string();
    assert!(matches!(
        validate_customer_form(&form),
        Err(AppError::BadRequest(_))
    ));

    let mut form = sample_form();
    form.phone_number = "12345".to_string();
    match validate_customer_form(&form) {
        Err(AppError::Validation(fields)) => assert_eq!(fields[0].0, "phone_number"),
        other => panic!("expected Validation, got {:?}", other),
    }

    let mut form = sample_form();
    form.email = "not-an-email".to_string();
    match validate_customer_form(&form) {
        Err(AppError::Validation(fields)) => assert_eq!(fields[0].0, "email"),
        other => panic!("expected Validation, got {:?}", other),
    }

    let mut form = sample_form();
    form.sales_count = -1;
    assert!(matches!(
        validate_customer_form(&form),
        Err(AppError::BadRequest(_))
    ));

    let mut form = sample_form();
    form.city = "Atlantis".to_string();
    assert!(matches!(
        validate_customer_form(&form),
        Err(AppError::BadRequest(_))
    ));
}

#[test]
fn test_customer_display_helpers() {
    let customer = Customer {
        id: 1,
        full_name: "Sara".to_string(),
        company: "Rumi Co".to_string(),
        email: "sara@example.com".to_string(),
        phone_number: "09123456789".to_string(),
        sales_count: 0,
        job_title: "".to_string(),
        city: "Hidaj".to_string(),
        address: "".to_string(),
        notes: "".to_string(),
        coordinates: "".to_string(),
    };
    assert_eq!(customer.formatted_phone(), "0912 345 6789");
    assert_eq!(customer.city_display_name(), "هیدج");
}

#[test]
fn test_form_city_roundtrip() {
    for c in City::all_cities() {
        assert_eq!(City::from_str(c.as_str()), c);
    }
    assert_eq!(City::from_str("nowhere"), City::NoCity);
    assert_eq!(City::NoCity.display_name(), "انتخاب کنید");
    assert_eq!(City::Zanjan.display_name(), "زنجان");
    assert_eq!(City::all_cities().len(), 5);
}

#[test]
fn test_iran_city_sorted_by_persian_name() {
    let all = IranCity::all();
    assert_eq!(all.len(), 20);
    assert_eq!(all[0], IranCity::Abbar);
    assert_eq!(all[19], IranCity::Garmab);
    // Ascending by Persian name, exactly as string comparison orders
    // them.
    for w in all.windows(2) {
        assert!(w[0].persian_name() < w[1].persian_name());
    }
}

#[test]
fn test_iran_city_names() {
    assert_eq!(IranCity::Zanjan.persian_name(), "زنجان");
    assert_eq!(IranCity::Zanjan.english_name(), "Zanjan");
    for c in IranCity::all() {
        assert_eq!(IranCity::from_str(c.english_name()), Some(c));
    }
    assert_eq!(IranCity::from_str("Tehran"), None);
}

#[test]
fn test_major_cities_table() {
    let cities = MajorCity::iranian_cities();
    assert_eq!(cities.len(), 8);
    assert_eq!(cities[0].code, "TEH");
    assert_eq!(cities[0].name_fa, "تهران");
    assert_eq!(cities[7].name_en, "Ahvaz");
}

#[test]
fn test_transaction_type_roundtrip() {
    for t in TransactionType::all() {
        assert_eq!(TransactionType::from_str(t.as_str()), t);
    }
    assert_eq!(TransactionType::from_str("???"), TransactionType::Other);
    assert_eq!(TransactionType::Cash.display_name(), "نقدی");
    assert_eq!(TransactionType::CardTransfer.display_name(), "کارت به کارت");
    assert_eq!(TransactionType::all().len(), 5);
}

#[test]
fn test_validate_transaction_date() {
    assert!(validate_transaction_date("1403/05/02").is_ok());
    // Persian digits are accepted.
    assert!(validate_transaction_date("۱۴۰۳/۰۵/۰۲").is_ok());
    assert!(matches!(
        validate_transaction_date(""),
        Err(AppError::BadRequest(_))
    ));
    assert!(matches!(
        validate_transaction_date("  "),
        Err(AppError::BadRequest(_))
    ));
    assert!(matches!(
        validate_transaction_date("1403/5/2"),
        Err(AppError::BadRequest(_))
    ));
    assert!(matches!(
        validate_transaction_date("14030502"),
        Err(AppError::BadRequest(_))
    ));
}

#[test]
fn test_formatted_date_shamsi() {
    assert_eq!(formatted_date_shamsi("2024-07-23 00:00:00"), "1403/05/02");
    assert_eq!(formatted_date_shamsi("2024-03-20 12:30:00"), "1403/01/01");
    // An empty or unparseable date comes back unchanged.
    assert_eq!(formatted_date_shamsi(""), "");
    assert_eq!(formatted_date_shamsi("yesterday"), "yesterday");
    assert_eq!(format_date_shamsi("2024-07-23 00:00:00"), "1403/05/02");
}

#[test]
fn test_config_server_address() {
    let config = Config {
        database_url: "sqlite:rumiland.db?mode=rwc".to_string(),
        server_host: "0.0.0.0".to_string(),
        server_port: 3000,
        session_duration_hours: 24,
    };
    assert_eq!(config.server_address(), "0.0.0.0:3000");
}

#[test]
fn test_flash_messages() {
    let f = FlashMessage::success("ok".to_string());
    assert_eq!(f.message, "ok");
    assert_eq!(f.flash_type, FlashType::Success);
    assert_eq!(FlashMessage::error("e".to_string()).flash_type, FlashType::Error);
    assert_eq!(FlashMessage::warning("w".to_string()).flash_type, FlashType::Warning);
    assert_eq!(FlashMessage::info("i".to_string()).flash_type, FlashType::Info);
}

#[test]
fn test_stock_status_class() {
    assert_eq!(stock_status_class(100), "badge-success");
    assert_eq!(stock_status_class(51), "badge-success");
    assert_eq!(stock_status_class(50), "badge-warning");
    assert_eq!(stock_status_class(1), "badge-warning");
    assert_eq!(stock_status_class(0), "badge-error");
    assert_eq!(stock_status_class(-5), "badge-error");
}

#[test]
fn test_error_templates() {
    let t = ErrorTemplate::for_not_found();
    assert_eq!(t.error_code.as_deref(), Some("404"));
    assert_eq!(t.home_url, "/");
    let t = ErrorTemplate::for_unauthorized();
    assert_eq!(t.error_code.as_deref(), Some("401"));
    assert_eq!(t.back_url, "/login");
    let t = ErrorTemplate::for_forbidden();
    assert_eq!(t.error_code.as_deref(), Some("403"));
    let t = ErrorTemplate::for_database_error();
    assert_eq!(t.error_code.as_deref(), Some("500"));
    let t = ErrorTemplate::for_duplicate_entry("username");
    assert_eq!(t.message, "این نام کاربری قبلاً ثبت شده است");
    let t = ErrorTemplate::for_duplicate_entry("email");
    assert_eq!(t.message, "این آدرس ایمیل قبلاً ثبت شده است");
    let t = ErrorTemplate::for_duplicate_entry("other");
    assert_eq!(t.message, "این مورد قبلاً در سیستم ثبت شده است");
    let t = ErrorTemplate::for_validation_error("details here".to_string());
    assert_eq!(t.details.as_deref(), Some("details here"));
    assert_eq!(t.suggestions.len(), 3);
}

#[test]
fn test_error_page_mapping() {
    assert_eq!(error_page(&AppError::Unauthorized).0, 401);
    assert_eq!(error_page(&AppError::SessionExpired).0, 401);
    assert_eq!(error_page(&AppError::Forbidden).0, 403);
    assert_eq!(error_page(&AppError::NotFound).0, 404);
    assert_eq!(error_page(&AppError::BadRequest("x".to_string())).0, 400);
    assert_eq!(error_page(&AppError::DuplicateEntry("email".to_string())).0, 409);
    assert_eq!(error_page(&AppError::Database("boom".to_string())).0, 500);
    assert_eq!(error_page(&AppError::Internal("boom".to_string())).0, 500);
    assert_eq!(error_page(&AppError::Bcrypt("boom".to_string())).0, 500);

    let (status, page) = error_page(&AppError::Validation(vec![
        ("phone_number".to_string(), "bad".to_string()),
        ("email".to_string(), "worse".to_string()),
    ]));
    assert_eq!(status, 400);
    assert_eq!(
        page.details.as_deref(),
        Some("\u{2022} phone_number: bad\n\u{2022} email: worse\n")
    );

    let (_, page) = error_page(&AppError::SessionExpired);
    assert_eq!(page.back_url, "/login");
}
