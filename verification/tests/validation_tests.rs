use planner::error::AppError;
use planner::routes::{create_invite, create_link, create_trip};
use planner::datetime::DateTime;
use validator::{ValidationError, ValidationErrors};

fn email_ok(s: &str) -> bool {
    create_invite::RequestBody { email: s.to_string() }.validate().is_ok()
}

fn link_errors(title: &str, url: &str) -> Option<Vec<(String, Vec<String>)>> {
    match (create_link::RequestBody { title: title.to_string(), url: url.to_string() }).validate() {
        Ok(()) => None,
        Err(e) => {
            let mut v: Vec<(String, Vec<String>)> = e
                .field_errors()
                .iter()
                .map(|(f, errs)| (f.to_string(), errs.iter().map(|x| x.code.to_string()).collect()))
                .collect();
            v.sort();
            Some(v)
        },
    }
}

#[test]
fn email_rule() {
    assert!(email_ok("ana@example.com"));
    assert!(email_ok("a.b+c@sub.example.org"));
    assert!(!email_ok(""));
    assert!(!email_ok("no-at-sign"));
    assert!(!email_ok("@example.com"));
    assert!(!email_ok("ana@"));
    assert!(!email_ok("ana@-bad-.com"));
}

#[test]
fn url_and_length_rules() {
    assert_eq!(link_errors("Hotel", "https://example.com/page"), None);
    assert_eq!(link_errors("Mail", "mailto:ana@example.com"), None);
    assert_eq!(link_errors("Hotel", "not a url"), Some(vec![("url".to_string(), vec!["url".to_string()])]));
    assert_eq!(link_errors("Hot", ""), Some(vec![
        ("title".to_string(), vec!["length".to_string()]),
        ("url".to_string(), vec!["url".to_string()]),
    ]));
}

#[test]
fn length_counts_characters() {
    assert_eq!(link_errors("Jeju", "https://x.example"), None);
    // three characters, six bytes
    assert!(link_errors("ãõé", "https://x.example").is_some());
    assert_eq!(link_errors("ãõéí", "https://x.example"), None);
}

#[test]
fn trip_request_errors_by_field() {
    let dt = |s: i64| DateTime::from_timestamp(s, 0).unwrap();
    let body = create_trip::RequestBody {
        destination: "Rio".to_string(),
        starts_at: dt(0),
        ends_at: dt(0),
        owner_name: "Ana".to_string(),
        owner_email: "ana".to_string(),
        emails_to_invite: vec!["ok@x.com".to_string(), "bad".to_string()],
    };
    let e = body.validate().err().unwrap();
    let f = e.field_errors();
    assert_eq!(f.len(), 3);
    assert_eq!(f["destination"][0].code, "length");
    assert_eq!(f["owner_email"][0].code, "email");
    assert_eq!(f["emails_to_invite"][0].code, "Invalid email");
    assert_eq!(f["destination"][0].params["min"], 4);
    assert_eq!(f["destination"][0].params["value"], "Rio");
    assert_eq!(f["owner_email"][0].params["value"], "ana");
    assert!(f["emails_to_invite"][0].params["value"].is_array());
    assert!(f.values().all(|errors| errors.len() == 1 && errors[0].message.is_none()));
}

#[test]
fn single_error_text() {
    let mut errors = ValidationErrors::new();
    errors.add("title", ValidationError::new("length"));
    let e = AppError::from_validation_errors(&errors);
    assert!(matches!(e, AppError::InternalServerError(ref m) if m == "title: Validation error: length [{}]"));
}

#[test]
fn error_text_names_each_plain_field_error() {
    let mut errors = ValidationErrors::new();
    let mut with_param = ValidationError::new("length");
    with_param.add_param("min".into(), &4);
    errors.add("title", with_param);
    errors.add("title", ValidationError::new("other"));
    errors.add("url", ValidationError::new("url").with_message("not a link".into()));
    let m = AppError::from_validation_errors(&errors).message();
    assert!(m.contains("title: Validation error: length ["), "{m}");
    assert!(m.contains("url: not a link"), "{m}");
    assert!(!m.contains("url: Validation error"), "{m}");
}
