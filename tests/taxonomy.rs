use error_code::{AppCode, ErrorInfo, HttpStatus, Taxonomy, TaxonomyError, ToErrorInfo, VariantSpec};

#[derive(Debug, PartialEq)]
enum MyError {
    InvalidCommand(String),
    InvalidArgument(String),
    RespError(String),
    Misdeclared,
}

fn variant(name: &str, code: &str, app_code: &str, client_msg: &str) -> VariantSpec {
    VariantSpec {
        name: name.to_string(),
        code: code.to_string(),
        app_code: app_code.to_string(),
        client_msg: client_msg.to_string(),
    }
}

fn my_taxonomy() -> Taxonomy {
    Taxonomy::new(
        "01".to_string(),
        vec![
            variant("InvalidCommand", "IC", "400", ""),
            variant("InvalidArgument", "IA", "400", "friendly msg"),
            variant("RespError", "RE", "500", ""),
            variant("Misdeclared", "MD", "bad", ""),
        ],
    )
    .unwrap()
}

impl ToErrorInfo for MyError {
    type T = HttpStatus;

    fn to_error_info(&self) -> Result<ErrorInfo<HttpStatus, &Self>, <HttpStatus as AppCode>::ParseError> {
        let index = match self {
            MyError::InvalidCommand(_) => 0,
            MyError::InvalidArgument(_) => 1,
            MyError::RespError(_) => 2,
            MyError::Misdeclared => 3,
        };
        my_taxonomy().describe(index, self)
    }
}

#[test]
fn invalid_command_descriptor() {
    let err = MyError::InvalidCommand("x".to_string());
    let info = err.to_error_info().unwrap();
    assert_eq!(info.app_code.as_u16(), 400);
    assert_eq!(info.code, "01IC");
    assert_eq!(info.client_msg, "");
    assert_eq!(info.cause, &MyError::InvalidCommand("x".to_string()));
}

#[test]
fn invalid_argument_descriptor() {
    let err = MyError::InvalidArgument("y".to_string());
    let info = err.to_error_info().unwrap();
    assert_eq!(info.app_code.as_u16(), 400);
    assert_eq!(info.code, "01IA");
    assert_eq!(info.client_msg, "friendly msg");
}

#[test]
fn bad_app_code_is_a_parse_failure() {
    let err = MyError::Misdeclared;
    assert!(err.to_error_info().is_err());
}

#[test]
fn every_variant_converts() {
    let all = vec![
        MyError::InvalidCommand("a".to_string()),
        MyError::InvalidArgument("b".to_string()),
        MyError::RespError("c".to_string()),
        MyError::Misdeclared,
    ];
    let expected = vec![Some(("01IC", 400)), Some(("01IA", 400)), Some(("01RE", 500)), None];
    for (err, want) in all.iter().zip(expected) {
        match (err.to_error_info(), want) {
            (Ok(info), Some((code, status))) => {
                assert_eq!(info.code, code);
                assert_eq!(info.app_code.as_u16(), status);
                assert!(std::ptr::eq(info.cause, err));
            }
            (Err(_), None) => {}
            (other, want) => panic!("unexpected {:?} for {:?}", other.map(|i| i.code), want),
        }
    }
}

#[test]
fn cause_is_the_original_value() {
    let err = MyError::RespError("boom".to_string());
    let info = err.to_error_info().unwrap();
    assert!(std::ptr::eq(info.cause, &err));
    assert_eq!(info.cause, &err);
}

#[test]
fn try_new_builds_descriptor() {
    let info: ErrorInfo<HttpStatus, u32> = ErrorInfo::try_new("404", "02NF", "not here", 7).unwrap();
    assert_eq!(info.app_code.as_u16(), 404);
    assert_eq!(info.code, "02NF");
    assert_eq!(info.client_msg, "not here");
    assert_eq!(info.cause, 7);
}

#[test]
fn try_new_keeps_empty_message() {
    let info: ErrorInfo<HttpStatus, ()> = ErrorInfo::try_new("500", "X", "", ()).unwrap();
    assert_eq!(info.client_msg, "");
}

#[test]
fn try_new_rejects_unparseable_code() {
    let r: Result<ErrorInfo<HttpStatus, ()>, _> = ErrorInfo::try_new("not-a-status", "X", "", ());
    let e = r.unwrap_err();
    let _: &http::status::InvalidStatusCode = &e;
}

#[test]
fn status_text_rules() {
    assert_eq!(HttpStatus::parse_app_code("100").unwrap().as_u16(), 100);
    assert_eq!(HttpStatus::parse_app_code("999").unwrap().as_u16(), 999);
    assert_eq!(HttpStatus::parse_app_code("418").unwrap().as_u16(), 418);
    assert!(HttpStatus::parse_app_code("099").is_err());
    assert!(HttpStatus::parse_app_code("1000").is_err());
    assert!(HttpStatus::parse_app_code("40").is_err());
    assert!(HttpStatus::parse_app_code("").is_err());
    assert!(HttpStatus::parse_app_code("4a0").is_err());
    assert!(HttpStatus::parse_app_code("+40").is_err());
}

#[test]
fn status_from_u16_range() {
    assert_eq!(HttpStatus::from_u16(100).unwrap().as_u16(), 100);
    assert_eq!(HttpStatus::from_u16(999).unwrap().as_u16(), 999);
    assert!(HttpStatus::from_u16(99).is_none());
    assert!(HttpStatus::from_u16(1000).is_none());
    assert!(HttpStatus::from_u16(0).is_none());
}

#[test]
fn full_code_is_plain_concatenation() {
    let t = Taxonomy::new(
        "net-".to_string(),
        vec![variant("Timeout", "TO", "504", ""), variant("Empty", "", "500", "")],
    )
    .unwrap();
    assert_eq!(t.prefix(), "net-");
    assert_eq!(t.full_code(0), "net-TO");
    assert_eq!(t.full_code(1), "net-");
}

#[test]
fn empty_prefix_and_empty_table() {
    let t = Taxonomy::new(String::new(), vec![]).unwrap();
    assert_eq!(t.len(), 0);
    assert_eq!(t.position("Anything"), None);
    let t = Taxonomy::new(String::new(), vec![variant("A", "A1", "200", "")]).unwrap();
    assert_eq!(t.full_code(0), "A1");
}

#[test]
fn duplicate_variant_is_refused() {
    let r = Taxonomy::new(
        "01".to_string(),
        vec![
            variant("A", "X1", "400", ""),
            variant("B", "X2", "400", ""),
            variant("B", "X3", "400", ""),
            variant("A", "X4", "400", ""),
        ],
    );
    assert_eq!(r.unwrap_err(), TaxonomyError::DuplicateVariant { first: 1, second: 2 });
}

#[test]
fn duplicate_code_is_refused() {
    let r = Taxonomy::new(
        "01".to_string(),
        vec![
            variant("A", "X1", "400", ""),
            variant("B", "X2", "400", ""),
            variant("C", "X1", "500", ""),
        ],
    );
    assert_eq!(r.unwrap_err(), TaxonomyError::DuplicateCode { first: 0, second: 2 });
}

#[test]
fn duplicate_code_with_short_prefix() {
    let r = Taxonomy::new(
        "0".to_string(),
        vec![variant("A", "1A", "400", ""), variant("B", "1A", "400", "")],
    );
    assert_eq!(r.unwrap_err(), TaxonomyError::DuplicateCode { first: 0, second: 1 });
}

#[test]
fn variant_name_checked_before_code() {
    let r = Taxonomy::new(
        "01".to_string(),
        vec![variant("A", "X1", "400", ""), variant("B", "X1", "400", ""), variant("A", "X2", "400", "")],
    );
    assert_eq!(r.unwrap_err(), TaxonomyError::DuplicateVariant { first: 0, second: 2 });
}

#[test]
fn lookup_by_name() {
    let t = my_taxonomy();
    assert_eq!(t.len(), 4);
    assert_eq!(t.position("InvalidArgument"), Some(1));
    assert_eq!(t.position("Missing"), None);
    assert_eq!(t.variant(2).name, "RespError");
    let d = t.describe_variant::<HttpStatus, &str>("RespError", "cause").unwrap().unwrap();
    assert_eq!(d.code, "01RE");
    assert_eq!(d.app_code.as_u16(), 500);
    assert_eq!(d.cause, "cause");
    assert!(t.describe_variant::<HttpStatus, ()>("Missing", ()).is_none());
    assert!(t.describe_variant::<HttpStatus, ()>("Misdeclared", ()).unwrap().is_err());
}
