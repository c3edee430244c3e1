use cerebro::hodl::HodlError;

#[test]
fn result_alias_ok_works() {
    let v: cerebro::hodl::Result<i32> = Ok(42);
    assert_eq!(v.unwrap(), 42);
}

#[test]
fn error_display_api() {
    let e = HodlError::Api {
        code: 10004,
        message: "Not found".to_string(),
    };
    assert!(e.to_string().contains("10004"));
    assert!(e.to_string().contains("Not found"));
}
