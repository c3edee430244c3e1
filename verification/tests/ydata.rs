#[test]
fn integration_result_alias_ok_works() {
    let v: cerebro::ydata::Result<i32> = Ok(42);
    assert_eq!(v.unwrap(), 42);
}
