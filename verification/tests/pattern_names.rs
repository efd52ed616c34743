use midiman::pattern::str_to_key;



/// Unknown key string must produce an Err.
#[test]
fn unknown_key_returns_err() {
    let result = str_to_key("ZZZZ");
    assert!(result.is_err(), "str_to_key('ZZZZ') must return Err");
}
