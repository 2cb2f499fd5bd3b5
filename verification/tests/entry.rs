use std::fmt::{Display, Formatter, Result as FmtResult};

use starchart::Key;

#[derive(Debug, Clone)]
struct Keyable {
    inner: String,
}

impl Display for Keyable {
    fn fmt(&self, f: &mut Formatter<'_>) -> FmtResult {
        Display::fmt(&self.inner, f)
    }
}

#[test]
fn to_key() {
    let keyable = Keyable {
        inner: "12345".to_owned(),
    };

    assert_eq!(keyable.to_key(), "12345".to_owned());
}

#[test]
fn displayed_keys() {
    assert_eq!(0_u32.to_key(), "0");
    assert_eq!(7_u8.to_key(), "7");
    assert_eq!(10_u64.to_key(), "10");
    assert_eq!(1234567890_u64.to_key(), "1234567890");
    assert_eq!(u64::MAX.to_key(), u64::MAX.to_string());
    assert_eq!((-5_i32).to_key(), "-5");
    assert_eq!(i64::MIN.to_key(), i64::MIN.to_string());
    assert_eq!(0_i64.to_key(), "0");
    assert_eq!(true.to_key(), "true");
    assert_eq!(false.to_key(), "false");
    assert_eq!("abc".to_key(), "abc");
    assert_eq!(String::from("xyz").to_key(), "xyz");
}
