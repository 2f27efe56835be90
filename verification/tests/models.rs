use user_service::models::user_model::{User, UserId};
use user_service::models::user_type::UserType;

#[test]
fn parse_reads_two_digits_per_byte() {
    let id = UserId::parse("0123456789abcdef00ff10a5").expect("24 hexadecimal digits");
    assert_eq!(
        id.bytes,
        [0x01, 0x23, 0x45, 0x67, 0x89, 0xab, 0xcd, 0xef, 0x00, 0xff, 0x10, 0xa5]
    );
}

#[test]
fn parse_takes_either_case() {
    let lower = UserId::parse("53e37d08776f724e42abcdef").expect("lower case");
    let upper = UserId::parse("53E37D08776F724E42ABCDEF").expect("upper case");
    let mixed = UserId::parse("53e37D08776f724E42AbCdEf").expect("mixed case");
    assert_eq!(lower, upper);
    assert_eq!(lower, mixed);
    assert_eq!(
        lower.bytes,
        [0x53, 0xe3, 0x7d, 0x08, 0x77, 0x6f, 0x72, 0x4e, 0x42, 0xab, 0xcd, 0xef]
    );
}

#[test]
fn parse_of_all_zeros_and_all_ones() {
    assert_eq!(UserId::parse("000000000000000000000000"), Some(UserId { bytes: [0; 12] }));
    assert_eq!(UserId::parse("ffffffffffffffffffffffff"), Some(UserId { bytes: [0xff; 12] }));
}

#[test]
fn parse_refuses_the_empty_text() {
    assert_eq!(UserId::parse(""), None);
}

#[test]
fn parse_refuses_a_wrong_length() {
    assert_eq!(UserId::parse("53e37d08776f724e4200000"), None);
    assert_eq!(UserId::parse("53e37d08776f724e420000000"), None);
    assert_eq!(UserId::parse("53e37d08776f724e42000000ab"), None);
    assert_eq!(UserId::parse("ab"), None);
}

#[test]
fn parse_refuses_a_character_that_is_no_digit() {
    assert_eq!(UserId::parse("53e37d08776f724e4200000g"), None);
    assert_eq!(UserId::parse("53e37d08776f724e4200000 "), None);
    assert_eq!(UserId::parse("-3e37d08776f724e42000000"), None);
    assert_eq!(UserId::parse("not-a-valid-id"), None);
    assert_eq!(UserId::parse("not-a-valid-id-but-24-ch"), None);
}

#[test]
fn parse_refuses_text_beyond_ascii() {
    // 24 characters, 48 bytes.
    assert_eq!(UserId::parse("éééééééééééééééééééééééé"), None);
    // 12 characters, 24 bytes.
    assert_eq!(UserId::parse("éééééééééééé"), None);
    // 23 digits and one character of two bytes.
    assert_eq!(UserId::parse("53e37d08776f724e4200000é"), None);
}

#[test]
fn parse_agrees_with_the_driver() {
    let texts = vec![
        "53e37d08776f724e42000000",
        "7FFFFFFF0000000000000000",
        "0123456789abcdefABCDEF99",
    ];
    for text in texts {
        let theirs = bson::oid::ObjectId::parse_str(text).expect("valid");
        let ours = UserId::parse(text).expect("valid");
        assert_eq!(ours.bytes, theirs.bytes());
        assert_eq!(bson::oid::ObjectId::from_bytes(ours.bytes), theirs);
    }
}

#[test]
fn parse_reads_back_what_the_driver_writes() {
    let bytes = [0xde, 0xad, 0xbe, 0xef, 0x00, 0x01, 0x02, 0x03, 0x04, 0x05, 0x06, 0x07];
    let text = bson::oid::ObjectId::from_bytes(bytes).to_hex();
    assert_eq!(text, "deadbeef0001020304050607");
    assert_eq!(UserId::parse(&text), Some(UserId { bytes }));
}

#[test]
fn with_id_keeps_the_other_fields() {
    let user = User {
        id: None,
        name: "A".to_string(),
        location: "B".to_string(),
        title: "C".to_string(),
    };
    let id = UserId { bytes: [7; 12] };
    let stored = user.with_id(Some(id));
    assert_eq!(stored.id, Some(id));
    assert_eq!(stored.name, "A");
    assert_eq!(stored.location, "B");
    assert_eq!(stored.title, "C");
    assert_eq!(stored.with_id(None), user);
}

#[test]
fn user_types_are_told_apart() {
    assert_eq!(UserType::Known, UserType::Known);
    assert_ne!(UserType::Known, UserType::Anonymous);
    let copy = UserType::Anonymous;
    assert_eq!(copy, UserType::Anonymous);
}
