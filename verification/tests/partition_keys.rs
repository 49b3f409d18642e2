use azure_sdk_cosmos::partition_keys::PartitionKeys;

#[test]
fn no_keys_give_an_empty_array() {
    let keys = PartitionKeys::new();
    assert_eq!(keys.len(), 0);
    assert_eq!(keys.to_json(), "[]");
}

#[test]
fn a_string_key_is_quoted() {
    let mut keys = PartitionKeys::new();
    assert!(keys.push("unique_id3").is_ok());
    assert_eq!(keys.len(), 1);
    assert_eq!(keys.to_json(), "[\"unique_id3\"]");
}

#[test]
fn reserved_characters_of_a_string_key_are_escaped() {
    let mut keys = PartitionKeys::new();
    assert!(keys.push("a\"b\\c\nd").is_ok());
    assert_eq!(keys.to_json(), "[\"a\\\"b\\\\c\\nd\"]");
}

#[test]
fn keys_keep_their_order_and_are_separated_by_commas() {
    let mut keys = PartitionKeys::new();
    assert!(keys.push("b").is_ok());
    keys.push_number(42);
    assert!(keys.push("a").is_ok());
    keys.push_json("null".to_string());
    assert_eq!(keys.len(), 4);
    assert_eq!(keys.to_json(), "[\"b\",42,\"a\",null]");
}

#[test]
fn the_array_is_what_the_encoder_writes_for_the_same_list() {
    let mut keys = PartitionKeys::new();
    assert!(keys.push("x y").is_ok());
    assert!(keys.push("é").is_ok());
    assert!(keys.push("").is_ok());
    let same = vec!["x y".to_string(), "é".to_string(), String::new()];
    assert_eq!(keys.to_json(), serde_json::to_string(&same).unwrap());
}

#[test]
fn a_number_key_is_what_the_encoder_writes_for_the_number() {
    for n in [0u64, 9, 10, 600, u64::MAX] {
        let mut keys = PartitionKeys::new();
        keys.push_number(n);
        assert_eq!(keys.to_json(), serde_json::to_string(&vec![n]).unwrap());
    }
}

#[test]
fn push_encoded_adds_what_was_encoded() {
    let mut keys = PartitionKeys::new();
    assert!(keys.push_encoded(serde_json::to_string(&true)).is_ok());
    assert_eq!(keys.to_json(), "[true]");
}

#[test]
fn push_encoded_leaves_the_keys_alone_when_encoding_failed() {
    let mut keys = PartitionKeys::new();
    assert!(keys.push("kept").is_ok());
    let failure = serde_json::from_str::<String>("not json").map(|s| s);
    assert!(failure.is_err());
    assert!(keys.push_encoded(failure).is_err());
    assert_eq!(keys.to_json(), "[\"kept\"]");
}
