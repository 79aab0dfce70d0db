use babe_monitor::identity::{
    extract_raw_data, label, lookup_local_name, parse_local_map, resolve_identity, IdentityData,
};

const ACCOUNT: &str = "5GrwvaEF5zXb26Fz9rcQpDWS57CtERHpNehXCPcNoHGKutQY";

fn local() -> Vec<(String, String)> {
    vec![(ACCOUNT.to_string(), "Alice Validator".to_string())]
}

#[test]
fn offchain_name_when_no_onchain_identity() {
    let r = resolve_identity(&ACCOUNT.to_string(), &None, &local());
    assert_eq!(r, format!("Alice Validator [{}]", ACCOUNT));
}

#[test]
fn no_ident_when_absent_everywhere() {
    let r = resolve_identity(&"5Other".to_string(), &None, &local());
    assert_eq!(r, "NO_IDENT [5Other]");
}

#[test]
fn onchain_display_wins() {
    let data = Some(IdentityData::Raw(b"Bob".to_vec()));
    let r = resolve_identity(&ACCOUNT.to_string(), &data, &local());
    assert_eq!(r, format!("Bob [{}]", ACCOUNT));
}

#[test]
fn hashed_display_falls_back_to_offchain() {
    let data = Some(IdentityData::BlakeTwo256([1u8; 32]));
    let r = resolve_identity(&ACCOUNT.to_string(), &data, &local());
    assert_eq!(r, format!("Alice Validator [{}]", ACCOUNT));
    let r = resolve_identity(&ACCOUNT.to_string(), &Some(IdentityData::Empty), &Vec::new());
    assert_eq!(r, format!("NO_IDENT [{}]", ACCOUNT));
}

#[test]
fn raw_display_is_decoded_lossily() {
    assert_eq!(extract_raw_data(&IdentityData::Raw(vec![b'h', 0xff, b'i'])), Some("h\u{fffd}i".to_string()));
    assert_eq!(extract_raw_data(&IdentityData::Raw(Vec::new())), Some(String::new()));
    assert_eq!(extract_raw_data(&IdentityData::Raw(vec![b'x'; 32])), Some("x".repeat(32)));
    assert_eq!(extract_raw_data(&IdentityData::Raw(vec![b'x'; 33])), None);
    assert_eq!(extract_raw_data(&IdentityData::Sha256([0u8; 32])), None);
    assert_eq!(extract_raw_data(&IdentityData::Empty), None);
}

#[test]
fn label_brackets_account() {
    assert_eq!(label("name", "acc"), "name [acc]");
    assert_eq!(label("", ""), " []");
}

#[test]
fn local_lookup_takes_first_entry() {
    let entries = vec![
        ("a".to_string(), "first".to_string()),
        ("a".to_string(), "second".to_string()),
    ];
    assert_eq!(lookup_local_name(&entries, &"a".to_string()), Some("first".to_string()));
    assert_eq!(lookup_local_name(&entries, &"b".to_string()), None);
}

#[test]
fn local_map_parses_json_object() {
    let m = parse_local_map(r#"{ "b": "Bee", "a": "Ay" }"#);
    assert_eq!(
        m,
        vec![("a".to_string(), "Ay".to_string()), ("b".to_string(), "Bee".to_string())]
    );
}

#[test]
fn malformed_local_map_is_empty() {
    assert!(parse_local_map("not json").is_empty());
    assert!(parse_local_map(r#"{ "a": 1 }"#).is_empty());
    assert!(parse_local_map("").is_empty());
}
