use env_keys::key::canonical_string;
use env_keys::key::compose;
use env_keys::key::key_from_str;
use env_keys::key::KeyPath;
use env_keys::key::PathConstructionError;
use env_keys::key::Segment;

fn name(s: &str) -> Segment {
    Segment::name(String::from(s)).unwrap()
}

#[test]
fn root_key_is_zero() {
    assert_eq!(compose(&KeyPath::new()), 0);
}

#[test]
fn contract_field_keys_match_literal_reconstruction() {
    let contract = KeyPath::new().extend(name("Contract"));
    let field0 = contract.clone().extend(Segment::index(0));
    let field1 = contract.extend(Segment::index(1));
    assert_eq!(compose(&field0), key_from_str("Contract::0"));
    assert_eq!(compose(&field1), key_from_str("Contract::1"));
}

#[test]
fn lazy_field_key_differs_from_mapping_field_key() {
    let contract = KeyPath::new().extend(name("Contract"));
    let field0 = contract.clone().extend(Segment::index(0));
    let field1 = contract.extend(Segment::index(1));
    assert_ne!(compose(&field0), compose(&field1));
}

#[test]
fn compose_is_deterministic() {
    let path = KeyPath::new().extend(name("Contract")).extend(name("Mapping")).extend(name("inner"));
    assert_eq!(compose(&path), compose(&path));
    let rebuilt =
        KeyPath::new().extend(name("Contract")).extend(name("Mapping")).extend(name("inner"));
    assert_eq!(compose(&path), compose(&rebuilt));
}

#[test]
fn canonical_join_uses_double_colon_separator() {
    assert_eq!(canonical_string(&KeyPath::new()), "");
    let contract = KeyPath::new().extend(name("Contract"));
    assert_eq!(canonical_string(&contract), "Contract");
    let field0 = contract.clone().extend(Segment::index(0));
    assert_eq!(canonical_string(&field0), "Contract::0");
    let inner = contract.extend(name("Mapping")).extend(name("inner"));
    assert_eq!(canonical_string(&inner), "Contract::Mapping::inner");
}

#[test]
fn indices_render_in_decimal() {
    let digits = |i: u64| canonical_string(&KeyPath::new().extend(Segment::index(i)));
    assert_eq!(digits(0), "0");
    assert_eq!(digits(7), "7");
    assert_eq!(digits(10), "10");
    assert_eq!(digits(12345), "12345");
    assert_eq!(digits(u64::MAX), "18446744073709551615");
}

#[test]
fn distinct_sample_paths_compose_to_distinct_keys() {
    let sample = vec![
        KeyPath::new().extend(name("Contract")),
        KeyPath::new().extend(name("Contract")).extend(Segment::index(0)),
        KeyPath::new().extend(name("Contract")).extend(Segment::index(1)),
        KeyPath::new().extend(name("Contract")).extend(name("Mapping")).extend(name("inner")),
        KeyPath::new().extend(name("Other")).extend(Segment::index(0)),
        KeyPath::new().extend(name("Other")),
    ];
    let keys: Vec<u128> = sample.iter().map(compose).collect();
    for a in 0..keys.len() {
        for b in 0..keys.len() {
            if a != b {
                assert_ne!(keys[a], keys[b]);
            }
        }
    }
}

#[test]
fn name_segment_validation() {
    assert_eq!(Segment::name(String::from("")), Err(PathConstructionError::EmptyName));
    assert_eq!(Segment::name(String::from("a::b")), Err(PathConstructionError::ContainsSeparator));
    assert_eq!(Segment::name(String::from("::")), Err(PathConstructionError::ContainsSeparator));
    assert_eq!(Segment::name(String::from("a:b")), Ok(Segment::Name(String::from("a:b"))));
    assert_eq!(Segment::name(String::from("a:")), Ok(Segment::Name(String::from("a:"))));
    assert_eq!(
        Segment::name(String::from("Contract")),
        Ok(Segment::Name(String::from("Contract")))
    );
}

#[test]
fn empty_canonical_string_keys_to_root() {
    assert_eq!(key_from_str(""), 0);
}
