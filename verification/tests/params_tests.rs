use oxide_auth_actix::params::NormalizedParameter;

#[test]
fn decodes_pairs_in_order() {
    let p = NormalizedParameter::from_urlencoded("code=abc&state=xyz").unwrap();
    assert_eq!(p.len(), 2);
    assert_eq!(p.pair(0), &("code".to_string(), "abc".to_string()));
    assert_eq!(p.pair(1), &("state".to_string(), "xyz".to_string()));
}

#[test]
fn decoding_is_not_the_identity_on_the_text() {
    let p = NormalizedParameter::from_urlencoded("a=1%202&b=x+y").unwrap();
    assert_eq!(p.pair(0), &("a".to_string(), "1 2".to_string()));
    assert_eq!(p.pair(1), &("b".to_string(), "x y".to_string()));
}

#[test]
fn empty_text_decodes_to_empty_map() {
    let p = NormalizedParameter::from_urlencoded("").unwrap();
    assert_eq!(p.len(), 0);
}

#[test]
fn new_map_is_empty_and_push_keeps_order() {
    let mut p = NormalizedParameter::new();
    assert_eq!(p.len(), 0);
    p.push("k".to_string(), "v".to_string());
    p.push("k".to_string(), "w".to_string());
    assert_eq!(p.len(), 2);
    assert_eq!(p.pair(0), &("k".to_string(), "v".to_string()));
    assert_eq!(p.pair(1), &("k".to_string(), "w".to_string()));
}

#[test]
fn unique_value_answers_only_for_keys_appearing_once() {
    let p = NormalizedParameter::from_urlencoded("a=1&b=2&a=3").unwrap();
    assert_eq!(p.unique_value("b"), Some("2"));
    assert_eq!(p.unique_value("a"), None);
    assert_eq!(p.unique_value("c"), None);
}

#[test]
fn unique_value_on_empty_map_is_none() {
    let p = NormalizedParameter::new();
    assert_eq!(p.unique_value("a"), None);
}

#[test]
fn from_pairs_keeps_the_pairs() {
    let p = NormalizedParameter::from_pairs(vec![("a".to_string(), "1".to_string())]);
    assert_eq!(p.len(), 1);
    assert_eq!(p.pair(0), &("a".to_string(), "1".to_string()));
}
