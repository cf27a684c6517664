use cryogen::{Error, VarMapping};

#[test]
fn test_from_str_splits_at_first_colon() {
    let m = VarMapping::from_str("greeting:/tmp/x.txt").unwrap();
    assert_eq!(m.var_name(), "greeting");
    assert_eq!(m.arg_value(), "/tmp/x.txt");
    assert_eq!(m.file_path(), "/tmp/x.txt");
}

#[test]
fn test_from_str_value_may_hold_colons() {
    let m = VarMapping::from_str("a:b:c").unwrap();
    assert_eq!(m.var_name(), "a");
    assert_eq!(m.arg_value(), "b:c");
}

#[test]
fn test_from_str_round_trip() {
    for token in ["x:y", "name:", ":value", "p:/a:b/c", "::::"] {
        let m = VarMapping::from_str(token).unwrap();
        let rebuilt = format!("{}:{}", m.var_name(), m.arg_value());
        assert_eq!(rebuilt, token);
    }
}

#[test]
fn test_from_str_without_separator_is_malformed() {
    match VarMapping::from_str("novalue") {
        Err(Error::MalformedMapping(t)) => assert_eq!(t, "novalue"),
        _ => panic!("expected a malformed mapping error"),
    }
}

#[test]
fn test_from_str_empty_token_is_malformed() {
    assert!(matches!(
        VarMapping::from_str(""),
        Err(Error::MalformedMapping(_))
    ));
}

#[test]
fn test_from_str_panic_on_well_formed_token() {
    let m = VarMapping::from_str_panic("k:v");
    assert_eq!(m.var_name(), "k");
    assert_eq!(m.arg_value(), "v");
}
