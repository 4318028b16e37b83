use httpie_lite::kv::{KvPair, ParseError};

fn parsed(token: &str) -> (String, String) {
    match KvPair::parse(token) {
        Ok(p) => (p.key, p.value),
        Err(ParseError::MalformedPair(t)) => panic!("unexpected error for {}", t),
    }
}

#[test]
fn plain_pair_splits_into_key_and_value() {
    assert_eq!(parsed("k=v"), ("k".to_string(), "v".to_string()));
    assert_eq!(parsed("name=alice"), ("name".to_string(), "alice".to_string()));
}

#[test]
fn value_keeps_embedded_equals() {
    assert_eq!(parsed("k=a=b"), ("k".to_string(), "a=b".to_string()));
    assert_eq!(parsed("token=YWJj=="), ("token".to_string(), "YWJj==".to_string()));
}

#[test]
fn token_without_equals_is_malformed() {
    match KvPair::parse("novalue") {
        Err(ParseError::MalformedPair(t)) => assert_eq!(t, "novalue"),
        Ok(_) => panic!("accepted a token without '='"),
    }
    assert!(KvPair::parse("").is_err());
}

#[test]
fn nothing_is_trimmed() {
    assert_eq!(parsed(" a = b "), (" a ".to_string(), " b ".to_string()));
    assert_eq!(parsed(" Key =%41+b "), (" Key ".to_string(), "%41+b ".to_string()));
}

#[test]
fn empty_key_or_value_is_malformed() {
    for token in ["k=", "=v", "=", "==x"] {
        match KvPair::parse(token) {
            Err(ParseError::MalformedPair(t)) => assert_eq!(t, token),
            Ok(p) => panic!("accepted {:?} as ({:?}, {:?})", token, p.key, p.value),
        }
    }
    assert_eq!(parsed("k=="), ("k".to_string(), "=".to_string()));
}

#[test]
fn non_ascii_tokens_split_at_the_first_equals() {
    assert_eq!(parsed("clé=été=ok"), ("clé".to_string(), "été=ok".to_string()));
}

#[test]
fn malformed_pair_message_names_the_token() {
    let e = KvPair::parse("oops").unwrap_err();
    assert_eq!(e.message(), "Invalid Key-Value pair: oops");
}

#[test]
fn from_str_agrees_with_parse() {
    let p: KvPair = "a=1".parse().unwrap();
    assert_eq!((p.key.as_str(), p.value.as_str()), ("a", "1"));
    assert!("a".parse::<KvPair>().is_err());
    assert!("=1".parse::<KvPair>().is_err());
    let p: KvPair = "k=a=b".parse().unwrap();
    assert_eq!((p.key.as_str(), p.value.as_str()), ("k", "a=b"));
}
