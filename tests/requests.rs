use httpie_lite::dispatch::{exit_code, Failure};
use httpie_lite::kv::KvPair;
use httpie_lite::request::{build, merge_pairs, Command, Method};

fn pair(k: &str, v: &str) -> KvPair {
    KvPair { key: k.to_string(), value: v.to_string() }
}

fn as_json_object(body: &[KvPair]) -> serde_json::Value {
    let mut map = serde_json::Map::new();
    for p in body {
        map.insert(p.key.clone(), serde_json::Value::String(p.value.clone()));
    }
    serde_json::Value::Object(map)
}

#[test]
fn get_has_no_body() {
    let r = build(Command::Get { url: "http://example.test/".to_string() });
    assert_eq!(r.method, Method::Get);
    assert_eq!(r.url, "http://example.test/");
    assert!(r.body.is_none());
}

#[test]
fn post_body_is_the_object_of_the_pairs() {
    let tokens = ["a=1", "b=2"];
    let body: Vec<KvPair> = tokens.iter().map(|t| KvPair::parse(t).unwrap()).collect();
    let r = build(Command::Post { url: "http://example.test/x".to_string(), body });
    assert_eq!(r.method, Method::Post);
    assert_eq!(r.url, "http://example.test/x");
    let got = as_json_object(&r.body.unwrap());
    let want: serde_json::Value = serde_json::from_str(r#"{"a": "1", "b": "2"}"#).unwrap();
    assert_eq!(got, want);
}

#[test]
fn later_pair_overwrites_earlier_key() {
    let merged = merge_pairs(&vec![pair("a", "1"), pair("b", "2"), pair("a", "3")]);
    assert_eq!(merged.len(), 2);
    let got = as_json_object(&merged);
    let want: serde_json::Value = serde_json::from_str(r#"{"a": "3", "b": "2"}"#).unwrap();
    assert_eq!(got, want);
}

#[test]
fn empty_pairs_make_an_empty_object() {
    assert!(merge_pairs(&vec![]).is_empty());
}

#[test]
fn exit_codes_follow_the_failure() {
    assert_eq!(exit_code(None), 0);
    assert_eq!(exit_code(Some(Failure::CliParse)), 0);
    assert_eq!(exit_code(Some(Failure::Transport)), 1);
    assert_eq!(exit_code(Some(Failure::Encoding)), 1);
    assert_eq!(exit_code(Some(Failure::InvalidJsonBody)), 2);
}
