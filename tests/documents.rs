use promdoc::config::{ClientConfig, DEFAULT_PROMETHEUS_URL};
use promdoc::text::same_text;

#[test]
fn default_config_holds_one_url() {
    let c = ClientConfig::new();
    assert_eq!(c.prometheus_urls, vec![DEFAULT_PROMETHEUS_URL.to_string()]);
    assert_eq!(DEFAULT_PROMETHEUS_URL, "http://localhost:9090");
}

#[test]
fn default_config_json() {
    let j = ClientConfig::new().to_json().unwrap();
    assert_eq!(j, r#"{"prometheus_urls":["http://localhost:9090"]}"#);
}

#[test]
fn empty_url_list_json() {
    let c = ClientConfig { prometheus_urls: vec![] };
    assert_eq!(c.to_json().unwrap(), r#"{"prometheus_urls":[]}"#);
}

#[test]
fn several_urls_json() {
    let c = ClientConfig {
        prometheus_urls: vec!["http://a:1".to_string(), "http://b:2".to_string(), String::new()],
    };
    assert_eq!(c.to_json().unwrap(), r#"{"prometheus_urls":["http://a:1","http://b:2",""]}"#);
}

#[test]
fn urls_are_escaped() {
    let c = ClientConfig { prometheus_urls: vec!["a\"b\\c\nd\u{1}".to_string()] };
    assert_eq!(c.to_json().unwrap(), r#"{"prometheus_urls":["a\"b\\c\nd\u0001"]}"#);
}

#[test]
fn json_round_trips_through_a_parser() {
    let urls = vec!["http://x/\"q\"".to_string(), "ü".to_string()];
    let c = ClientConfig { prometheus_urls: urls.clone() };
    let v: serde_json::Value = serde_json::from_str(&c.to_json().unwrap()).unwrap();
    let parsed: Vec<String> = v["prometheus_urls"]
        .as_array()
        .unwrap()
        .iter()
        .map(|u| u.as_str().unwrap().to_string())
        .collect();
    assert_eq!(parsed, urls);
}

#[test]
fn same_text_is_exact() {
    assert!(same_text("", ""));
    assert!(same_text("/config", "/config"));
    assert!(!same_text("/config", "/Config"));
    assert!(!same_text("/config", "/config/"));
    assert!(!same_text("/", ""));
    assert!(same_text("ü✓", "ü✓"));
    assert!(!same_text("u", "ü"));
}
