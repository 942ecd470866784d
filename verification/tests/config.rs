use shloss::config::{AppendDecision, ClientConfig, ServiceKey, ShlossConfig};
use shloss::error::ClientConfigError;

fn key(name: &str, hash: &str, vault_id: u128) -> ServiceKey {
    ServiceKey { name: name.to_string(), hash: hash.to_string(), vault_id }
}

#[test]
fn default_server_config() {
    let c = ShlossConfig::default();
    assert_eq!(c.database_url, "postgresql:///shloss");
    assert_eq!(c.host, "127.0.0.1");
    assert_eq!(c.port, 3000);
}

#[test]
fn empty_key_list_is_refused() {
    let c = ClientConfig { keys: vec![] };
    assert_eq!(c.validate(), Err(ClientConfigError::EmptyServiceKeys));
}

#[test]
fn distinct_keys_are_accepted() {
    let c = ClientConfig { keys: vec![key("a", "h1", 1), key("b", "h2", 2), key("c", "h3", 3)] };
    assert_eq!(c.validate(), Ok(()));
}

#[test]
fn key_collision_names_later_then_earlier_service() {
    let c = ClientConfig {
        keys: vec![key("a", "h1", 1), key("b", "h2", 2), key("c", "h1", 3), key("d", "h2", 4)],
    };
    assert_eq!(
        c.validate(),
        Err(ClientConfigError::KeyCollision("c".to_string(), "a".to_string()))
    );
}

#[test]
fn append_decision_cases() {
    let c = ClientConfig { keys: vec![key("a", "h1", 1), key("b", "h2", 2), key("b", "h3", 3)] };
    assert_eq!(c.append_decision("z", "h2"), AppendDecision::Collision);
    assert_eq!(c.append_decision("b", "h9"), AppendDecision::NameTaken(1));
    assert_eq!(c.append_decision("z", "h9"), AppendDecision::Append);
}

#[test]
fn rotate_key_keeps_vault() {
    let mut c = ClientConfig { keys: vec![key("a", "h1", 11), key("b", "h2", 22)] };
    assert!(c.rotate_key("b", "new".to_string()));
    assert_eq!(c.keys[1].hash, "new");
    assert_eq!(c.keys[1].vault_id, 22);
    assert_eq!(c.keys[1].name, "b");
    assert_eq!(c.keys[0].hash, "h1");
    assert!(!c.rotate_key("zzz", "x".to_string()));
    assert_eq!(c.keys.len(), 2);
}

#[test]
fn first_key_config() {
    let c = ClientConfig::with_first_key("svc", "hh", 5);
    assert_eq!(c.keys.len(), 1);
    assert_eq!(c.keys[0].name, "svc");
    assert_eq!(c.keys[0].hash, "hh");
    assert_eq!(c.keys[0].vault_id, 5);
    assert_eq!(c.find_key("svc"), Some(0));
    assert_eq!(c.find_key("other"), None);
}

#[test]
fn appended_key_comes_last() {
    let mut c = ClientConfig { keys: vec![key("a", "h1", 1), key("b", "h2", 2)] };
    c.append_key("c".into(), "h3".into(), 3);
    let names: Vec<&str> = c.keys.iter().map(|k| k.name.as_str()).collect();
    assert_eq!(names, ["a", "b", "c"]);
    assert_eq!(c.keys[2].hash, "h3");
    assert_eq!(c.keys[2].vault_id, 3);
    assert_eq!(c.keys[0].hash, "h1");
}
