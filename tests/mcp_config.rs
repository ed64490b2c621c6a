use waystation::json::JsonValue;
use waystation::mcp_config::{
    add_waystation_server, ensure_mcp_servers, remove_waystation_server, waystation_entry,
};

fn s(v: &str) -> String {
    v.to_string()
}

fn obj(members: Vec<(&str, JsonValue)>) -> JsonValue {
    JsonValue::Object(members.into_iter().map(|(k, v)| (k.to_string(), v)).collect())
}

fn members(j: &JsonValue) -> &Vec<(String, JsonValue)> {
    match j {
        JsonValue::Object(ms) => ms,
        other => panic!("not an object: {:?}", other),
    }
}

fn keys(j: &JsonValue) -> Vec<String> {
    members(j).iter().map(|(k, _)| k.clone()).collect()
}

fn get<'a>(j: &'a JsonValue, key: &str) -> Option<&'a JsonValue> {
    members(j).iter().find(|(k, _)| k == key).map(|(_, v)| v)
}

#[test]
fn non_object_config_is_replaced() {
    let mut cfg = JsonValue::Array(vec![JsonValue::Null]);
    assert!(ensure_mcp_servers(&mut cfg).is_ok());
    assert_eq!(keys(&cfg), vec![s("mcpServers")]);
    assert!(keys(get(&cfg, "mcpServers").unwrap()).is_empty());
}

#[test]
fn missing_servers_object_is_added() {
    let mut cfg = obj(vec![("theme", JsonValue::Str(s("dark")))]);
    ensure_mcp_servers(&mut cfg).unwrap();
    assert_eq!(keys(&cfg), vec![s("theme"), s("mcpServers")]);
}

#[test]
fn non_object_servers_is_reset() {
    let mut cfg = obj(vec![("mcpServers", JsonValue::Unsigned(3)), ("x", JsonValue::Null)]);
    ensure_mcp_servers(&mut cfg).unwrap();
    assert_eq!(keys(&cfg), vec![s("mcpServers"), s("x")]);
    assert!(keys(get(&cfg, "mcpServers").unwrap()).is_empty());
}

#[test]
fn existing_servers_are_kept() {
    let mut cfg = obj(vec![("mcpServers", obj(vec![("other", JsonValue::Bool(true))]))]);
    ensure_mcp_servers(&mut cfg).unwrap();
    assert_eq!(keys(get(&cfg, "mcpServers").unwrap()), vec![s("other")]);
}

#[test]
fn install_adds_entry() {
    let mut cfg = obj(vec![("mcpServers", obj(vec![("other", JsonValue::Null)]))]);
    assert!(add_waystation_server(&mut cfg));
    let servers = get(&cfg, "mcpServers").unwrap();
    assert_eq!(keys(servers), vec![s("other"), s("WayStation")]);
    let entry = get(servers, "WayStation").unwrap();
    assert!(matches!(get(entry, "command"), Some(JsonValue::Str(c)) if c == "npx"));
    match get(entry, "args") {
        Some(JsonValue::Array(a)) => {
            assert_eq!(a.len(), 2);
            assert!(matches!(&a[0], JsonValue::Str(x) if x == "-y"));
            assert!(matches!(&a[1], JsonValue::Str(x) if x == "@waystation/mcp"));
        }
        other => panic!("unexpected {:?}", other),
    }
}

#[test]
fn install_twice_keeps_one_entry() {
    let mut cfg = obj(vec![("mcpServers", obj(vec![]))]);
    assert!(add_waystation_server(&mut cfg));
    assert!(add_waystation_server(&mut cfg));
    assert_eq!(keys(get(&cfg, "mcpServers").unwrap()), vec![s("WayStation")]);
}

#[test]
fn install_without_servers_object_fails() {
    let mut cfg = obj(vec![("mcpServers", JsonValue::Str(s("nope")))]);
    assert!(!add_waystation_server(&mut cfg));
    assert!(matches!(get(&cfg, "mcpServers"), Some(JsonValue::Str(x)) if x == "nope"));
    let mut not_object = JsonValue::Null;
    assert!(!add_waystation_server(&mut not_object));
}

#[test]
fn uninstall_removes_entry() {
    let mut cfg = obj(vec![("mcpServers", obj(vec![("WayStation", waystation_entry()), ("b", JsonValue::Null)]))]);
    assert_eq!(remove_waystation_server(&mut cfg), Some(true));
    assert_eq!(keys(get(&cfg, "mcpServers").unwrap()), vec![s("b")]);
    assert_eq!(remove_waystation_server(&mut cfg), Some(false));
}

#[test]
fn uninstall_without_servers_object_fails() {
    let mut cfg = obj(vec![]);
    assert_eq!(remove_waystation_server(&mut cfg), None);
    assert!(keys(&cfg).is_empty());
}
