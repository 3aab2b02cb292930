use pdm::app::ConfigSection;
use pdm::config::{parse_config, parse_with_schema, ConfigEntry, ConfigSchema, ConfigType};
use pdm::schema::get_default_schema;
use pdm::sections::{group_entries, serialize_sections};

fn find<'a>(entries: &'a [ConfigEntry], key: &str) -> Vec<&'a ConfigEntry> {
    entries.iter().filter(|e| e.key == key).collect()
}

fn schema_row(key: &str, value_type: ConfigType, section: &str, default: &str) -> ConfigSchema {
    ConfigSchema {
        key: key.to_string(),
        value_type,
        section: section.to_string(),
        description: String::new(),
        default: default.to_string(),
    }
}

#[test]
fn schema_table_lists_known_keys() {
    let schema = get_default_schema();
    assert_eq!(schema.len(), 39);
    assert_eq!(schema[0].key, "datadir");
    assert_eq!(schema[0].section, "Core");
    let port = schema.iter().find(|s| s.key == "port").unwrap();
    assert_eq!(port.value_type, ConfigType::Integer);
    assert_eq!(port.section, "Network");
    assert_eq!(port.default, "8333");
    let txindex = schema.iter().find(|s| s.key == "txindex").unwrap();
    assert_eq!(txindex.value_type, ConfigType::Boolean);
    assert_eq!(schema[38].key, "zmqpubrawtx");
    assert_eq!(schema[38].default, "tcp://127.0.0.1:28332");
}

#[test]
fn empty_text_gives_all_defaults_disabled() {
    let entries = parse_config("");
    let schema = get_default_schema();
    assert_eq!(entries.len(), schema.len());
    for (e, s) in entries.iter().zip(schema.iter()) {
        assert_eq!(e.key, s.key);
        assert_eq!(e.value, s.default);
        assert!(!e.enabled);
        assert_eq!(e.schema.as_ref().unwrap().key, s.key);
    }
}

#[test]
fn absent_schema_keys_are_disabled_defaults() {
    let entries = parse_config("server=1\n");
    let dbcache = find(&entries, "dbcache");
    assert_eq!(dbcache.len(), 1);
    assert!(!dbcache[0].enabled);
    assert_eq!(dbcache[0].value, "450");
    let pid = find(&entries, "pid");
    assert_eq!(pid[0].value, "bitcoind.pid");
    assert!(!pid[0].enabled);
}

#[test]
fn present_schema_keys_are_enabled_with_trimmed_value() {
    let entries = parse_config("  rpcuser =  alice  \nprune=550\n");
    let user = find(&entries, "rpcuser");
    assert_eq!(user.len(), 1);
    assert!(user[0].enabled);
    assert_eq!(user[0].value, "alice");
    assert_eq!(user[0].schema.as_ref().unwrap().section, "RPC");
    let prune = find(&entries, "prune");
    assert!(prune[0].enabled);
    assert_eq!(prune[0].value, "550");
    assert_eq!(entries[0].key, "rpcuser");
    assert_eq!(entries[1].key, "prune");
}

#[test]
fn example_file_gives_two_enabled_entries_and_defaults() {
    let entries = parse_config("port=9332\nwallet=abc\n# comment\n\n");
    let schema = get_default_schema();
    assert_eq!(entries.len(), 2 + schema.len() - 1);
    assert_eq!(entries[0].key, "port");
    assert_eq!(entries[0].value, "9332");
    assert!(entries[0].enabled);
    assert_eq!(entries[1].key, "wallet");
    assert_eq!(entries[1].value, "abc");
    assert!(entries[1].enabled);
    assert!(entries[1].schema.is_none());
    let enabled: Vec<&ConfigEntry> = entries.iter().filter(|e| e.enabled).collect();
    assert_eq!(enabled.len(), 2);
    assert!(entries[2..].iter().all(|e| !e.enabled && e.key != "port"));
}

#[test]
fn flag_without_equals_reads_as_one() {
    let entries = parse_config("txindex\n");
    let t = find(&entries, "txindex");
    assert_eq!(t.len(), 1);
    assert!(t[0].enabled);
    assert_eq!(t[0].value, "1");
}

#[test]
fn comments_blank_and_empty_key_lines_are_skipped() {
    let entries = parse_config("# port=1\n   \n=5\n  #x=2\n");
    assert!(entries.iter().all(|e| !e.enabled));
    assert_eq!(entries.len(), 39);
}

#[test]
fn value_splits_at_first_equals() {
    let entries = parse_config("rpcauth=user:salt=hash\r\n");
    let a = find(&entries, "rpcauth");
    assert_eq!(a[0].value, "user:salt=hash");
}

#[test]
fn unknown_key_has_no_schema() {
    let entries = parse_config("mystery = 42");
    let m = find(&entries, "mystery");
    assert_eq!(m.len(), 1);
    assert!(m[0].enabled);
    assert!(m[0].schema.is_none());
    assert_eq!(m[0].value, "42");
}

#[test]
fn custom_schema_lookup_and_missing_rows() {
    let schema = vec![
        schema_row("a", ConfigType::String, "S1", "da"),
        schema_row("b", ConfigType::Boolean, "S2", "0"),
    ];
    let entries = parse_with_schema("b = 1\nc=3", &schema);
    assert_eq!(entries.len(), 3);
    assert_eq!(entries[0].key, "b");
    assert_eq!(entries[0].schema.as_ref().unwrap().section, "S2");
    assert_eq!(entries[1].key, "c");
    assert!(entries[1].schema.is_none());
    assert_eq!(entries[2].key, "a");
    assert_eq!(entries[2].value, "da");
    assert!(!entries[2].enabled);
}

#[test]
fn grouping_sorts_sections_and_uses_custom_bucket() {
    let sections = group_entries(parse_config("rpcport=1\nzzz=2\ndatadir=/d\n"));
    let names: Vec<&str> = sections.iter().map(|s| s.name.as_str()).collect();
    assert_eq!(
        names,
        vec!["Core", "Custom", "Debug", "Mining", "Network", "RPC", "Wallet", "ZMQ"]
    );
    let custom = &sections[1];
    assert_eq!(custom.items.len(), 1);
    assert_eq!(custom.items[0].key, "zzz");
    let core = &sections[0];
    assert_eq!(core.items[0].key, "datadir");
    assert_eq!(core.items[0].value, "/d");
    assert!(core.items[0].enabled);
    let rpc = &sections[5];
    assert_eq!(rpc.items[0].key, "rpcport");
}

#[test]
fn serialize_writes_enabled_entries_under_headers() {
    let sections = group_entries(parse_config("rpcport=1\nzzz=2\n"));
    let text = serialize_sections(&sections);
    assert_eq!(text, "# Section: Custom\nzzz=2\n\n# Section: RPC\nrpcport=1\n\n");
}

#[test]
fn serialize_skips_sections_without_enabled_entries() {
    let sections = vec![ConfigSection {
        name: "Only".to_string(),
        items: vec![ConfigEntry {
            key: "k".to_string(),
            value: "v".to_string(),
            schema: None,
            enabled: false,
        }],
    }];
    assert_eq!(serialize_sections(&sections), "");
}

#[test]
fn saved_text_reads_back_to_same_enabled_pairs() {
    let sections = group_entries(parse_config("port=9332\nwallet=abc\nserver\n"));
    let text = serialize_sections(&sections);
    let again = parse_config(&text);
    let mut before: Vec<(String, String)> = sections
        .iter()
        .flat_map(|s| s.items.iter())
        .filter(|e| e.enabled)
        .map(|e| (e.key.clone(), e.value.clone()))
        .collect();
    let mut after: Vec<(String, String)> = again
        .iter()
        .filter(|e| e.enabled)
        .map(|e| (e.key.clone(), e.value.clone()))
        .collect();
    before.sort();
    after.sort();
    assert_eq!(before, after);
    assert_eq!(after.len(), 3);
}
