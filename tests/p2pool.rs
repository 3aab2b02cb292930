use pdm::components::p2pool_parser::{classify_key, group_fields, parse_p2pool_config, ConfigField};

fn field(key: &str, value: &str) -> ConfigField {
    ConfigField {
        key: key.to_string(),
        value: value.to_string(),
    }
}

#[test]
fn bucket_rules_apply_in_order() {
    assert_eq!(classify_key("rpcuser"), "Authentication");
    assert_eq!(classify_key("bitcoind.rpcport"), "Bitcoin Node");
    assert_eq!(classify_key("bitcoindpass"), "Authentication");
    assert_eq!(classify_key("listen_port"), "Network");
    assert_eq!(classify_key("payout_address"), "Network");
    assert_eq!(classify_key("wallet"), "Payouts");
    assert_eq!(classify_key("payout"), "Payouts");
    assert_eq!(classify_key("foo"), "General Settings");
    assert_eq!(classify_key("rpc.bitcoind"), "General Settings");
}

#[test]
fn grouping_of_example_key_set() {
    let sections = group_fields(vec![
        field("rpcuser", "u"),
        field("bitcoind.rpcport", "8332"),
        field("listen_port", "9333"),
        field("wallet_address", "addr"),
        field("foo", "bar"),
    ]);
    let titles: Vec<&str> = sections.iter().map(|s| s.title.as_str()).collect();
    // "wallet_address" holds "address", whose rule comes before the one for "wallet".
    assert_eq!(
        titles,
        vec!["Authentication", "Bitcoin Node", "General Settings", "Network"]
    );
    assert_eq!(sections[0].fields, vec![field("rpcuser", "u")]);
    assert_eq!(sections[1].fields, vec![field("bitcoind.rpcport", "8332")]);
    assert_eq!(sections[2].fields, vec![field("foo", "bar")]);
    assert_eq!(
        sections[3].fields,
        vec![field("listen_port", "9333"), field("wallet_address", "addr")]
    );
}

#[test]
fn example_file_groups_port_and_wallet() {
    let sections = parse_p2pool_config("port=9332\nwallet=abc\n# comment\n\n");
    assert_eq!(sections.len(), 2);
    assert_eq!(sections[0].title, "Network");
    assert_eq!(sections[0].fields, vec![field("port", "9332")]);
    assert_eq!(sections[1].title, "Payouts");
    assert_eq!(sections[1].fields, vec![field("wallet", "abc")]);
}

#[test]
fn p2pool_lines_without_equals_are_skipped() {
    let sections = parse_p2pool_config("  flag  \nkey = value \n");
    assert_eq!(sections.len(), 1);
    assert_eq!(sections[0].title, "General Settings");
    assert_eq!(sections[0].fields, vec![field("key", "value")]);
}

#[test]
fn p2pool_empty_text_has_no_sections() {
    assert!(parse_p2pool_config("").is_empty());
}
