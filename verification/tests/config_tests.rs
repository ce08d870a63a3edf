use finance::config::{parse_port, Config, Database};

#[test]
fn parse_port_accepts_plain_decimals() {
    assert_eq!(parse_port("5432"), Some(5432));
    assert_eq!(parse_port("0"), Some(0));
    assert_eq!(parse_port("00080"), Some(80));
    assert_eq!(parse_port("65535"), Some(65535));
}

#[test]
fn parse_port_rejects_what_is_no_port() {
    assert_eq!(parse_port(""), None);
    assert_eq!(parse_port("65536"), None);
    assert_eq!(parse_port("999999999999999999999"), None);
    assert_eq!(parse_port("54x2"), None);
    assert_eq!(parse_port("-1"), None);
    assert_eq!(parse_port(" 5432"), None);
}

#[test]
fn config_carries_the_database_settings() {
    let config = Config {
        database: Database {
            url: "localhost".to_string(),
            name: "ledger".to_string(),
            user: "service".to_string(),
            password: "pw".to_string(),
            port: Some("5432".to_string()),
        },
    };
    assert_eq!(config.database.url, "localhost");
    assert_eq!(parse_port(config.database.port.as_deref().unwrap()), Some(5432));
}
