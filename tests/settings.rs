use solana_cli::config::{
    get_config, get_keypair_file, get_keypair_path, get_rpc_url, get_websocket_url, max_data_len, required_field,
    single_document,
};
use solana_cli::error::Error;

const CONFIG: &str = "---\njson_rpc_url: \"https://api.devnet.solana.com\"\nwebsocket_url: \"\"\nkeypair_path: /home/user/.config/solana/id.json\ncommitment: confirmed\n";

#[test]
fn reads_rpc_url_and_keypair_path() {
    let config = get_config(CONFIG).unwrap();
    assert_eq!(get_rpc_url(&config).unwrap(), "https://api.devnet.solana.com");
    assert_eq!(get_keypair_path(&config).unwrap(), "/home/user/.config/solana/id.json");
    assert_eq!(get_websocket_url(&config).unwrap(), "");
}

#[test]
fn missing_field_is_named() {
    let config = get_config("commitment: confirmed\n").unwrap();
    match get_rpc_url(&config) {
        Err(Error::InvalidConfig(msg)) => assert_eq!(msg, "missing `json_rpc_url` field"),
        other => panic!("unexpected {:?}", other),
    }
    match get_keypair_path(&config) {
        Err(Error::InvalidConfig(msg)) => assert_eq!(msg, "missing `keypair_path` field"),
        other => panic!("unexpected {:?}", other),
    }
}

#[test]
fn non_string_field_is_missing() {
    let config = get_config("json_rpc_url: 12\n").unwrap();
    assert!(matches!(get_rpc_url(&config), Err(Error::InvalidConfig(_))));
}

#[test]
fn two_documents_are_refused() {
    match get_config("a: 1\n---\nb: 2\n") {
        Err(Error::InvalidConfig(msg)) => assert_eq!(msg, "expected one yaml document got (2)"),
        other => panic!("unexpected {:?}", other),
    }
    match single_document(Vec::new()) {
        Err(Error::InvalidConfig(msg)) => assert_eq!(msg, "expected one yaml document got (0)"),
        other => panic!("unexpected {:?}", other),
    }
}

#[test]
fn bad_yaml_is_a_parse_error() {
    assert!(matches!(get_config("a: [1, 2\n"), Err(Error::ConfigParseError(_))));
}

#[test]
fn required_field_passes_value() {
    assert_eq!(required_field(Some("x".to_string()), "k").unwrap(), "x");
    match required_field(None, "k") {
        Err(Error::InvalidConfig(msg)) => assert_eq!(msg, "missing `k` field"),
        other => panic!("unexpected {:?}", other),
    }
}

#[test]
fn keypair_file_beside_program() {
    assert_eq!(
        get_keypair_file("target/deploy/bridge.so").as_deref(),
        Some("target/deploy/bridge-keypair.json")
    );
    assert_eq!(get_keypair_file("prog").as_deref(), Some("prog-keypair.json"));
    assert_eq!(get_keypair_file("/"), None);
}

#[test]
fn data_len_from_size_or_program() {
    assert_eq!(max_data_len(Some(300), 12).unwrap(), 300_000);
    assert_eq!(max_data_len(None, 12).unwrap(), 12);
    assert!(matches!(max_data_len(Some(usize::MAX), 1), Err(Error::ProgramSizeOverflow)));
}
