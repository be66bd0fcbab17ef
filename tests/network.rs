use bonsai_core::network::{coin_type, network_from_lower, parse_network, NetworkKind};

#[test]
fn parses_each_alias() {
    assert_eq!(parse_network("bitcoin"), Some(NetworkKind::Main));
    assert_eq!(parse_network("testnet"), Some(NetworkKind::Test));
    assert_eq!(parse_network("testnet3"), Some(NetworkKind::Test));
    assert_eq!(parse_network("signet"), Some(NetworkKind::Signet));
    assert_eq!(parse_network("regtest"), Some(NetworkKind::Regtest));
}

#[test]
fn parses_without_case() {
    assert_eq!(parse_network("SIGNET"), Some(NetworkKind::Signet));
    assert_eq!(parse_network("BitCoin"), Some(NetworkKind::Main));
    assert_eq!(parse_network("TestNet3"), Some(NetworkKind::Test));
}

#[test]
fn rejects_unknown_names() {
    assert_eq!(parse_network("not-a-network"), None);
    assert_eq!(parse_network(""), None);
    assert_eq!(parse_network("main"), None);
    assert_eq!(parse_network(" signet"), None);
    assert_eq!(parse_network("testnet4"), None);
}

#[test]
fn lower_names_are_matched_exactly() {
    assert_eq!(network_from_lower("regtest"), Some(NetworkKind::Regtest));
    assert_eq!(network_from_lower("REGTEST"), None);
}

#[test]
fn coin_type_is_zero_only_on_main() {
    assert_eq!(coin_type(NetworkKind::Main), 0);
    assert_eq!(coin_type(NetworkKind::Test), 1);
    assert_eq!(coin_type(NetworkKind::Signet), 1);
    assert_eq!(coin_type(NetworkKind::Regtest), 1);
}
