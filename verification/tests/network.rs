use anchor::text::{decimal_string, eq_ignore_ascii_case, fold_one, text_eq};
use anchor::{AnchorError, ErrorKind, Network};
use std::str::FromStr;

#[test]
fn every_network_name_parses_in_any_case() {
    for network in Network::all() {
        let name = network.name();
        assert_eq!(Network::parse(name), Ok(network));
        assert_eq!(Network::parse(&name.to_uppercase()), Ok(network));
        let mut mixed = String::new();
        for (i, c) in name.chars().enumerate() {
            if i % 2 == 0 {
                mixed.push(c.to_ascii_uppercase());
            } else {
                mixed.push(c);
            }
        }
        assert_eq!(Network::parse(&mixed), Ok(network));
    }
}

#[test]
fn network_parse_examples() {
    assert_eq!(Network::parse("mainnet"), Ok(Network::Mainnet));
    assert_eq!(Network::parse("Sepolia"), Ok(Network::Sepolia));
    assert_eq!(Network::parse("BASE"), Ok(Network::Base));
    assert_eq!(Network::parse("ArBiTrUm"), Ok(Network::Arbitrum));
    assert_eq!(Network::parse("optimism"), Ok(Network::Optimism));
    assert_eq!(Network::parse("BeraChain"), Ok(Network::Berachain));
    assert_eq!(Network::from_str("sepolia"), Ok(Network::Sepolia));
}

#[test]
fn any_other_string_is_a_schema_error() {
    for bad in ["", "main", "mainnet ", " mainnet", "mainnets", "polygon", "ma\u{456}nnet", "base\n"] {
        let r = Network::parse(bad);
        assert_eq!(r, Err(AnchorError::UnknownNetwork));
        assert_eq!(r.unwrap_err().kind(), ErrorKind::Schema);
    }
    assert_eq!(Network::from_str("goerli"), Err(AnchorError::UnknownNetwork));
}

#[test]
fn only_ascii_capitals_are_folded() {
    // U+212A, the Kelvin sign, is no ASCII capital.
    assert_eq!(fold_one('\u{212A}'), '\u{212A}');
    assert_eq!(fold_one('A'), 'a');
    assert_eq!(fold_one('Z'), 'z');
    assert_eq!(fold_one('@'), '@');
    assert_eq!(fold_one('['), '[');
    assert_eq!(fold_one('a'), 'a');
    assert_eq!(fold_one('7'), '7');
    assert!(eq_ignore_ascii_case("HeLLo", "hEllO"));
    assert!(!eq_ignore_ascii_case("hello", "hell"));
    assert!(!eq_ignore_ascii_case("hello", "hellp"));
    assert!(eq_ignore_ascii_case("", ""));
    assert!(text_eq("abc", "abc"));
    assert!(!text_eq("abc", "Abc"));
}

#[test]
fn chain_ids() {
    assert_eq!(Network::Mainnet.chain_id(), 1);
    assert_eq!(Network::Sepolia.chain_id(), 11155111);
    assert_eq!(Network::Base.chain_id(), 8453);
    assert_eq!(Network::Arbitrum.chain_id(), 42161);
    assert_eq!(Network::Optimism.chain_id(), 10);
    assert_eq!(Network::Berachain.chain_id(), 80094);
}

#[test]
fn networks_differ_in_name_chain_and_upstream() {
    let all = Network::all();
    assert_eq!(all.len(), 6);
    for (i, a) in all.iter().enumerate() {
        for b in all.iter().skip(i + 1) {
            assert_ne!(a.name(), b.name());
            assert_ne!(a.chain_id(), b.chain_id());
            assert_ne!(a.upstream_template(), b.upstream_template());
        }
    }
}

#[test]
fn upstream_url_appends_the_key() {
    assert_eq!(
        Network::Sepolia.upstream_url("k3y"),
        "https://eth-sepolia.g.alchemy.com/v2/k3y"
    );
    assert_eq!(
        Network::Mainnet.upstream_url(""),
        Network::Mainnet.upstream_template()
    );
}

#[test]
fn decimal_numerals() {
    assert_eq!(decimal_string(0), "0");
    assert_eq!(decimal_string(7), "7");
    assert_eq!(decimal_string(10), "10");
    assert_eq!(decimal_string(8545), "8545");
    assert_eq!(decimal_string(65535), "65535");
    assert_eq!(decimal_string(u64::MAX), "18446744073709551615");
}

#[test]
fn error_kinds() {
    assert_eq!(AnchorError::NotFound.kind(), ErrorKind::NotFound);
    assert_eq!(AnchorError::UnknownNetwork.kind(), ErrorKind::Schema);
    assert_eq!(AnchorError::NetworkMismatch.kind(), ErrorKind::Schema);
    assert_eq!(AnchorError::MalformedRegistry.kind(), ErrorKind::Schema);
    assert_eq!(AnchorError::DuplicateId.kind(), ErrorKind::Schema);
    assert_eq!(AnchorError::PortUnavailable.kind(), ErrorKind::Resource);
    assert_eq!(AnchorError::SpawnFailed.kind(), ErrorKind::Resource);
    assert_eq!(AnchorError::ReadinessTimeout.kind(), ErrorKind::Resource);
    assert_eq!(AnchorError::UpstreamUnreachable.kind(), ErrorKind::Rpc);
    assert_eq!(AnchorError::RpcFailure.kind(), ErrorKind::Rpc);
    assert_eq!(AnchorError::Corruption.kind(), ErrorKind::Corruption);
    assert_eq!(AnchorError::Io.kind(), ErrorKind::Io);
}
