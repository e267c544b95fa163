use saorsa_quic_test::cli::{parse_args, parse_unsigned, ParsedArgs};
use saorsa_quic_test::communitas::title_case;
use saorsa_quic_test::dht_metrics::StatsBridge;
use saorsa_quic_test::keyed::KeyedList;
use saorsa_quic_test::testctl::format_duration;

fn argv(items: &[&str]) -> Vec<String> {
    items.iter().map(|s| s.to_string()).collect()
}

#[test]
fn default_arguments() {
    match parse_args(&argv(&[])) {
        ParsedArgs::Run(a) => {
            assert!(!a.registry);
            assert_eq!(a.port, 8080);
            assert_eq!(a.quic_port, 9001);
            assert_eq!(a.bind_port, 0);
            assert_eq!(a.registry_url, "https://saorsa-1.saorsalabs.com");
            assert_eq!(a.max_peers, 10);
            assert_eq!(a.min_proof_nodes, 2);
            assert!(a.gossip_first);
        },
        _ => panic!("expected settings"),
    }
}

#[test]
fn arguments_are_read_in_order() {
    let parsed = parse_args(&argv(&[
        "--registry", "--port", "+9090", "--max-peers", "x", "--no-gossip-first", "-q", "--registry-url", "http://r",
        "--min-proof-nodes", "5", "--bind-port", "70000",
    ]));
    match parsed {
        ParsedArgs::Run(a) => {
            assert!(a.registry);
            assert_eq!(a.port, 9090);
            assert_eq!(a.max_peers, 10);
            assert!(!a.gossip_first);
            assert!(a.quiet);
            assert_eq!(a.registry_url, "http://r");
            assert_eq!(a.min_proof_nodes, 5);
            assert_eq!(a.bind_port, 0);
        },
        _ => panic!("expected settings"),
    }
    assert!(matches!(parse_args(&argv(&["--quiet", "-h", "--bogus"])), ParsedArgs::Help));
    match parse_args(&argv(&["--local-only", "--bogus"])) {
        ParsedArgs::Unknown(s) => assert_eq!(s, "--bogus"),
        _ => panic!("expected an unknown argument"),
    }
    assert!(matches!(parse_args(&argv(&["--port"])), ParsedArgs::Run(_)));
}

#[test]
fn unsigned_numbers() {
    assert_eq!(parse_unsigned("65535", 65535), Some(65535));
    assert_eq!(parse_unsigned("65536", 65535), None);
    assert_eq!(parse_unsigned("+7", 10), Some(7));
    assert_eq!(parse_unsigned("+", 10), None);
    assert_eq!(parse_unsigned("", 10), None);
    assert_eq!(parse_unsigned("-1", 10), None);
    assert_eq!(parse_unsigned("1 2", 100), None);
    assert_eq!(parse_unsigned("007", 10), Some(7));
    assert_eq!(parse_unsigned("18446744073709551615", u64::MAX), Some(u64::MAX));
    assert_eq!(parse_unsigned("18446744073709551616", u64::MAX), None);
}

#[test]
fn titles() {
    assert_eq!(title_case("alpha-BETA-gamma"), "Alpha Beta Gamma");
    assert_eq!(title_case("one"), "One");
    assert_eq!(title_case("a--b"), "A  B");
    assert_eq!(title_case(""), "");
}

#[test]
fn durations() {
    assert_eq!(format_duration(59), "59s");
    assert_eq!(format_duration(60), "1m");
    assert_eq!(format_duration(3599), "59m");
    assert_eq!(format_duration(3600), "1h");
    assert_eq!(format_duration(86399), "23h");
    assert_eq!(format_duration(86400), "1d");
    assert_eq!(format_duration(0), "0s");
}

#[test]
fn k_bucket_estimates() {
    let empty = StatsBridge::estimate_k_buckets(100, 0);
    assert_eq!(empty.len(), 256);
    assert!(empty.iter().all(|&b| b == 0));
    let b = StatsBridge::estimate_k_buckets(100, 10);
    assert_eq!(b.len(), 256);
    assert_eq!(b[0], 20);
    assert_eq!(b[9], 19);
    assert_eq!(b[10], 0);
    assert_eq!(b[255], 0);
}

#[test]
fn keyed_list_read_after_write() {
    let mut t: KeyedList<u32> = KeyedList::new();
    t.insert("a".to_string(), 1);
    t.insert("b".to_string(), 2);
    t.insert("a".to_string(), 3);
    assert_eq!(t.len(), 2);
    assert_eq!(t.get("a"), Some(&3));
    assert_eq!(t.get("b"), Some(&2));
    assert_eq!(t.get("c"), None);
    assert_eq!(t.key_at(0), "a");
    t.clear();
    assert_eq!(t.len(), 0);
}
