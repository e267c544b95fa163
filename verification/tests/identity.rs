use saorsa_quic_test::communitas::{demo_display_name, generate_four_words, hyphenated, identity_seed, DemoIdentity};
use saorsa_quic_test::lib_verification::issue_reporter::EnvironmentInfo;
use saorsa_quic_test::lib_verification::{verify_all_libraries, VerificationConfig};

#[test]
fn identity_seed_is_deterministic_and_unique() {
    let a = identity_seed(&[1u8; 32]);
    let b = identity_seed(&[1u8; 32]);
    let c = identity_seed(&[2u8; 32]);
    assert_eq!(a, b);
    assert_ne!(a, c);
    assert!(a.1 >= 1000 && a.1 < 56000);
}

#[test]
fn identity_seed_comes_from_the_sha256_digest() {
    // SHA-256 of 32 zero bytes starts 66 68 7a ad f8 62.
    let (ip, port) = identity_seed(&[0u8; 32]);
    assert_eq!(ip, [0x66, 0x68, 0x7a, 0xad]);
    assert_eq!(port, (0xf862u32 % 55000 + 1000) as u16);
}

#[test]
fn demo_names_and_words() {
    assert_eq!(hyphenated("ocean.tiger.blue.seven"), "ocean-tiger-blue-seven");
    assert_eq!(demo_display_name("ocean-tiger-blue-seven"), "Demo Ocean Tiger Blue Seven");
    let id = DemoIdentity::from_words("ocean-tiger-blue-seven".to_string(), std::path::PathBuf::from("/tmp/communitas/ocean-tiger-blue-seven"));
    assert_eq!(id.display_name, "Demo Ocean Tiger Blue Seven");
    assert!(id.display_name.starts_with("Demo "));
    assert!(id.storage_dir.ends_with(&id.four_words));
    assert_eq!(id.four_words.matches('-').count(), 3);
}

#[test]
fn all_libraries_by_selection() {
    let env = EnvironmentInfo::default();
    let all = verify_all_libraries(&VerificationConfig::default(), &env);
    assert_eq!(all.len(), 2);
    assert_eq!(all[0].library, "saorsa-gossip");
    assert_eq!(all[1].library, "ant-quic");

    let mut only_quic = VerificationConfig::default();
    only_quic.test_saorsa_gossip = false;
    let r = verify_all_libraries(&only_quic, &env);
    assert_eq!(r.len(), 1);
    assert_eq!(r[0].library, "ant-quic");
    assert_eq!(r[0].tests_run, 12);

    let mut none = VerificationConfig::default();
    none.test_saorsa_gossip = false;
    none.test_ant_quic = false;
    assert!(verify_all_libraries(&none, &env).is_empty());
}

#[test]
fn demo_identity_is_deterministic_and_unique() {
    let a = generate_four_words(&[1u8; 32]).unwrap();
    let b = generate_four_words(&[1u8; 32]).unwrap();
    let c = generate_four_words(&[2u8; 32]).unwrap();

    assert_eq!(a, b);
    assert_ne!(a, c);
    assert!(a.matches('-').count() == 3);

    let id = DemoIdentity::from_words(a.clone(), std::path::PathBuf::from("base").join("communitas").join(&a));
    assert!(id.display_name.starts_with("Demo "), "display name should include Demo prefix");
    assert!(id.storage_dir.ends_with(&id.four_words));
}

#[test]
fn four_words_decode_back_to_the_identity_seed() {
    let peer = [7u8; 32];
    let words = generate_four_words(&peer).unwrap();
    let parts: Vec<String> = words.split('-').map(|w| w.to_string()).collect();
    assert_eq!(parts.len(), 4);
    let encoding = four_word_networking::FourWordEncoding::new(
        parts[0].clone(),
        parts[1].clone(),
        parts[2].clone(),
        parts[3].clone(),
    );
    let (addr, port) = four_word_networking::FourWordEncoder::new().decode_ipv4(&encoding).unwrap();
    let (ip, seed_port) = identity_seed(&peer);
    assert_eq!(addr.octets(), ip);
    assert_eq!(port, seed_port);
}
