use payjoin_cli::{
    deserialize_ohttp_keys_from_path, BitcoindConfig, CliArgs, Config, ConfigError, FileSource,
    OhttpKeys, PendingConfig, ReceiveArgs, Resolution, Subcommand, V2Config, Variant,
    VariantConfig,
};

fn text(file: &str) -> FileSource {
    FileSource::Text(file.to_string())
}

const GENERATOR_X: [u8; 32] = [
    0x79, 0xBE, 0x66, 0x7E, 0xF9, 0xDC, 0xBB, 0xAC, 0x55, 0xA0, 0x62, 0x95, 0xCE, 0x87, 0x0B, 0x07,
    0x02, 0x9B, 0xFC, 0xDB, 0x2D, 0xCE, 0x28, 0xD9, 0x59, 0xF2, 0x81, 0x5B, 0x16, 0xF8, 0x17, 0x98,
];

const GENERATOR_Y: [u8; 32] = [
    0x48, 0x3A, 0xDA, 0x77, 0x26, 0xA3, 0xC4, 0x65, 0x5D, 0xA4, 0xFB, 0xFC, 0x0E, 0x11, 0x08, 0xA8,
    0xFD, 0x17, 0xB4, 0x48, 0xA6, 0x85, 0x54, 0x19, 0x9C, 0x47, 0xD0, 0x8F, 0xFB, 0x10, 0xD4, 0xB8,
];

/// A key configuration: key id 1, DHKEM(secp256k1, HKDF-SHA256), the curve's
/// generator as public key, and one suite of HKDF-SHA256 with
/// ChaCha20Poly1305.
fn key_bundle() -> Vec<u8> {
    let mut bytes = vec![1u8, 0x00, 0x16, 0x04];
    bytes.extend_from_slice(&GENERATOR_X);
    bytes.extend_from_slice(&GENERATOR_Y);
    bytes.extend_from_slice(&[0x00, 0x04, 0x00, 0x01, 0x00, 0x03]);
    bytes
}

fn pending() -> PendingConfig {
    PendingConfig {
        path: "/etc/payjoin/keys".to_string(),
        db_path: "payjoin.sled".to_string(),
        max_fee_rate: Some(5),
        bitcoind: BitcoindConfig {
            rpchost: "http://localhost:18443/".to_string(),
            cookie: None,
            rpcuser: "bitcoin".to_string(),
            rpcpassword: String::new(),
        },
        ohttp_relay: "https://relay.example/".to_string(),
        pj_directory: "https://payjo.in/".to_string(),
    }
}

fn receive_with_relay(args: ReceiveArgs) -> CliArgs {
    let mut cli = CliArgs::new(Subcommand::Receive(args));
    cli.ohttp_relay = Some("https://relay.example".to_string());
    cli
}

#[test]
fn no_key_bundle_needs_no_read() {
    assert_eq!(deserialize_ohttp_keys_from_path(None), Ok(None));
    match Config::new(Variant::V2, &receive_with_relay(ReceiveArgs::new()), &FileSource::Missing).unwrap() {
        Resolution::Complete(config) => match config.variant {
            VariantConfig::V2(v2) => assert_eq!(v2.ohttp_keys, None),
            VariantConfig::V1(_) => panic!("the first variant's settings"),
        },
        Resolution::KeyBundle(pending) => panic!("{:?}", pending),
    }
}

#[test]
fn key_bundle_flag_asks_for_its_file() {
    let mut args = ReceiveArgs::new();
    args.ohttp_keys = Some("/etc/payjoin/keys".to_string());
    args.max_fee_rate = Some("5".to_string());
    assert_eq!(
        Config::new(Variant::V2, &receive_with_relay(args), &FileSource::Missing),
        Ok(Resolution::KeyBundle(pending()))
    );
}

#[test]
fn key_bundle_of_the_file_asks_for_its_file() {
    let file = "[v2]\nohttp_keys = \"keys.bin\"\n";
    match Config::new(Variant::V2, &receive_with_relay(ReceiveArgs::new()), &text(file)).unwrap() {
        Resolution::KeyBundle(pending) => assert_eq!(pending.path, "keys.bin"),
        Resolution::Complete(config) => panic!("{:?}", config),
    }
}

#[test]
fn unreadable_key_bundle_fails_with_the_reason() {
    let reason = "No such file or directory (os error 2)".to_string();
    assert_eq!(pending().finish(Err(reason.clone())), Err(ConfigError::KeyBundleRead(reason.clone())));
    assert_eq!(
        deserialize_ohttp_keys_from_path(Some(Err(reason.clone()))),
        Err(ConfigError::KeyBundleRead(reason))
    );
}

#[test]
fn bytes_that_are_no_key_bundle_fail_to_decode() {
    for bytes in [vec![], vec![0u8; 10], b"not a key bundle".to_vec()] {
        match pending().finish(Ok(bytes)) {
            Err(ConfigError::KeyBundleDecode(report)) => assert!(!report.is_empty()),
            other => panic!("{:?}", other),
        }
    }
    let mut truncated = key_bundle();
    truncated.pop();
    assert!(matches!(
        deserialize_ohttp_keys_from_path(Some(Ok(truncated))),
        Err(ConfigError::KeyBundleDecode(_))
    ));
    let mut trailing = key_bundle();
    trailing.push(0);
    assert!(matches!(
        deserialize_ohttp_keys_from_path(Some(Ok(trailing))),
        Err(ConfigError::KeyBundleDecode(_))
    ));
}

#[test]
fn key_bundle_is_decoded() {
    let config = pending().finish(Ok(key_bundle())).unwrap();
    assert_eq!(
        config,
        Config {
            db_path: "payjoin.sled".to_string(),
            max_fee_rate: Some(5),
            bitcoind: BitcoindConfig {
                rpchost: "http://localhost:18443/".to_string(),
                cookie: None,
                rpcuser: "bitcoin".to_string(),
                rpcpassword: String::new(),
            },
            variant: VariantConfig::V2(V2Config {
                ohttp_keys: Some(OhttpKeys { encoded: key_bundle() }),
                ohttp_relay: "https://relay.example/".to_string(),
                pj_directory: "https://payjo.in/".to_string(),
            }),
        }
    );
}

#[test]
fn keys_are_held_in_the_encoding_of_what_was_decoded() {
    // a second suite, of HKDF-SHA256 with AES-128-GCM, which the decoder
    // reads and cannot use: the key configuration is left without it
    let mut bytes = key_bundle();
    let at = bytes.len() - 6;
    bytes.truncate(at);
    bytes.extend_from_slice(&[0x00, 0x08, 0x00, 0x01, 0x00, 0x03, 0x00, 0x01, 0x00, 0x01]);
    let keys = deserialize_ohttp_keys_from_path(Some(Ok(bytes.clone()))).unwrap().unwrap();
    assert_ne!(keys.encoded, bytes);
    assert_eq!(keys.encoded, key_bundle());
}

#[test]
fn with_keys_completes_the_second_variant() {
    let config = pending().with_keys(None);
    match config.variant {
        VariantConfig::V2(v2) => {
            assert_eq!(v2.ohttp_keys, None);
            assert_eq!(v2.ohttp_relay, "https://relay.example/");
        },
        VariantConfig::V1(_) => panic!("the first variant's settings"),
    }
    assert_eq!(config.max_fee_rate, Some(5));
}
