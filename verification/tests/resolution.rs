use payjoin_cli::{
    BitcoindConfig, CliArgs, Config, ConfigError, FileSource, Key, ReceiveArgs, Resolution,
    Subcommand, V1Config, V2Config, Variant, VariantConfig, INVALID_PORT,
};

fn text(file: &str) -> FileSource {
    FileSource::Text(file.to_string())
}

fn send() -> CliArgs {
    CliArgs::new(Subcommand::Send)
}

fn receive(args: ReceiveArgs) -> CliArgs {
    CliArgs::new(Subcommand::Receive(args))
}

fn complete(resolution: Resolution) -> Config {
    match resolution {
        Resolution::Complete(config) => config,
        Resolution::KeyBundle(pending) => panic!("a key bundle is pending: {:?}", pending),
    }
}

fn v1(config: &Config) -> &V1Config {
    match &config.variant {
        VariantConfig::V1(v1) => v1,
        VariantConfig::V2(_) => panic!("the second variant's settings"),
    }
}

fn v2(config: &Config) -> &V2Config {
    match &config.variant {
        VariantConfig::V2(v2) => v2,
        VariantConfig::V1(_) => panic!("the first variant's settings"),
    }
}

fn with_relay(mut args: CliArgs) -> CliArgs {
    args.ohttp_relay = Some("https://relay.example".to_string());
    args
}

#[test]
fn defaults_of_the_first_variant() {
    let config = complete(Config::new(Variant::V1, &send(), &FileSource::Missing).unwrap());
    assert_eq!(
        config,
        Config {
            db_path: "payjoin.sled".to_string(),
            max_fee_rate: None,
            bitcoind: BitcoindConfig {
                rpchost: "http://localhost:18443/".to_string(),
                cookie: None,
                rpcuser: "bitcoin".to_string(),
                rpcpassword: String::new(),
            },
            variant: VariantConfig::V1(V1Config {
                port: 3000,
                pj_endpoint: "https://localhost:3000/".to_string(),
            }),
        }
    );
}

#[test]
fn defaults_of_the_second_variant_lack_a_relay() {
    assert_eq!(
        Config::new(Variant::V2, &send(), &FileSource::Missing),
        Err(ConfigError::NotFound(Key::V2OhttpRelay))
    );
}

#[test]
fn second_variant_with_a_relay() {
    let config = complete(Config::new(Variant::V2, &with_relay(send()), &FileSource::Missing).unwrap());
    assert_eq!(
        config.variant,
        VariantConfig::V2(V2Config {
            ohttp_keys: None,
            ohttp_relay: "https://relay.example/".to_string(),
            pj_directory: "https://payjo.in/".to_string(),
        })
    );
    assert_eq!(config.db_path, "payjoin.sled");
}

#[test]
fn relay_flag_counts_under_every_subcommand() {
    for subcommand in [Subcommand::Send, Subcommand::Resume, Subcommand::Receive(ReceiveArgs::new())]
    {
        let config =
            complete(Config::new(Variant::V2, &with_relay(CliArgs::new(subcommand)), &FileSource::Missing).unwrap());
        assert_eq!(v2(&config).ohttp_relay, "https://relay.example/");
    }
}

#[test]
fn file_port_wins_over_default_and_flag_wins_over_file() {
    let file = "[v1]\nport = 4000\n";
    let without_flag = receive(ReceiveArgs::new());
    let config = complete(Config::new(Variant::V1, &without_flag, &text(file)).unwrap());
    assert_eq!(v1(&config).port, 4000);

    let mut args = ReceiveArgs::new();
    args.port = Some("5000".to_string());
    let config = complete(Config::new(Variant::V1, &receive(args), &text(file)).unwrap());
    assert_eq!(v1(&config).port, 5000);

    let config = complete(Config::new(Variant::V1, &without_flag, &FileSource::Missing).unwrap());
    assert_eq!(v1(&config).port, 3000);
}

#[test]
fn highest_layer_that_defines_a_key_wins() {
    let file = "db_path = \"from_file.db\"\n[bitcoind]\nrpcuser = \"file_user\"\nrpcpassword = \"file_password\"\n";
    let mut args = send();
    args.rpcuser = Some("flag_user".to_string());
    let config = complete(Config::new(Variant::V1, &args, &text(file)).unwrap());
    // flag over file over default
    assert_eq!(config.bitcoind.rpcuser, "flag_user");
    // file over default
    assert_eq!(config.bitcoind.rpcpassword, "file_password");
    assert_eq!(config.db_path, "from_file.db");
    // default alone
    assert_eq!(config.bitcoind.rpchost, "http://localhost:18443/");
}

#[test]
fn omitted_flag_keeps_the_value_of_the_file() {
    let file = "[bitcoind]\nrpchost = \"http://node.example:8332\"\ncookie = \"/home/user/.cookie\"\n";
    let config = complete(Config::new(Variant::V1, &send(), &text(file)).unwrap());
    assert_eq!(config.bitcoind.rpchost, "http://node.example:8332/");
    assert_eq!(config.bitcoind.cookie, Some("/home/user/.cookie".to_string()));
}

#[test]
fn cookie_and_password_stand_side_by_side() {
    let mut args = send();
    args.cookie_file = Some("/tmp/cookie".to_string());
    args.rpcuser = Some("alice".to_string());
    args.rpcpassword = Some("secret".to_string());
    let config = complete(Config::new(Variant::V1, &args, &FileSource::Missing).unwrap());
    assert_eq!(config.bitcoind.cookie, Some("/tmp/cookie".to_string()));
    assert_eq!(config.bitcoind.rpcuser, "alice");
    assert_eq!(config.bitcoind.rpcpassword, "secret");
}

#[test]
fn send_and_resume_add_no_overrides() {
    let file = "max_fee_rate = 300\n[v2]\npj_directory = \"https://directory.example\"\n";
    let mut base = with_relay(send());
    base.db_path = Some("flag.db".to_string());
    let sent = Config::new(Variant::V2, &base, &text(file)).unwrap();
    let mut resume = with_relay(CliArgs::new(Subcommand::Resume));
    resume.db_path = Some("flag.db".to_string());
    let resumed = Config::new(Variant::V2, &resume, &text(file)).unwrap();
    assert_eq!(sent, resumed);
    let config = complete(sent);
    assert_eq!(config.max_fee_rate, Some(300));
    assert_eq!(config.db_path, "flag.db");
    assert_eq!(v2(&config).pj_directory, "https://directory.example/");
}

#[test]
fn receive_overrides_of_the_first_variant() {
    let mut args = ReceiveArgs::new();
    args.port = Some("8080".to_string());
    args.pj_endpoint = Some("https://pay.example/pj".to_string());
    args.max_fee_rate = Some("2500".to_string());
    // flags of the other variant are not read
    args.pj_directory = Some("not a url".to_string());
    args.ohttp_keys = Some("/nowhere".to_string());
    let config = complete(Config::new(Variant::V1, &receive(args), &FileSource::Missing).unwrap());
    assert_eq!(
        config.variant,
        VariantConfig::V1(V1Config { port: 8080, pj_endpoint: "https://pay.example/pj".to_string() })
    );
    assert_eq!(config.max_fee_rate, Some(2500));
}

#[test]
fn receive_overrides_of_the_second_variant() {
    let mut args = ReceiveArgs::new();
    args.pj_directory = Some("https://directory.example".to_string());
    // flags of the other variant are not read
    args.port = Some("not a port".to_string());
    args.pj_endpoint = Some("not a url".to_string());
    let config =
        complete(Config::new(Variant::V2, &with_relay(receive(args)), &FileSource::Missing).unwrap());
    assert_eq!(v2(&config).pj_directory, "https://directory.example/");
    assert_eq!(v2(&config).ohttp_keys, None);
}

#[test]
fn port_flag_must_be_a_number() {
    assert_eq!(INVALID_PORT, "\"port\" must be a valid number");
    for text in ["abc", "", "70000", "65536", "-1", "80 ", "8_0", "+"] {
        let mut args = ReceiveArgs::new();
        args.port = Some(text.to_string());
        assert_eq!(
            Config::new(Variant::V1, &receive(args), &FileSource::Missing),
            Err(ConfigError::Message("\"port\" must be a valid number".to_string())),
            "port {:?}",
            text
        );
    }
}

#[test]
fn port_flag_is_read_as_a_decimal_numeral() {
    for (text, port) in [("0", 0u16), ("65535", 65535), ("+80", 80), ("0080", 80)] {
        let mut args = ReceiveArgs::new();
        args.port = Some(text.to_string());
        let config = complete(Config::new(Variant::V1, &receive(args), &FileSource::Missing).unwrap());
        assert_eq!(v1(&config).port, port);
    }
}

#[test]
fn port_of_the_file_is_coerced() {
    let config =
        complete(Config::new(Variant::V1, &send(), &text("[v1]\nport = \"4001\"\n")).unwrap());
    assert_eq!(v1(&config).port, 4001);
    assert_eq!(
        Config::new(Variant::V1, &send(), &text("[v1]\nport = 65536\n")),
        Err(ConfigError::InvalidValue(Key::V1Port))
    );
    assert_eq!(
        Config::new(Variant::V1, &send(), &text("[v1]\nport = \"http\"\n")),
        Err(ConfigError::InvalidValue(Key::V1Port))
    );
}

#[test]
fn fee_rate_that_is_no_rate_fails() {
    for text in ["fast", "1.5", "-3", "", "18446744073709551616"] {
        let mut args = ReceiveArgs::new();
        args.max_fee_rate = Some(text.to_string());
        assert_eq!(
            Config::new(Variant::V1, &receive(args), &FileSource::Missing),
            Err(ConfigError::InvalidValue(Key::MaxFeeRate)),
            "fee rate {:?}",
            text
        );
    }
}

#[test]
fn fee_rate_is_read_in_sat_per_kwu() {
    for (text, rate) in [("2500", 2500u64), ("007", 7), ("18446744073709551615", u64::MAX)] {
        let mut args = ReceiveArgs::new();
        args.max_fee_rate = Some(text.to_string());
        let config = complete(Config::new(Variant::V1, &receive(args), &FileSource::Missing).unwrap());
        assert_eq!(config.max_fee_rate, Some(rate));
    }
}

#[test]
fn fee_rate_flag_belongs_to_receive() {
    // the flag wins over the file under `receive`
    let mut args = ReceiveArgs::new();
    args.max_fee_rate = Some("900".to_string());
    let config =
        complete(Config::new(Variant::V1, &receive(args), &text("max_fee_rate = 100\n")).unwrap());
    assert_eq!(config.max_fee_rate, Some(900));
    let config = complete(Config::new(Variant::V1, &send(), &text("max_fee_rate = 100\n")).unwrap());
    assert_eq!(config.max_fee_rate, Some(100));
}

#[test]
fn url_that_is_no_url_fails() {
    let mut args = send();
    args.rpchost = Some("localhost".to_string());
    assert_eq!(
        Config::new(Variant::V1, &args, &FileSource::Missing),
        Err(ConfigError::InvalidValue(Key::RpcHost))
    );
    assert_eq!(
        Config::new(Variant::V1, &send(), &text("[v1]\npj_endpoint = \"//nowhere\"\n")),
        Err(ConfigError::InvalidValue(Key::V1PjEndpoint))
    );
}

#[test]
fn url_is_kept_in_its_serialization() {
    let mut args = send();
    args.rpchost = Some("HTTP://Node.Example:80/a/../b".to_string());
    let config = complete(Config::new(Variant::V1, &args, &FileSource::Missing).unwrap());
    assert_eq!(config.bitcoind.rpchost, "http://node.example/b");
}

#[test]
fn file_that_is_not_well_formed_fails() {
    match Config::new(Variant::V1, &send(), &text("db_path = ")) {
        Err(ConfigError::FileParse(report)) => assert!(!report.is_empty()),
        other => panic!("{:?}", other),
    }
}

#[test]
fn port_error_comes_before_file_error() {
    let mut args = ReceiveArgs::new();
    args.port = Some("x".to_string());
    assert_eq!(
        Config::new(Variant::V1, &receive(args), &text("db_path = ")),
        Err(ConfigError::Message(INVALID_PORT.to_string()))
    );
    let mut args = ReceiveArgs::new();
    args.port = Some("x".to_string());
    assert_eq!(
        Config::new(Variant::V1, &receive(args), &FileSource::Unreadable("denied".to_string())),
        Err(ConfigError::Message(INVALID_PORT.to_string()))
    );
}

#[test]
fn empty_file_changes_nothing() {
    assert_eq!(
        Config::new(Variant::V1, &send(), &text("")),
        Config::new(Variant::V1, &send(), &FileSource::Missing)
    );
}

#[test]
fn table_in_place_of_a_value_fails_where_it_wins() {
    let file = "[bitcoind.rpcuser]\nname = \"x\"\n";
    assert_eq!(
        Config::new(Variant::V1, &send(), &text(file)),
        Err(ConfigError::InvalidValue(Key::RpcUser))
    );
    let mut args = send();
    args.rpcuser = Some("alice".to_string());
    let config = complete(Config::new(Variant::V1, &args, &text(file)).unwrap());
    assert_eq!(config.bitcoind.rpcuser, "alice");
}

#[test]
fn keys_of_the_other_variant_are_not_read() {
    let file = "[v1]\nport = \"no port\"\npj_endpoint = 5\n";
    let config = complete(Config::new(Variant::V2, &with_relay(send()), &text(file)).unwrap());
    assert_eq!(v2(&config).pj_directory, "https://payjo.in/");
    let file = "[v2]\nohttp_relay = \"no url\"\nohttp_keys = \"/nowhere\"\n";
    let config = complete(Config::new(Variant::V1, &send(), &text(file)).unwrap());
    assert_eq!(v1(&config).port, 3000);
}

#[test]
fn unknown_names_of_the_file_are_not_read() {
    let file = "colour = \"blue\"\n[bitcoind]\nnetwork = \"regtest\"\n";
    assert_eq!(
        Config::new(Variant::V1, &send(), &text(file)),
        Config::new(Variant::V1, &send(), &FileSource::Missing)
    );
}

#[test]
fn numbers_of_the_file_are_taken_as_text() {
    let file = "[bitcoind]\nrpcuser = 42\n";
    let config = complete(Config::new(Variant::V1, &send(), &text(file)).unwrap());
    assert_eq!(config.bitcoind.rpcuser, "42");
}

#[test]
fn invalid_value_comes_before_missing_key() {
    let mut args = send();
    args.rpchost = Some("no url".to_string());
    // the relay is missing, and the node's URL is invalid
    assert_eq!(
        Config::new(Variant::V2, &args, &FileSource::Missing),
        Err(ConfigError::InvalidValue(Key::RpcHost))
    );
}

#[test]
fn file_that_could_not_be_read_fails_with_the_reason() {
    let reason = "Permission denied (os error 13)".to_string();
    assert_eq!(
        Config::new(Variant::V1, &send(), &FileSource::Unreadable(reason.clone())),
        Err(ConfigError::FileRead(reason.clone()))
    );
    // every key may have its flag: the file is still an error
    let mut args = with_relay(send());
    args.db_path = Some("db".to_string());
    assert_eq!(
        Config::new(Variant::V2, &args, &FileSource::Unreadable(reason.clone())),
        Err(ConfigError::FileRead(reason))
    );
}

#[test]
fn value_in_place_of_a_section_fails_where_it_wins() {
    assert_eq!(
        Config::new(Variant::V1, &send(), &text("bitcoind = 5\n")),
        Err(ConfigError::InvalidValue(Key::RpcHost))
    );
    assert_eq!(
        Config::new(Variant::V1, &send(), &text("v1 = [1, 2]\n")),
        Err(ConfigError::InvalidValue(Key::V1Port))
    );
    // the section of the other variant is not read
    let config = complete(Config::new(Variant::V1, &send(), &text("v2 = true\n")).unwrap());
    assert_eq!(v1(&config).port, 3000);
    // flags for every key of the section win over it
    let mut args = ReceiveArgs::new();
    args.port = Some("1".to_string());
    args.pj_endpoint = Some("https://e".to_string());
    let config = complete(Config::new(Variant::V1, &receive(args), &text("v1 = 5\n")).unwrap());
    assert_eq!(v1(&config).port, 1);
}

#[test]
fn names_of_the_file_are_not_read_as_paths() {
    // a quoted name with a dot is a name of its own, not a key of a section
    let file = "\"v1.port\" = 1\n[v1]\nport = 2\n";
    for _ in 0..20 {
        let config = complete(Config::new(Variant::V1, &send(), &text(file)).unwrap());
        assert_eq!(v1(&config).port, 2);
    }
    let config =
        complete(Config::new(Variant::V1, &send(), &text("\"bitcoind.rpcuser\" = \"x\"\n")).unwrap());
    assert_eq!(config.bitcoind.rpcuser, "bitcoin");
    // a quoted name with a subscript is a name of its own too
    for file in ["\"x[-1]\" = 1\n", "\"db_path[-1]\" = 1\n", "\"v1[0]\" = 1\n[\"a[-9]\"]\nb = 1\n"] {
        assert_eq!(
            Config::new(Variant::V1, &send(), &text(file)),
            Config::new(Variant::V1, &send(), &FileSource::Missing)
        );
    }
}
