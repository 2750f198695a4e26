//! The stages that fill a builder: the defaults of each section with the
//! flags that override them, and the overrides of the subcommand.

use vstd::prelude::*;
use crate::builder::{put, Builder};
use crate::cli::{flag_value, CliArgs, ReceiveArgs, Subcommand, INVALID_PORT};
use crate::decimal::parse_decimal;
use crate::error::{ConfigError, ConfigErrorView};
use crate::key::{Key, Variant};
use crate::value::{text_val, Val, Value};

verus! {

/// Where the wallet keeps its state unless told otherwise.
pub const DB_PATH: &'static str = "payjoin.sled";

/// The default of `key` under `variant`, if it has one. A default of `Nil`
/// names an optional key and leaves it absent.
pub open spec fn default_value(variant: Variant, key: Key) -> Option<Val> {
    match key {
        Key::DbPath => Some(Val::Text(DB_PATH@)),
        Key::MaxFeeRate => None,
        Key::RpcHost => Some(Val::Text("http://localhost:18443"@)),
        Key::Cookie => Some(Val::Nil),
        Key::RpcUser => Some(Val::Text("bitcoin"@)),
        Key::RpcPassword => Some(Val::Text(""@)),
        Key::V1Port => if variant == Variant::V1 {
            Some(Val::Integer(3000))
        } else {
            None
        },
        Key::V1PjEndpoint => if variant == Variant::V1 {
            Some(Val::Text("https://localhost:3000"@))
        } else {
            None
        },
        Key::V2OhttpKeys => if variant == Variant::V2 {
            Some(Val::Nil)
        } else {
            None
        },
        Key::V2OhttpRelay => None,
        Key::V2PjDirectory => if variant == Variant::V2 {
            Some(Val::Text("https://payjo.in"@))
        } else {
            None
        },
    }
}

/// The layer of defaults of a variant.
pub open spec fn default_layer(variant: Variant) -> Map<Key, Val> {
    Map::new(
        |k: Key| default_value(variant, k) is Some,
        |k: Key| default_value(variant, k).unwrap(),
    )
}

/// Sets the defaults of the connection to the node, and overrides each with
/// its flag where the flag was given.
pub fn add_bitcoind_defaults(builder: Builder, matches: &CliArgs) -> (r: Result<
    Builder,
    ConfigError,
>)
    ensures
        r matches Ok(b) && b.variant == builder.variant && b.sources == builder.sources
            && b.defaults@ == builder.defaults@.insert(
            Key::RpcHost,
            Val::Text("http://localhost:18443"@),
        ).insert(Key::Cookie, Val::Nil).insert(Key::RpcUser, Val::Text("bitcoin"@)).insert(
            Key::RpcPassword,
            Val::Text(""@),
        ) && b.overrides@ == put(
            put(
                put(
                    put(builder.overrides@, Key::RpcHost, text_val(matches.rpchost)),
                    Key::Cookie,
                    text_val(matches.cookie_file),
                ),
                Key::RpcUser,
                text_val(matches.rpcuser),
            ),
            Key::RpcPassword,
            text_val(matches.rpcpassword),
        ),
{
    let builder = builder.set_default(Key::RpcHost, Value::text("http://localhost:18443"));
    let builder = builder.set_override_option(Key::RpcHost, flag_value(&matches.rpchost));
    let builder = builder.set_default(Key::Cookie, Value::Nil);
    let builder = builder.set_override_option(Key::Cookie, flag_value(&matches.cookie_file));
    let builder = builder.set_default(Key::RpcUser, Value::text("bitcoin"));
    let builder = builder.set_override_option(Key::RpcUser, flag_value(&matches.rpcuser));
    let builder = builder.set_default(Key::RpcPassword, Value::text(""));
    let builder = builder.set_override_option(
        Key::RpcPassword,
        flag_value(&matches.rpcpassword),
    );
    Ok(builder)
}

/// Sets the defaults that both variants share, and overrides each with its
/// flag where the flag was given.
pub fn add_common_defaults(builder: Builder, matches: &CliArgs) -> (r: Result<Builder, ConfigError>)
    ensures
        r matches Ok(b) && b.variant == builder.variant && b.sources == builder.sources
            && b.defaults@ == builder.defaults@.insert(Key::DbPath, Val::Text(DB_PATH@))
            && b.overrides@ == put(builder.overrides@, Key::DbPath, text_val(matches.db_path)),
{
    let builder = builder.set_default(Key::DbPath, Value::text(DB_PATH));
    let builder = builder.set_override_option(Key::DbPath, flag_value(&matches.db_path));
    Ok(builder)
}

/// Sets the defaults of the first variant: port 3000 and the endpoint
/// `https://localhost:3000`. Its flags belong to `receive` and are no part
/// of this stage.
pub fn add_v1_defaults(builder: Builder) -> (r: Result<Builder, ConfigError>)
    ensures
        r matches Ok(b) && b.variant == builder.variant && b.sources == builder.sources
            && b.overrides == builder.overrides && b.defaults@ == builder.defaults@.insert(
            Key::V1Port,
            Val::Integer(3000),
        ).insert(Key::V1PjEndpoint, Val::Text("https://localhost:3000"@)),
{
    let builder = builder.set_default(Key::V1Port, Value::Integer(3000));
    let builder = builder.set_default(Key::V1PjEndpoint, Value::text("https://localhost:3000"));
    Ok(builder)
}

/// Sets the defaults of the second variant: the directory `https://payjo.in`
/// and no key bundle. The relay has no default; its flag overrides it under
/// every subcommand.
pub fn add_v2_defaults(builder: Builder, matches: &CliArgs) -> (r: Result<Builder, ConfigError>)
    ensures
        r matches Ok(b) && b.variant == builder.variant && b.sources == builder.sources
            && b.defaults@ == builder.defaults@.insert(
            Key::V2PjDirectory,
            Val::Text("https://payjo.in"@),
        ).insert(Key::V2OhttpKeys, Val::Nil) && b.overrides@ == put(
            builder.overrides@,
            Key::V2OhttpRelay,
            text_val(matches.ohttp_relay),
        ),
{
    let builder = builder.set_override_option(
        Key::V2OhttpRelay,
        flag_value(&matches.ohttp_relay),
    );
    let builder = builder.set_default(Key::V2PjDirectory, Value::text("https://payjo.in"));
    let builder = builder.set_default(Key::V2OhttpKeys, Value::Nil);
    Ok(builder)
}

/// The overrides of the builder that a stage gave, or the stage's error.
pub open spec fn overrides_of(r: Result<Builder, ConfigError>) -> Result<
    Map<Key, Val>,
    ConfigErrorView,
> {
    match r {
        Ok(builder) => Ok(builder.overrides@),
        Err(e) => Err(e@),
    }
}

/// The overrides that `receive` adds beside the fee rate: under the first
/// variant the port and the endpoint, under the second the directory and the
/// path of the key bundle.
pub open spec fn receive_overrides(
    variant: Variant,
    overrides: Map<Key, Val>,
    matches: &ReceiveArgs,
) -> Result<Map<Key, Val>, ConfigErrorView> {
    match variant {
        Variant::V1 => match matches.port_value() {
            Ok(port) => Ok(
                put(
                    put(overrides, Key::V1Port, port),
                    Key::V1PjEndpoint,
                    text_val(matches.pj_endpoint),
                ),
            ),
            Err(e) => Err(e),
        },
        Variant::V2 => Ok(
            put(
                put(overrides, Key::V2PjDirectory, text_val(matches.pj_directory)),
                Key::V2OhttpKeys,
                text_val(matches.ohttp_keys),
            ),
        ),
    }
}

/// Applies the overrides of `receive` that belong to the builder's variant.
/// A port that is no number up to 65535 is an error, with [`INVALID_PORT`]
/// for its message.
pub fn handle_receive_command(builder: Builder, matches: &ReceiveArgs) -> (r: Result<
    Builder,
    ConfigError,
>)
    ensures
        overrides_of(r) == receive_overrides(builder.variant, builder.overrides@, matches),
        r matches Ok(b) ==> b.variant == builder.variant && b.defaults == builder.defaults
            && b.sources == builder.sources,
{
    match builder.variant {
        Variant::V1 => {
            let port = match &matches.port {
                Some(text) => match parse_decimal(text.as_str(), 65535) {
                    Some(n) => Some(Value::Integer(n)),
                    None => {
                        return Err(ConfigError::Message(INVALID_PORT.to_owned()));
                    },
                },
                None => None,
            };
            let builder = builder.set_override_option(Key::V1Port, port);
            let builder = builder.set_override_option(
                Key::V1PjEndpoint,
                flag_value(&matches.pj_endpoint),
            );
            Ok(builder)
        },
        Variant::V2 => {
            let builder = builder.set_override_option(
                Key::V2PjDirectory,
                flag_value(&matches.pj_directory),
            );
            let builder = builder.set_override_option(
                Key::V2OhttpKeys,
                flag_value(&matches.ohttp_keys),
            );
            Ok(builder)
        },
    }
}

/// The overrides that the subcommand adds: none for `send` and `resume`; for
/// `receive` those of the variant, and then the fee rate.
pub open spec fn subcommand_overrides(
    variant: Variant,
    overrides: Map<Key, Val>,
    subcommand: &Subcommand,
) -> Result<Map<Key, Val>, ConfigErrorView> {
    match subcommand {
        Subcommand::Receive(args) => match receive_overrides(variant, overrides, args) {
            Ok(map) => Ok(put(map, Key::MaxFeeRate, text_val(args.max_fee_rate))),
            Err(e) => Err(e),
        },
        _ => Ok(overrides),
    }
}

/// Applies the overrides of the subcommand that was invoked. `send` and
/// `resume` leave the builder as it is.
pub fn handle_subcommands(builder: Builder, matches: &CliArgs) -> (r: Result<Builder, ConfigError>)
    requires
        matches.allowed(builder.variant),
    ensures
        overrides_of(r) == subcommand_overrides(
            builder.variant,
            builder.overrides@,
            &matches.subcommand,
        ),
        r matches Ok(b) ==> b.variant == builder.variant && b.defaults == builder.defaults
            && b.sources == builder.sources,
        !(matches.subcommand is Receive) ==> r == Ok::<_, ConfigError>(builder),
{
    match &matches.subcommand {
        Subcommand::Send => Ok(builder),
        Subcommand::Receive(args) => {
            let builder = handle_receive_command(builder, args)?;
            let builder = builder.set_override_option(
                Key::MaxFeeRate,
                flag_value(&args.max_fee_rate),
            );
            Ok(builder)
        },
        Subcommand::Resume => Ok(builder),
    }
}

} // verus!
