//! Resolution: from the command line and the file to the typed
//! configuration.

use vstd::prelude::*;
use crate::builder::{flatten, lemma_one_layer, lemma_one_source, Builder, FlatConfig};
use crate::cli::CliArgs;
use crate::coerce::{coerced, limit};
use crate::error::{outcome, ConfigError, ConfigErrorView};
use crate::file::{file_layer, source_layer, FileSource, FileSourceView};
use crate::key::{Key, Kind, Variant};
use crate::settings::{
    BitcoindConfig, BitcoindConfigView, Config, ConfigView, OhttpKeys, PendingConfig,
    PendingConfigView, Resolution, ResolutionView, V1Config, V1ConfigView, V2Config, V2ConfigView,
    VariantConfig, VariantConfigView,
};
use crate::stages::{
    add_bitcoind_defaults, add_common_defaults, add_v1_defaults, add_v2_defaults, default_layer,
    handle_subcommands, subcommand_overrides,
};
use crate::trusted::{decode_ohttp_keys, decoded_ohttp_keys};
use crate::value::{Val, Value};

verus! {

/// The text that a flat configuration gives `key`: none where the key has no
/// value or the value `Nil`. A value that is no text is an error.
pub open spec fn text_at(flat: Map<Key, Val>, key: Key) -> Result<Option<Seq<char>>, ConfigErrorView> {
    if !flat.contains_key(key) {
        Ok(None)
    } else {
        match flat[key] {
            Val::Nil => Ok(None),
            Val::Text(text) => Ok(Some(text)),
            _ => Err(ConfigErrorView::InvalidValue(key)),
        }
    }
}

/// The number that a flat configuration gives `key`: none where the key has
/// no value or the value `Nil`. A value that is no number, or a number above
/// the limit of the key's type, is an error.
pub open spec fn number_at(flat: Map<Key, Val>, key: Key) -> Result<Option<u64>, ConfigErrorView> {
    if !flat.contains_key(key) {
        Ok(None)
    } else {
        match flat[key] {
            Val::Nil => Ok(None),
            Val::Integer(n) => if n <= limit(key.kind()) {
                Ok(Some(n))
            } else {
                Err(ConfigErrorView::InvalidValue(key))
            },
            _ => Err(ConfigErrorView::InvalidValue(key)),
        }
    }
}

/// The value of a key that must have one.
pub open spec fn required<T>(value: Result<Option<T>, ConfigErrorView>, key: Key) -> Result<
    T,
    ConfigErrorView,
> {
    match value {
        Ok(Some(v)) => Ok(v),
        Ok(None) => Err(ConfigErrorView::NotFound(key)),
        Err(e) => Err(e),
    }
}

/// The node's settings in a flat configuration, or the error of the first of
/// its keys that has none.
pub open spec fn bitcoind_at(flat: Map<Key, Val>) -> Result<BitcoindConfigView, ConfigErrorView> {
    let rpchost = required(text_at(flat, Key::RpcHost), Key::RpcHost);
    let cookie = text_at(flat, Key::Cookie);
    let rpcuser = required(text_at(flat, Key::RpcUser), Key::RpcUser);
    let rpcpassword = required(text_at(flat, Key::RpcPassword), Key::RpcPassword);
    if rpchost is Err {
        Err(rpchost->Err_0)
    } else if cookie is Err {
        Err(cookie->Err_0)
    } else if rpcuser is Err {
        Err(rpcuser->Err_0)
    } else if rpcpassword is Err {
        Err(rpcpassword->Err_0)
    } else {
        Ok(
            BitcoindConfigView {
                rpchost: rpchost->Ok_0,
                cookie: cookie->Ok_0,
                rpcuser: rpcuser->Ok_0,
                rpcpassword: rpcpassword->Ok_0,
            },
        )
    }
}

/// The first variant's settings in a flat configuration, or the error of the
/// first of its keys that has none.
pub open spec fn v1_at(flat: Map<Key, Val>) -> Result<V1ConfigView, ConfigErrorView> {
    let port = required(number_at(flat, Key::V1Port), Key::V1Port);
    let pj_endpoint = required(text_at(flat, Key::V1PjEndpoint), Key::V1PjEndpoint);
    if port is Err {
        Err(port->Err_0)
    } else if pj_endpoint is Err {
        Err(pj_endpoint->Err_0)
    } else {
        Ok(V1ConfigView { port: port->Ok_0 as u16, pj_endpoint: pj_endpoint->Ok_0 })
    }
}

/// The typed configuration that a flat one assembles to. The keys are read in
/// their order, and the first that fails gives the error: a key that must
/// have a value and has none is `NotFound`, a value of another type than the
/// key's is `InvalidValue`. Where the second variant names a key bundle, the
/// configuration is pending on the bundle's file.
pub open spec fn assembled(variant: Variant, flat: Map<Key, Val>) -> Result<
    ResolutionView,
    ConfigErrorView,
> {
    let db_path = required(text_at(flat, Key::DbPath), Key::DbPath);
    let max_fee_rate = number_at(flat, Key::MaxFeeRate);
    let bitcoind = bitcoind_at(flat);
    if db_path is Err {
        Err(db_path->Err_0)
    } else if max_fee_rate is Err {
        Err(max_fee_rate->Err_0)
    } else if bitcoind is Err {
        Err(bitcoind->Err_0)
    } else {
        match variant {
            Variant::V1 => match v1_at(flat) {
                Ok(v1) => Ok(
                    ResolutionView::Complete(
                        ConfigView {
                            db_path: db_path->Ok_0,
                            max_fee_rate: max_fee_rate->Ok_0,
                            bitcoind: bitcoind->Ok_0,
                            variant: VariantConfigView::V1(v1),
                        },
                    ),
                ),
                Err(e) => Err(e),
            },
            Variant::V2 => {
                let path = text_at(flat, Key::V2OhttpKeys);
                let ohttp_relay = required(text_at(flat, Key::V2OhttpRelay), Key::V2OhttpRelay);
                let pj_directory = required(
                    text_at(flat, Key::V2PjDirectory),
                    Key::V2PjDirectory,
                );
                if path is Err {
                    Err(path->Err_0)
                } else if ohttp_relay is Err {
                    Err(ohttp_relay->Err_0)
                } else if pj_directory is Err {
                    Err(pj_directory->Err_0)
                } else {
                    match path->Ok_0 {
                        Some(path) => Ok(
                            ResolutionView::KeyBundle(
                                PendingConfigView {
                                    path,
                                    db_path: db_path->Ok_0,
                                    max_fee_rate: max_fee_rate->Ok_0,
                                    bitcoind: bitcoind->Ok_0,
                                    ohttp_relay: ohttp_relay->Ok_0,
                                    pj_directory: pj_directory->Ok_0,
                                },
                            ),
                        ),
                        None => Ok(
                            ResolutionView::Complete(
                                ConfigView {
                                    db_path: db_path->Ok_0,
                                    max_fee_rate: max_fee_rate->Ok_0,
                                    bitcoind: bitcoind->Ok_0,
                                    variant: VariantConfigView::V2(
                                        V2ConfigView {
                                            ohttp_keys: None,
                                            ohttp_relay: ohttp_relay->Ok_0,
                                            pj_directory: pj_directory->Ok_0,
                                        },
                                    ),
                                },
                            ),
                        ),
                    }
                }
            },
        }
    }
}

/// What a flat configuration resolves to: it is coerced, then assembled.
pub open spec fn resolved(variant: Variant, flat: Map<Key, Val>) -> Result<
    ResolutionView,
    ConfigErrorView,
> {
    match coerced(variant, flat) {
        Ok(values) => assembled(variant, values),
        Err(e) => Err(e),
    }
}

/// The flat configuration of a command line and a file: the defaults of the
/// variant, under the file's layer where there is a file, under the layer of
/// the flags. A port flag that is no number, a file that could not be read
/// and a file that is not well-formed are errors, in this order.
pub open spec fn layers(variant: Variant, matches: &CliArgs, file: FileSourceView) -> Result<
    Map<Key, Val>,
    ConfigErrorView,
> {
    match matches.overrides(variant) {
        Ok(overrides) => match source_layer(variant, file) {
            Ok(Some(layer)) => Ok(flatten(default_layer(variant), seq![layer], overrides)),
            Ok(None) => Ok(flatten(default_layer(variant), Seq::empty(), overrides)),
            Err(e) => Err(e),
        },
        Err(e) => Err(e),
    }
}

/// The overrides of the flags that every subcommand takes.
pub open spec fn base_overrides(variant: Variant, matches: &CliArgs) -> Map<Key, Val> {
    Map::new(
        |k: Key| matches.base_flag(variant, k) is Some,
        |k: Key| Val::Text(matches.base_flag(variant, k).unwrap()),
    )
}

/// What a command line and a file resolve to.
pub open spec fn resolution(variant: Variant, matches: &CliArgs, file: FileSourceView) -> Result<
    ResolutionView,
    ConfigErrorView,
> {
    match layers(variant, matches, file) {
        Ok(flat) => resolved(variant, flat),
        Err(e) => Err(e),
    }
}

/// What reading the key bundle's file gave, as a model: the bytes, or the
/// reason why it could not be read.
pub open spec fn read_view(read: Result<Vec<u8>, String>) -> Result<Seq<u8>, Seq<char>> {
    match read {
        Ok(bytes) => Ok(bytes@),
        Err(reason) => Err(reason@),
    }
}

/// The keys that a key bundle gives: none where no bundle is set; otherwise
/// what the bytes of its file decode to. A file that could not be read and
/// bytes that do not decode are errors.
pub open spec fn key_bundle(read: Option<Result<Seq<u8>, Seq<char>>>) -> Result<
    Option<Seq<u8>>,
    ConfigErrorView,
> {
    match read {
        None => Ok(None),
        Some(Err(reason)) => Err(ConfigErrorView::KeyBundleRead(reason)),
        Some(Ok(bytes)) => match decoded_ohttp_keys(bytes) {
            Ok(encoded) => Ok(Some(encoded)),
            Err(report) => Err(ConfigErrorView::KeyBundleDecode(report)),
        },
    }
}

/// The keys of a key bundle, from what reading its file gave; `None` for
/// `read` where no bundle is set, and then nothing was to be read.
pub fn deserialize_ohttp_keys_from_path(read: Option<Result<Vec<u8>, String>>) -> (r: Result<
    Option<OhttpKeys>,
    ConfigError,
>)
    ensures
        outcome(r) == key_bundle(
            match read {
                Some(read) => Some(read_view(read)),
                None => None,
            },
        ),
{
    match read {
        None => Ok(None),
        Some(Err(reason)) => Err(ConfigError::KeyBundleRead(reason)),
        Some(Ok(bytes)) => match decode_ohttp_keys(bytes.as_slice()) {
            Ok(encoded) => Ok(Some(OhttpKeys { encoded })),
            Err(report) => Err(ConfigError::KeyBundleDecode(report)),
        },
    }
}

impl PendingConfigView {
    /// What the pending configuration becomes once its key bundle was read.
    pub open spec fn finished(self, read: Result<Seq<u8>, Seq<char>>) -> Result<
        ConfigView,
        ConfigErrorView,
    > {
        match key_bundle(Some(read)) {
            Ok(keys) => Ok(self.with_keys(keys)),
            Err(e) => Err(e),
        }
    }
}

impl PendingConfig {
    /// Completes the configuration with what reading the file at `path`
    /// gave: its bytes, or the reason why it could not be read.
    pub fn finish(self, read: Result<Vec<u8>, String>) -> (r: Result<Config, ConfigError>)
        ensures
            outcome(r) == self@.finished(read_view(read)),
    {
        let keys = deserialize_ohttp_keys_from_path(Some(read))?;
        Ok(self.with_keys(keys))
    }
}

fn text_value(flat: &FlatConfig, key: Key) -> (r: Result<Option<String>, ConfigError>)
    ensures
        outcome(r) == text_at(flat.values@, key),
{
    match flat.get(key) {
        None => Ok(None),
        Some(Value::Nil) => Ok(None),
        Some(Value::Text(text)) => Ok(Some(text.clone())),
        Some(_) => Err(ConfigError::InvalidValue(key)),
    }
}

fn number_value(flat: &FlatConfig, key: Key) -> (r: Result<Option<u64>, ConfigError>)
    ensures
        outcome(r) == number_at(flat.values@, key),
{
    match flat.get(key) {
        None => Ok(None),
        Some(Value::Nil) => Ok(None),
        Some(Value::Integer(n)) => {
            let in_range = match key.value_kind() {
                Kind::Port => *n <= u16::MAX as u64,
                _ => true,
            };
            if in_range {
                Ok(Some(*n))
            } else {
                Err(ConfigError::InvalidValue(key))
            }
        },
        Some(_) => Err(ConfigError::InvalidValue(key)),
    }
}

fn required_text(flat: &FlatConfig, key: Key) -> (r: Result<String, ConfigError>)
    ensures
        outcome(r) == required(text_at(flat.values@, key), key),
{
    match text_value(flat, key)? {
        Some(text) => Ok(text),
        None => Err(ConfigError::NotFound(key)),
    }
}

fn bitcoind(flat: &FlatConfig) -> (r: Result<BitcoindConfig, ConfigError>)
    ensures
        outcome(r) == bitcoind_at(flat.values@),
{
    let rpchost = required_text(flat, Key::RpcHost)?;
    let cookie = text_value(flat, Key::Cookie)?;
    let rpcuser = required_text(flat, Key::RpcUser)?;
    let rpcpassword = required_text(flat, Key::RpcPassword)?;
    Ok(BitcoindConfig { rpchost, cookie, rpcuser, rpcpassword })
}

fn v1(flat: &FlatConfig) -> (r: Result<V1Config, ConfigError>)
    ensures
        outcome(r) == v1_at(flat.values@),
{
    let port = match number_value(flat, Key::V1Port)? {
        Some(n) => n as u16,
        None => {
            return Err(ConfigError::NotFound(Key::V1Port));
        },
    };
    let pj_endpoint = required_text(flat, Key::V1PjEndpoint)?;
    Ok(V1Config { port, pj_endpoint })
}

impl Config {
    /// Assembles the typed configuration from a flat one whose values have
    /// the forms of their types, as [`FlatConfig::coerce`] leaves them.
    pub fn assemble(flat: &FlatConfig) -> (r: Result<Resolution, ConfigError>)
        ensures
            outcome(r) == assembled(flat.variant, flat.values@),
    {
        let db_path = required_text(flat, Key::DbPath)?;
        let max_fee_rate = number_value(flat, Key::MaxFeeRate)?;
        let bitcoind = bitcoind(flat)?;
        match flat.variant {
            Variant::V1 => {
                let v1 = v1(flat)?;
                Ok(
                    Resolution::Complete(
                        Config { db_path, max_fee_rate, bitcoind, variant: VariantConfig::V1(v1) },
                    ),
                )
            },
            Variant::V2 => {
                let path = text_value(flat, Key::V2OhttpKeys)?;
                let ohttp_relay = required_text(flat, Key::V2OhttpRelay)?;
                let pj_directory = required_text(flat, Key::V2PjDirectory)?;
                match path {
                    Some(path) => Ok(
                        Resolution::KeyBundle(
                            PendingConfig {
                                path,
                                db_path,
                                max_fee_rate,
                                bitcoind,
                                ohttp_relay,
                                pj_directory,
                            },
                        ),
                    ),
                    None => Ok(
                        Resolution::Complete(
                            Config {
                                db_path,
                                max_fee_rate,
                                bitcoind,
                                variant: VariantConfig::V2(
                                    V2Config { ohttp_keys: None, ohttp_relay, pj_directory },
                                ),
                            },
                        ),
                    ),
                }
            },
        }
    }

    /// Resolves the configuration of a command line and of what reading the
    /// configuration file gave. The stages run in their order: the defaults
    /// of each section with the flags that override them, the overrides of
    /// the subcommand, the file, and then the layers are flattened, coerced
    /// and assembled.
    pub fn new(variant: Variant, matches: &CliArgs, file: &FileSource) -> (r: Result<
        Resolution,
        ConfigError,
    >)
        requires
            matches.allowed(variant),
        ensures
            outcome(r) == resolution(variant, matches, file@),
    {
        let builder = Builder::new(variant);
        let builder = add_bitcoind_defaults(builder, matches)?;
        let builder = add_common_defaults(builder, matches)?;
        let builder = match variant {
            Variant::V1 => add_v1_defaults(builder)?,
            Variant::V2 => add_v2_defaults(builder, matches)?,
        };
        assert(builder.defaults@ =~= default_layer(variant));
        assert(builder.overrides@ =~= base_overrides(variant, matches));
        proof {
            lemma_stage_overrides(variant, matches);
        }
        let builder = handle_subcommands(builder, matches)?;
        let builder = match file {
            FileSource::Missing => builder,
            FileSource::Unreadable(reason) => {
                return Err(ConfigError::FileRead(reason.clone()));
            },
            FileSource::Text(text) => {
                let with_file = builder.add_source(text.clone());
                proof {
                    lemma_one_source(variant, text@);
                    match file_layer(variant, text@) {
                        Ok(layer) => lemma_one_layer(default_layer(variant), layer),
                        Err(_) => {},
                    }
                }
                with_file
            },
        };
        let flat = builder.build()?;
        Config::resolve(&flat)
    }

    /// Resolves a flat configuration: coerces its values, then assembles the
    /// typed configuration from them.
    pub fn resolve(flat: &FlatConfig) -> (r: Result<Resolution, ConfigError>)
        ensures
            outcome(r) == resolved(flat.variant, flat.values@),
    {
        let values = flat.coerce()?;
        Config::assemble(&values)
    }
}


/// The overrides that the subcommand's stage leaves are the layer of the
/// command line: the flags of all subcommands, and over them those of
/// `receive`.
pub proof fn lemma_stage_overrides(variant: Variant, matches: &CliArgs)
    ensures
        match matches.overrides(variant) {
            Ok(overrides) => subcommand_overrides(
                variant,
                base_overrides(variant, matches),
                &matches.subcommand,
            ) matches Ok(staged) && staged =~= overrides,
            Err(e) => subcommand_overrides(
                variant,
                base_overrides(variant, matches),
                &matches.subcommand,
            ) == Err::<Map<Key, Val>, _>(e),
        },
{
}

} // verus!
