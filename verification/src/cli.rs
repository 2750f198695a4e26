//! What the command line gave: the flags and the subcommand, as plain values.

use vstd::prelude::*;
use crate::decimal::decimal_up_to;
use crate::error::ConfigErrorView;
use crate::key::{Key, Variant};
use crate::value::{text_val, text_view, Val, Value};

verus! {

/// What the error says of a `--port` that is no number up to 65535.
pub const INVALID_PORT: &'static str = "\"port\" must be a valid number";

/// The flags of the `receive` subcommand. A flag that was not given is `None`.
#[derive(Debug, PartialEq, Eq)]
pub struct ReceiveArgs {
    /// `--max-fee-rate`, in satoshis per 1000 weight units.
    pub max_fee_rate: Option<String>,
    /// `--port`, of the first variant.
    pub port: Option<String>,
    /// `--pj-endpoint`, of the first variant.
    pub pj_endpoint: Option<String>,
    /// `--pj-directory`, of the second variant.
    pub pj_directory: Option<String>,
    /// `--ohttp-keys`, of the second variant: the path of the key bundle.
    pub ohttp_keys: Option<String>,
}

/// The subcommand that was invoked.
#[derive(Debug, PartialEq, Eq)]
pub enum Subcommand {
    /// Send a payjoin.
    Send,
    /// Receive a payjoin.
    Receive(ReceiveArgs),
    /// Resume the sessions that are open; the second variant alone has it.
    Resume,
}

/// The command line: the flags that every subcommand takes, and the
/// subcommand. A flag that was not given is `None`.
#[derive(Debug, PartialEq, Eq)]
pub struct CliArgs {
    /// `--rpchost`
    pub rpchost: Option<String>,
    /// `--cookie-file`
    pub cookie_file: Option<String>,
    /// `--rpcuser`
    pub rpcuser: Option<String>,
    /// `--rpcpassword`
    pub rpcpassword: Option<String>,
    /// `--db-path`
    pub db_path: Option<String>,
    /// `--ohttp-relay`, of the second variant.
    pub ohttp_relay: Option<String>,
    /// The subcommand.
    pub subcommand: Subcommand,
}

impl ReceiveArgs {
    /// The `receive` subcommand without any flag.
    pub fn new() -> (args: ReceiveArgs)
        ensures
            args.max_fee_rate is None,
            args.port is None,
            args.pj_endpoint is None,
            args.pj_directory is None,
            args.ohttp_keys is None,
    {
        ReceiveArgs {
            max_fee_rate: None,
            port: None,
            pj_endpoint: None,
            pj_directory: None,
            ohttp_keys: None,
        }
    }

    /// The text that the subcommand's flags give `key` under `variant`: the
    /// fee rate under both, the other flags under their own variant.
    pub open spec fn flag(&self, variant: Variant, key: Key) -> Option<Seq<char>> {
        match key {
            Key::MaxFeeRate => text_view(self.max_fee_rate),
            Key::V1Port => if variant == Variant::V1 {
                text_view(self.port)
            } else {
                None
            },
            Key::V1PjEndpoint => if variant == Variant::V1 {
                text_view(self.pj_endpoint)
            } else {
                None
            },
            Key::V2PjDirectory => if variant == Variant::V2 {
                text_view(self.pj_directory)
            } else {
                None
            },
            Key::V2OhttpKeys => if variant == Variant::V2 {
                text_view(self.ohttp_keys)
            } else {
                None
            },
            _ => None,
        }
    }

    /// The value that `--port` overrides the port with: none without the
    /// flag, the number that the flag's text stands for, or the error for a
    /// text that is no number up to 65535.
    pub open spec fn port_value(&self) -> Result<Option<Val>, ConfigErrorView> {
        match self.port {
            None => Ok(None),
            Some(text) => match decimal_up_to(text@, u16::MAX as nat) {
                Some(n) => Ok(Some(Val::Integer(n as u64))),
                None => Err(ConfigErrorView::Message(INVALID_PORT@)),
            },
        }
    }
}

impl CliArgs {
    /// The command line of a subcommand without any flag.
    pub fn new(subcommand: Subcommand) -> (args: CliArgs)
        ensures
            args.rpchost is None,
            args.cookie_file is None,
            args.rpcuser is None,
            args.rpcpassword is None,
            args.db_path is None,
            args.ohttp_relay is None,
            args.subcommand == subcommand,
    {
        CliArgs {
            rpchost: None,
            cookie_file: None,
            rpcuser: None,
            rpcpassword: None,
            db_path: None,
            ohttp_relay: None,
            subcommand,
        }
    }

    /// Whether the variant has the subcommand: the first has no `resume`.
    pub open spec fn allowed(&self, variant: Variant) -> bool {
        !(variant == Variant::V1 && self.subcommand is Resume)
    }

    /// The text that the flags common to all subcommands give `key`.
    pub open spec fn base_flag(&self, variant: Variant, key: Key) -> Option<Seq<char>> {
        match key {
            Key::RpcHost => text_view(self.rpchost),
            Key::Cookie => text_view(self.cookie_file),
            Key::RpcUser => text_view(self.rpcuser),
            Key::RpcPassword => text_view(self.rpcpassword),
            Key::DbPath => text_view(self.db_path),
            Key::V2OhttpRelay => if variant == Variant::V2 {
                text_view(self.ohttp_relay)
            } else {
                None
            },
            _ => None,
        }
    }

    /// The text that the command line gives `key` under `variant`: that of a
    /// common flag, or that of a flag of `receive` where `receive` was
    /// invoked. `None` where no flag that was given speaks of the key.
    pub open spec fn flag(&self, variant: Variant, key: Key) -> Option<Seq<char>> {
        match self.base_flag(variant, key) {
            Some(text) => Some(text),
            None => match self.subcommand {
                Subcommand::Receive(args) => args.flag(variant, key),
                _ => None,
            },
        }
    }

    /// Whether the command line gives a port that is no number up to 65535.
    pub open spec fn port_error(&self, variant: Variant) -> bool {
        self.flag(variant, Key::V1Port) matches Some(text) && decimal_up_to(
            text,
            u16::MAX as nat,
        ) is None
    }

    /// The value that the command line overrides `key` with: the text of the
    /// flag, and for the port the number that the text stands for.
    pub open spec fn override_value(&self, variant: Variant, key: Key) -> Option<Val> {
        match self.flag(variant, key) {
            Some(text) => if key == Key::V1Port {
                match decimal_up_to(text, u16::MAX as nat) {
                    Some(n) => Some(Val::Integer(n as u64)),
                    None => None,
                }
            } else {
                Some(Val::Text(text))
            },
            None => None,
        }
    }

    /// The layer of overrides that the command line makes: one entry for each
    /// flag that was given, none for a flag that was not. A port that is no
    /// number is an error.
    pub open spec fn overrides(&self, variant: Variant) -> Result<Map<Key, Val>, ConfigErrorView> {
        if self.port_error(variant) {
            Err(ConfigErrorView::Message(INVALID_PORT@))
        } else {
            Ok(
                Map::new(
                    |k: Key| self.override_value(variant, k) is Some,
                    |k: Key| self.override_value(variant, k).unwrap(),
                ),
            )
        }
    }
}

/// The text of a flag as the value of an override.
pub fn flag_value(flag: &Option<String>) -> (value: Option<Value>)
    ensures
        value.deep_view() == text_val(*flag),
{
    match flag {
        Some(text) => Some(Value::Text(text.clone())),
        None => None,
    }
}

} // verus!
