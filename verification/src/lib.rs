//! Layered configuration for a payjoin command-line wallet.
//!
//! A configuration is resolved from three layers of key/value pairs, lowest
//! precedence first: built-in defaults, an optional file, and the flags given
//! on the command line. A [`Builder`] gathers the layers and flattens them;
//! the flat configuration is then coerced, key by key, and assembled into a
//! typed [`Config`] that holds the settings of exactly one protocol variant.
//!
//! The library reads no file. It takes what reading the configuration file
//! gave from its caller, and where a key bundle is set it hands back a
//! [`PendingConfig`] that names the bundle's file and takes what reading it
//! gave. [`Config::new`] runs all the stages; [`laws`] states what holds of
//! every resolution.

pub mod builder;
pub mod cli;
pub mod coerce;
pub mod decimal;
pub mod error;
pub mod file;
pub mod key;
pub mod laws;
pub mod layer;
pub mod nesting;
pub mod resolve;
pub mod settings;
pub mod stages;
pub mod trusted;
pub mod value;

pub use builder::{Builder, FlatConfig, FlatConfigView};
pub use cli::{CliArgs, ReceiveArgs, Subcommand, INVALID_PORT};
pub use error::{ConfigError, ConfigErrorView};
pub use file::FileSource;
pub use key::{Key, Kind, Variant, KEY_COUNT};
pub use layer::Layer;
pub use resolve::deserialize_ohttp_keys_from_path;
pub use settings::{
    BitcoindConfig, Config, OhttpKeys, PendingConfig, Resolution, V1Config, V2Config,
    VariantConfig,
};
pub use stages::{
    add_bitcoind_defaults, add_common_defaults, add_v1_defaults, add_v2_defaults,
    handle_receive_command, handle_subcommands, DB_PATH,
};
pub use value::{Val, Value};
