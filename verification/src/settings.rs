//! The resolved configuration: typed, complete and not changed again.

use vstd::prelude::*;

verus! {

/// How to reach the bitcoin node. The cookie and the user name with its
/// password stand side by side; which of them the node is asked with is for
/// the caller to decide.
#[derive(Debug, PartialEq, Eq)]
pub struct BitcoindConfig {
    /// The URL of the node's RPC interface, in its serialization.
    pub rpchost: String,
    /// The path of the node's cookie file, if one is set.
    pub cookie: Option<String>,
    /// The RPC user.
    pub rpcuser: String,
    /// The RPC password.
    pub rpcpassword: String,
}

/// The settings of the first variant.
#[derive(Debug, PartialEq, Eq)]
pub struct V1Config {
    /// The port the receiver listens on.
    pub port: u16,
    /// The URL the receiver advertises, in its serialization.
    pub pj_endpoint: String,
}

/// An OHTTP key configuration that was decoded from a key bundle.
#[derive(Debug, PartialEq, Eq)]
pub struct OhttpKeys {
    /// The key configuration in its encoding.
    pub encoded: Vec<u8>,
}

/// The settings of the second variant.
#[derive(Debug, PartialEq, Eq)]
pub struct V2Config {
    /// The keys of the directory's OHTTP gateway, if a key bundle is set.
    pub ohttp_keys: Option<OhttpKeys>,
    /// The URL of the OHTTP relay, in its serialization.
    pub ohttp_relay: String,
    /// The URL of the payjoin directory, in its serialization.
    pub pj_directory: String,
}

/// The settings of the one variant that is active.
#[derive(Debug, PartialEq, Eq)]
pub enum VariantConfig {
    V1(V1Config),
    V2(V2Config),
}

/// The resolved configuration.
#[derive(Debug, PartialEq, Eq)]
pub struct Config {
    /// Where the wallet keeps its state.
    pub db_path: String,
    /// The highest fee rate the receiver contributes at, in satoshis per 1000
    /// weight units, if one is set.
    pub max_fee_rate: Option<u64>,
    /// How to reach the bitcoin node.
    pub bitcoind: BitcoindConfig,
    /// The settings of the active variant.
    pub variant: VariantConfig,
}

/// A configuration that is resolved but for its key bundle, which is still
/// to be read from `path`. It belongs to the second variant.
#[derive(Debug, PartialEq, Eq)]
pub struct PendingConfig {
    /// The path of the file that holds the key bundle.
    pub path: String,
    /// Where the wallet keeps its state.
    pub db_path: String,
    /// The highest fee rate the receiver contributes at, if one is set.
    pub max_fee_rate: Option<u64>,
    /// How to reach the bitcoin node.
    pub bitcoind: BitcoindConfig,
    /// The URL of the OHTTP relay, in its serialization.
    pub ohttp_relay: String,
    /// The URL of the payjoin directory, in its serialization.
    pub pj_directory: String,
}

/// What resolution has come to once all that needs no file is done.
#[derive(Debug, PartialEq, Eq)]
pub enum Resolution {
    /// No key bundle is set: the configuration is complete, and nothing is
    /// left to read.
    Complete(Config),
    /// A key bundle is set: its file is to be read, and
    /// [`PendingConfig::finish`] takes what the read gave.
    KeyBundle(PendingConfig),
}

/// The mathematical model of a [`BitcoindConfig`].
pub struct BitcoindConfigView {
    pub rpchost: Seq<char>,
    pub cookie: Option<Seq<char>>,
    pub rpcuser: Seq<char>,
    pub rpcpassword: Seq<char>,
}

/// The mathematical model of a [`V1Config`].
pub struct V1ConfigView {
    pub port: u16,
    pub pj_endpoint: Seq<char>,
}

/// The mathematical model of a [`V2Config`].
pub struct V2ConfigView {
    pub ohttp_keys: Option<Seq<u8>>,
    pub ohttp_relay: Seq<char>,
    pub pj_directory: Seq<char>,
}

/// The mathematical model of a [`VariantConfig`].
pub enum VariantConfigView {
    V1(V1ConfigView),
    V2(V2ConfigView),
}

/// The mathematical model of a [`Config`].
pub struct ConfigView {
    pub db_path: Seq<char>,
    pub max_fee_rate: Option<u64>,
    pub bitcoind: BitcoindConfigView,
    pub variant: VariantConfigView,
}

/// The mathematical model of a [`PendingConfig`].
pub struct PendingConfigView {
    pub path: Seq<char>,
    pub db_path: Seq<char>,
    pub max_fee_rate: Option<u64>,
    pub bitcoind: BitcoindConfigView,
    pub ohttp_relay: Seq<char>,
    pub pj_directory: Seq<char>,
}

/// The mathematical model of a [`Resolution`].
pub enum ResolutionView {
    Complete(ConfigView),
    KeyBundle(PendingConfigView),
}

impl View for BitcoindConfig {
    type V = BitcoindConfigView;

    open spec fn view(&self) -> BitcoindConfigView {
        BitcoindConfigView {
            rpchost: self.rpchost@,
            cookie: self.cookie.deep_view(),
            rpcuser: self.rpcuser@,
            rpcpassword: self.rpcpassword@,
        }
    }
}

impl View for V1Config {
    type V = V1ConfigView;

    open spec fn view(&self) -> V1ConfigView {
        V1ConfigView { port: self.port, pj_endpoint: self.pj_endpoint@ }
    }
}

impl View for OhttpKeys {
    type V = Seq<u8>;

    open spec fn view(&self) -> Seq<u8> {
        self.encoded@
    }
}

impl DeepView for OhttpKeys {
    type V = Seq<u8>;

    open spec fn deep_view(&self) -> Seq<u8> {
        self.encoded@
    }
}

impl View for V2Config {
    type V = V2ConfigView;

    open spec fn view(&self) -> V2ConfigView {
        V2ConfigView {
            ohttp_keys: self.ohttp_keys.deep_view(),
            ohttp_relay: self.ohttp_relay@,
            pj_directory: self.pj_directory@,
        }
    }
}

impl View for VariantConfig {
    type V = VariantConfigView;

    open spec fn view(&self) -> VariantConfigView {
        match self {
            VariantConfig::V1(v1) => VariantConfigView::V1(v1@),
            VariantConfig::V2(v2) => VariantConfigView::V2(v2@),
        }
    }
}

impl View for Config {
    type V = ConfigView;

    open spec fn view(&self) -> ConfigView {
        ConfigView {
            db_path: self.db_path@,
            max_fee_rate: self.max_fee_rate,
            bitcoind: self.bitcoind@,
            variant: self.variant@,
        }
    }
}

impl View for PendingConfig {
    type V = PendingConfigView;

    open spec fn view(&self) -> PendingConfigView {
        PendingConfigView {
            path: self.path@,
            db_path: self.db_path@,
            max_fee_rate: self.max_fee_rate,
            bitcoind: self.bitcoind@,
            ohttp_relay: self.ohttp_relay@,
            pj_directory: self.pj_directory@,
        }
    }
}

impl View for Resolution {
    type V = ResolutionView;

    open spec fn view(&self) -> ResolutionView {
        match self {
            Resolution::Complete(config) => ResolutionView::Complete(config@),
            Resolution::KeyBundle(pending) => ResolutionView::KeyBundle(pending@),
        }
    }
}

impl DeepView for BitcoindConfig {
    type V = BitcoindConfigView;

    open spec fn deep_view(&self) -> BitcoindConfigView {
        self@
    }
}

impl DeepView for V1Config {
    type V = V1ConfigView;

    open spec fn deep_view(&self) -> V1ConfigView {
        self@
    }
}

impl DeepView for Config {
    type V = ConfigView;

    open spec fn deep_view(&self) -> ConfigView {
        self@
    }
}

impl DeepView for Resolution {
    type V = ResolutionView;

    open spec fn deep_view(&self) -> ResolutionView {
        self@
    }
}

impl Clone for BitcoindConfig {
    fn clone(&self) -> (copy: Self)
        ensures
            copy@ == self@,
    {
        BitcoindConfig {
            rpchost: self.rpchost.clone(),
            cookie: match &self.cookie {
                Some(path) => Some(path.clone()),
                None => None,
            },
            rpcuser: self.rpcuser.clone(),
            rpcpassword: self.rpcpassword.clone(),
        }
    }
}

impl Clone for V1Config {
    fn clone(&self) -> (copy: Self)
        ensures
            copy@ == self@,
    {
        V1Config { port: self.port, pj_endpoint: self.pj_endpoint.clone() }
    }
}

impl Clone for OhttpKeys {
    fn clone(&self) -> (copy: Self)
        ensures
            copy@ == self@,
    {
        OhttpKeys { encoded: self.encoded.clone() }
    }
}

impl Clone for V2Config {
    fn clone(&self) -> (copy: Self)
        ensures
            copy@ == self@,
    {
        V2Config {
            ohttp_keys: match &self.ohttp_keys {
                Some(keys) => Some(keys.clone()),
                None => None,
            },
            ohttp_relay: self.ohttp_relay.clone(),
            pj_directory: self.pj_directory.clone(),
        }
    }
}

impl Clone for VariantConfig {
    fn clone(&self) -> (copy: Self)
        ensures
            copy@ == self@,
    {
        match self {
            VariantConfig::V1(v1) => VariantConfig::V1(v1.clone()),
            VariantConfig::V2(v2) => VariantConfig::V2(v2.clone()),
        }
    }
}

impl Clone for Config {
    fn clone(&self) -> (copy: Self)
        ensures
            copy@ == self@,
    {
        Config {
            db_path: self.db_path.clone(),
            max_fee_rate: self.max_fee_rate,
            bitcoind: self.bitcoind.clone(),
            variant: self.variant.clone(),
        }
    }
}

impl PendingConfigView {
    /// The configuration that the pending one becomes with its keys.
    pub open spec fn with_keys(self, keys: Option<Seq<u8>>) -> ConfigView {
        ConfigView {
            db_path: self.db_path,
            max_fee_rate: self.max_fee_rate,
            bitcoind: self.bitcoind,
            variant: VariantConfigView::V2(
                V2ConfigView {
                    ohttp_keys: keys,
                    ohttp_relay: self.ohttp_relay,
                    pj_directory: self.pj_directory,
                },
            ),
        }
    }
}

impl PendingConfig {
    /// The configuration that the pending one becomes with its keys.
    pub fn with_keys(self, keys: Option<OhttpKeys>) -> (config: Config)
        ensures
            config@ == self@.with_keys(keys.deep_view()),
    {
        Config {
            db_path: self.db_path,
            max_fee_rate: self.max_fee_rate,
            bitcoind: self.bitcoind,
            variant: VariantConfig::V2(
                V2Config {
                    ohttp_keys: keys,
                    ohttp_relay: self.ohttp_relay,
                    pj_directory: self.pj_directory,
                },
            ),
        }
    }
}

} // verus!
