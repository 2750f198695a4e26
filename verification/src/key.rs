//! The closed set of configuration keys and the two protocol variants.

use vstd::prelude::*;

verus! {

/// The wire-protocol variant that a build of the wallet speaks.
#[derive(Clone, Copy, Debug, PartialEq, Eq, Structural)]
pub enum Variant {
    /// Direct payjoin: the receiver listens on a port of its own.
    V1,
    /// Asynchronous payjoin through a directory and an OHTTP relay.
    V2,
}

/// The type that the value of a key is coerced to.
#[derive(Clone, Copy, Debug, PartialEq, Eq, Structural)]
pub enum Kind {
    /// Any text: a name, a password, a path.
    Text,
    /// An absolute URL.
    Url,
    /// A TCP port: a number up to 65535.
    Port,
    /// A fee rate in satoshis per 1000 weight units: a number up to `u64::MAX`.
    FeeRate,
}

/// A configuration key. The order of the variants is the order in which the
/// resolver reads them.
#[derive(Clone, Copy, Debug, PartialEq, Eq, Structural)]
pub enum Key {
    /// `db_path`: where the wallet keeps its state.
    DbPath,
    /// `max_fee_rate`: the highest fee rate the receiver contributes at.
    MaxFeeRate,
    /// `bitcoind.rpchost`: URL of the node's RPC interface.
    RpcHost,
    /// `bitcoind.cookie`: path of the node's cookie file.
    Cookie,
    /// `bitcoind.rpcuser`
    RpcUser,
    /// `bitcoind.rpcpassword`
    RpcPassword,
    /// `v1.port`: the port the receiver listens on.
    V1Port,
    /// `v1.pj_endpoint`: the URL the receiver advertises.
    V1PjEndpoint,
    /// `v2.ohttp_keys`: path of the file that holds the OHTTP key bundle.
    V2OhttpKeys,
    /// `v2.ohttp_relay`: URL of the OHTTP relay.
    V2OhttpRelay,
    /// `v2.pj_directory`: URL of the payjoin directory.
    V2PjDirectory,
}

/// The number of keys.
pub const KEY_COUNT: usize = 11;

impl Key {
    /// The position of the key in the resolver's order, from 0.
    pub open spec fn ord(self) -> int {
        match self {
            Key::DbPath => 0,
            Key::MaxFeeRate => 1,
            Key::RpcHost => 2,
            Key::Cookie => 3,
            Key::RpcUser => 4,
            Key::RpcPassword => 5,
            Key::V1Port => 6,
            Key::V1PjEndpoint => 7,
            Key::V2OhttpKeys => 8,
            Key::V2OhttpRelay => 9,
            Key::V2PjDirectory => 10,
        }
    }

    /// The key at a position, if there is one.
    pub open spec fn at(i: int) -> Option<Key> {
        if i == 0 {
            Some(Key::DbPath)
        } else if i == 1 {
            Some(Key::MaxFeeRate)
        } else if i == 2 {
            Some(Key::RpcHost)
        } else if i == 3 {
            Some(Key::Cookie)
        } else if i == 4 {
            Some(Key::RpcUser)
        } else if i == 5 {
            Some(Key::RpcPassword)
        } else if i == 6 {
            Some(Key::V1Port)
        } else if i == 7 {
            Some(Key::V1PjEndpoint)
        } else if i == 8 {
            Some(Key::V2OhttpKeys)
        } else if i == 9 {
            Some(Key::V2OhttpRelay)
        } else if i == 10 {
            Some(Key::V2PjDirectory)
        } else {
            None
        }
    }

    /// Whether the key belongs to the schema of a variant: the common keys
    /// belong to both, a variant's own keys to that variant alone.
    pub open spec fn in_schema(self, variant: Variant) -> bool {
        match self {
            Key::V1Port | Key::V1PjEndpoint => variant == Variant::V1,
            Key::V2OhttpKeys | Key::V2OhttpRelay | Key::V2PjDirectory => variant == Variant::V2,
            _ => true,
        }
    }

    /// The type of the key's value.
    pub open spec fn kind(self) -> Kind {
        match self {
            Key::MaxFeeRate => Kind::FeeRate,
            Key::RpcHost | Key::V1PjEndpoint | Key::V2OhttpRelay | Key::V2PjDirectory => Kind::Url,
            Key::V1Port => Kind::Port,
            _ => Kind::Text,
        }
    }

    /// The section of a file that holds the key, or `None` for a key that
    /// stands at the top of the file.
    pub open spec fn section_spec(self) -> Option<Seq<char>> {
        match self {
            Key::DbPath | Key::MaxFeeRate => None,
            Key::RpcHost | Key::Cookie | Key::RpcUser | Key::RpcPassword => Some("bitcoind"@),
            Key::V1Port | Key::V1PjEndpoint => Some("v1"@),
            Key::V2OhttpKeys | Key::V2OhttpRelay | Key::V2PjDirectory => Some("v2"@),
        }
    }

    /// The name of the key within its section.
    pub open spec fn field_spec(self) -> Seq<char> {
        match self {
            Key::DbPath => "db_path"@,
            Key::MaxFeeRate => "max_fee_rate"@,
            Key::RpcHost => "rpchost"@,
            Key::Cookie => "cookie"@,
            Key::RpcUser => "rpcuser"@,
            Key::RpcPassword => "rpcpassword"@,
            Key::V1Port => "port"@,
            Key::V1PjEndpoint => "pj_endpoint"@,
            Key::V2OhttpKeys => "ohttp_keys"@,
            Key::V2OhttpRelay => "ohttp_relay"@,
            Key::V2PjDirectory => "pj_directory"@,
        }
    }

    /// The dotted name of the key: its section and its name within it.
    pub open spec fn name_spec(self) -> Seq<char> {
        match self {
            Key::DbPath => "db_path"@,
            Key::MaxFeeRate => "max_fee_rate"@,
            Key::RpcHost => "bitcoind.rpchost"@,
            Key::Cookie => "bitcoind.cookie"@,
            Key::RpcUser => "bitcoind.rpcuser"@,
            Key::RpcPassword => "bitcoind.rpcpassword"@,
            Key::V1Port => "v1.port"@,
            Key::V1PjEndpoint => "v1.pj_endpoint"@,
            Key::V2OhttpKeys => "v2.ohttp_keys"@,
            Key::V2OhttpRelay => "v2.ohttp_relay"@,
            Key::V2PjDirectory => "v2.pj_directory"@,
        }
    }

    /// The position of the key in the resolver's order.
    pub fn index(self) -> (i: usize)
        ensures
            i == self.ord(),
            i < KEY_COUNT,
    {
        match self {
            Key::DbPath => 0,
            Key::MaxFeeRate => 1,
            Key::RpcHost => 2,
            Key::Cookie => 3,
            Key::RpcUser => 4,
            Key::RpcPassword => 5,
            Key::V1Port => 6,
            Key::V1PjEndpoint => 7,
            Key::V2OhttpKeys => 8,
            Key::V2OhttpRelay => 9,
            Key::V2PjDirectory => 10,
        }
    }

    /// The key at position `i`, or `None` from `KEY_COUNT` on.
    pub fn from_index(i: usize) -> (k: Option<Key>)
        ensures
            k == Key::at(i as int),
            k is Some <==> i < KEY_COUNT,
    {
        if i == 0 {
            Some(Key::DbPath)
        } else if i == 1 {
            Some(Key::MaxFeeRate)
        } else if i == 2 {
            Some(Key::RpcHost)
        } else if i == 3 {
            Some(Key::Cookie)
        } else if i == 4 {
            Some(Key::RpcUser)
        } else if i == 5 {
            Some(Key::RpcPassword)
        } else if i == 6 {
            Some(Key::V1Port)
        } else if i == 7 {
            Some(Key::V1PjEndpoint)
        } else if i == 8 {
            Some(Key::V2OhttpKeys)
        } else if i == 9 {
            Some(Key::V2OhttpRelay)
        } else if i == 10 {
            Some(Key::V2PjDirectory)
        } else {
            None
        }
    }

    /// Whether the key belongs to the schema of `variant`.
    pub fn is_in_schema(self, variant: Variant) -> (b: bool)
        ensures
            b == self.in_schema(variant),
    {
        match self {
            Key::V1Port | Key::V1PjEndpoint => variant == Variant::V1,
            Key::V2OhttpKeys | Key::V2OhttpRelay | Key::V2PjDirectory => variant == Variant::V2,
            _ => true,
        }
    }

    /// The type of the key's value.
    pub fn value_kind(self) -> (kind: Kind)
        ensures
            kind == self.kind(),
    {
        match self {
            Key::MaxFeeRate => Kind::FeeRate,
            Key::RpcHost | Key::V1PjEndpoint | Key::V2OhttpRelay | Key::V2PjDirectory => Kind::Url,
            Key::V1Port => Kind::Port,
            _ => Kind::Text,
        }
    }

    /// The section of a file that holds the key, or `None` for a key that
    /// stands at the top of the file.
    pub fn section(self) -> (s: Option<&'static str>)
        ensures
            match s {
                Some(name) => self.section_spec() == Some(name@),
                None => self.section_spec() is None,
            },
    {
        match self {
            Key::DbPath | Key::MaxFeeRate => None,
            Key::RpcHost | Key::Cookie | Key::RpcUser | Key::RpcPassword => Some("bitcoind"),
            Key::V1Port | Key::V1PjEndpoint => Some("v1"),
            Key::V2OhttpKeys | Key::V2OhttpRelay | Key::V2PjDirectory => Some("v2"),
        }
    }

    /// The name of the key within its section.
    pub fn field(self) -> (s: &'static str)
        ensures
            s@ == self.field_spec(),
    {
        match self {
            Key::DbPath => "db_path",
            Key::MaxFeeRate => "max_fee_rate",
            Key::RpcHost => "rpchost",
            Key::Cookie => "cookie",
            Key::RpcUser => "rpcuser",
            Key::RpcPassword => "rpcpassword",
            Key::V1Port => "port",
            Key::V1PjEndpoint => "pj_endpoint",
            Key::V2OhttpKeys => "ohttp_keys",
            Key::V2OhttpRelay => "ohttp_relay",
            Key::V2PjDirectory => "pj_directory",
        }
    }

    /// The dotted name of the key: its section and its name within it.
    pub fn name(self) -> (s: &'static str)
        ensures
            s@ == self.name_spec(),
    {
        match self {
            Key::DbPath => "db_path",
            Key::MaxFeeRate => "max_fee_rate",
            Key::RpcHost => "bitcoind.rpchost",
            Key::Cookie => "bitcoind.cookie",
            Key::RpcUser => "bitcoind.rpcuser",
            Key::RpcPassword => "bitcoind.rpcpassword",
            Key::V1Port => "v1.port",
            Key::V1PjEndpoint => "v1.pj_endpoint",
            Key::V2OhttpKeys => "v2.ohttp_keys",
            Key::V2OhttpRelay => "v2.ohttp_relay",
            Key::V2PjDirectory => "v2.pj_directory",
        }
    }
}

} // verus!
