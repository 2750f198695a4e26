//! What holds of every resolution: the laws of precedence, and what the
//! subcommands can and cannot change.

use vstd::prelude::*;
use crate::builder::{flatten, lemma_one_layer, overlay_all};
use crate::cli::CliArgs;
use crate::coerce::{canonical, invalid_at, lemma_first_invalid};
use crate::decimal::decimal_up_to;
use crate::error::ConfigErrorView;
use crate::file::{file_layer, source_layer, FileSourceView};
use crate::key::{Key, Variant};
use crate::resolve::{assembled, base_overrides, layers, resolution, resolved, text_at};
use crate::settings::{ConfigView, PendingConfigView, ResolutionView, VariantConfigView};
use crate::stages::{default_layer, default_value};
use crate::trusted::decoded_ohttp_keys;
use crate::value::Val;

verus! {

/// Whether the source at position `i` is the last that defines `key`.
pub open spec fn last_defining(sources: Seq<Map<Key, Val>>, key: Key, i: int) -> bool {
    &&& 0 <= i < sources.len()
    &&& sources[i].contains_key(key)
    &&& forall|j: int| i < j < sources.len() ==> !sources[j].contains_key(key)
}

/// Whether no source defines `key`.
pub open spec fn none_defining(sources: Seq<Map<Key, Val>>, key: Key) -> bool {
    forall|j: int| 0 <= j < sources.len() ==> !sources[j].contains_key(key)
}

/// Among a base and the sources laid over it, the last source that defines a
/// key gives the key's value; where no source defines it, the base does.
pub proof fn lemma_last_source_wins(base: Map<Key, Val>, sources: Seq<Map<Key, Val>>, key: Key)
    ensures
        forall|i: int| #[trigger]
            last_defining(sources, key, i) ==> overlay_all(base, sources).contains_key(key)
                && overlay_all(base, sources)[key] == sources[i][key],
        none_defining(sources, key) ==> (overlay_all(base, sources).contains_key(key)
            <==> base.contains_key(key)),
        none_defining(sources, key) && base.contains_key(key) ==> overlay_all(base, sources)[key]
            == base[key],
    decreases sources.len(),
{
    if sources.len() > 0 {
        let front = sources.drop_last();
        lemma_last_source_wins(base, front, key);
        assert forall|i: int| #[trigger] last_defining(sources, key, i) implies overlay_all(
            base,
            sources,
        ).contains_key(key) && overlay_all(base, sources)[key] == sources[i][key] by {
            if i < sources.len() - 1 {
                assert(last_defining(front, key, i));
            }
        }
    }
}

/// Precedence: the value of a key in the flattened configuration is the value
/// that the highest layer which defines the key gives it. The overrides are
/// above every source, a source is above those added before it, and the
/// defaults are below all. A key that no layer defines has no value.
pub proof fn lemma_highest_layer_wins(
    defaults: Map<Key, Val>,
    sources: Seq<Map<Key, Val>>,
    overrides: Map<Key, Val>,
    key: Key,
)
    ensures
        overrides.contains_key(key) ==> flatten(defaults, sources, overrides).contains_key(key)
            && flatten(defaults, sources, overrides)[key] == overrides[key],
        !overrides.contains_key(key) ==> forall|i: int| #[trigger]
            last_defining(sources, key, i) ==> flatten(defaults, sources, overrides).contains_key(
                key,
            ) && flatten(defaults, sources, overrides)[key] == sources[i][key],
        !overrides.contains_key(key) && none_defining(sources, key) && defaults.contains_key(key)
            ==> flatten(defaults, sources, overrides).contains_key(key) && flatten(
            defaults,
            sources,
            overrides,
        )[key] == defaults[key],
        !overrides.contains_key(key) && none_defining(sources, key) && !defaults.contains_key(key)
            ==> !flatten(defaults, sources, overrides).contains_key(key),
{
    lemma_last_source_wins(defaults, sources, key);
}

/// The layer of the file, where there is a file and it is read and
/// well-formed.
pub open spec fn file_values(variant: Variant, file: FileSourceView) -> Map<Key, Val> {
    match source_layer(variant, file) {
        Ok(Some(layer)) => layer,
        _ => Map::empty(),
    }
}

/// Precedence of the three layers of a resolution: a key takes the value of
/// its flag where the flag was given; else that of the file where the file
/// defines the key; else its default; and where it has none of these, no
/// value.
pub proof fn lemma_flag_over_file_over_default(
    variant: Variant,
    matches: &CliArgs,
    file: FileSourceView,
    key: Key,
)
    requires
        layers(variant, matches, file) is Ok,
    ensures
        ({
            let flat = layers(variant, matches, file)->Ok_0;
            let flag = matches.override_value(variant, key);
            let in_file = file_values(variant, file);
            let default = default_value(variant, key);
            if flag is Some {
                flat.contains_key(key) && flat[key] == flag->0
            } else if in_file.contains_key(key) {
                flat.contains_key(key) && flat[key] == in_file[key]
            } else if default is Some {
                flat.contains_key(key) && flat[key] == default->0
            } else {
                !flat.contains_key(key)
            }
        }),
{
    match file {
        FileSourceView::Text(text) => {
            lemma_one_layer(default_layer(variant), file_layer(variant, text)->Ok_0);
        },
        _ => {},
    }
}

/// A flag that was not given clobbers nothing: the key keeps the value that
/// the file gives it.
pub proof fn lemma_omitted_flag_keeps_file_value(
    variant: Variant,
    matches: &CliArgs,
    file: FileSourceView,
    key: Key,
)
    requires
        layers(variant, matches, file) is Ok,
        matches.flag(variant, key) is None,
        file_values(variant, file).contains_key(key),
    ensures
        layers(variant, matches, file)->Ok_0.contains_key(key),
        layers(variant, matches, file)->Ok_0[key] == file_values(variant, file)[key],
{
    lemma_flag_over_file_over_default(variant, matches, file, key);
}

/// `receive` with a fee rate that is no number up to `u64::MAX` does not
/// resolve, whatever the other layers hold.
pub proof fn lemma_bad_fee_rate_fails(variant: Variant, matches: &CliArgs, file: FileSourceView)
    requires
        matches.flag(variant, Key::MaxFeeRate) matches Some(text) && decimal_up_to(
            text,
            u64::MAX as nat,
        ) is None,
    ensures
        resolution(variant, matches, file) is Err,
{
    if layers(variant, matches, file) is Ok {
        let flat = layers(variant, matches, file)->Ok_0;
        lemma_flag_over_file_over_default(variant, matches, file, Key::MaxFeeRate);
        assert(invalid_at(variant, flat, Key::MaxFeeRate));
        lemma_first_invalid(variant, flat, 0);
    }
}

/// A file that is there and could not be read does not resolve, whatever the
/// flags give: where the command line can be taken, the error is the reason
/// of the read. A file that is missing is no error of its own.
pub proof fn lemma_unreadable_file_fails(variant: Variant, matches: &CliArgs, reason: Seq<char>)
    ensures
        resolution(variant, matches, FileSourceView::Unreadable(reason)) is Err,
        !matches.port_error(variant) ==> resolution(
            variant,
            matches,
            FileSourceView::Unreadable(reason),
        ) == Err::<ResolutionView, _>(ConfigErrorView::FileRead(reason)),
        layers(variant, matches, FileSourceView::Missing) is Err ==> matches.port_error(variant),
{
}

/// The layers of a command line of which only the flags common to all
/// subcommands count.
pub open spec fn base_layers(variant: Variant, matches: &CliArgs, file: FileSourceView) -> Result<
    Map<Key, Val>,
    ConfigErrorView,
> {
    match source_layer(variant, file) {
        Ok(Some(layer)) => Ok(
            flatten(default_layer(variant), seq![layer], base_overrides(variant, matches)),
        ),
        Ok(None) => Ok(
            flatten(default_layer(variant), Seq::empty(), base_overrides(variant, matches)),
        ),
        Err(e) => Err(e),
    }
}

/// `send` and `resume` override nothing of their own: the configuration
/// resolves as the defaults, the file and the common flags alone make it.
pub proof fn lemma_send_and_resume_add_nothing(
    variant: Variant,
    matches: &CliArgs,
    file: FileSourceView,
)
    requires
        !(matches.subcommand is Receive),
    ensures
        layers(variant, matches, file) == base_layers(variant, matches, file),
        resolution(variant, matches, file) == match base_layers(variant, matches, file) {
            Ok(flat) => resolved(variant, flat),
            Err(e) => Err(e),
        },
{
    assert(matches.overrides(variant)->Ok_0 =~= base_overrides(variant, matches));
}

/// A resolved configuration holds the settings of the active variant and of
/// no other. The second variant alone can be pending on a key bundle, and
/// what it becomes with its keys holds the settings of the second variant.
pub proof fn lemma_one_variant(variant: Variant, flat: Map<Key, Val>)
    ensures
        match assembled(variant, flat) {
            Ok(ResolutionView::Complete(config)) => (variant == Variant::V1 <==> config.variant is V1)
                && (variant == Variant::V2 <==> config.variant is V2),
            Ok(ResolutionView::KeyBundle(pending)) => variant == Variant::V2 && forall|
                keys: Option<Seq<u8>>,
            | #[trigger] pending.with_keys(keys).variant is V2,
            Err(_) => true,
        },
{
}

/// Where no key bundle is named, the configuration of the second variant is
/// complete without any read, and holds no keys.
pub proof fn lemma_no_key_bundle_is_complete(flat: Map<Key, Val>)
    requires
        assembled(Variant::V2, flat) is Ok,
        text_at(flat, Key::V2OhttpKeys) == Ok::<Option<Seq<char>>, ConfigErrorView>(None),
    ensures
        assembled(Variant::V2, flat) matches Ok(ResolutionView::Complete(config))
            && config.variant matches VariantConfigView::V2(v2) && v2.ohttp_keys is None,
{
}

/// What a pending configuration becomes: a file that could not be read gives
/// the read's reason as error, bytes that do not decode give the decoder's
/// report as error, and bytes that decode give the keys.
pub proof fn lemma_key_bundle_outcomes(pending: PendingConfigView, read: Result<Seq<u8>, Seq<char>>)
    ensures
        match read {
            Err(reason) => pending.finished(read) == Err::<ConfigView, _>(
                ConfigErrorView::KeyBundleRead(reason),
            ),
            Ok(bytes) => match decoded_ohttp_keys(bytes) {
                Err(report) => pending.finished(read) == Err::<ConfigView, _>(
                    ConfigErrorView::KeyBundleDecode(report),
                ),
                Ok(encoded) => pending.finished(read) == Ok::<_, ConfigErrorView>(
                    pending.with_keys(Some(encoded)),
                ),
            },
        },
{
}

/// The value that a resolution holds for `key`, in the form of the key's
/// type, or `None` where it holds none. The path of a key bundle is held
/// while the bundle is pending.
pub open spec fn value_of(resolution: ResolutionView, key: Key) -> Option<Val> {
    let (db_path, max_fee_rate, bitcoind) = match resolution {
        ResolutionView::Complete(config) => (config.db_path, config.max_fee_rate, config.bitcoind),
        ResolutionView::KeyBundle(pending) => (
            pending.db_path,
            pending.max_fee_rate,
            pending.bitcoind,
        ),
    };
    match key {
        Key::DbPath => Some(Val::Text(db_path)),
        Key::MaxFeeRate => match max_fee_rate {
            Some(rate) => Some(Val::Integer(rate)),
            None => None,
        },
        Key::RpcHost => Some(Val::Text(bitcoind.rpchost)),
        Key::Cookie => match bitcoind.cookie {
            Some(path) => Some(Val::Text(path)),
            None => None,
        },
        Key::RpcUser => Some(Val::Text(bitcoind.rpcuser)),
        Key::RpcPassword => Some(Val::Text(bitcoind.rpcpassword)),
        Key::V1Port => match resolution {
            ResolutionView::Complete(
                ConfigView { variant: VariantConfigView::V1(v1), .. },
            ) => Some(Val::Integer(v1.port as u64)),
            _ => None,
        },
        Key::V1PjEndpoint => match resolution {
            ResolutionView::Complete(
                ConfigView { variant: VariantConfigView::V1(v1), .. },
            ) => Some(Val::Text(v1.pj_endpoint)),
            _ => None,
        },
        Key::V2OhttpKeys => match resolution {
            ResolutionView::KeyBundle(pending) => Some(Val::Text(pending.path)),
            _ => None,
        },
        Key::V2OhttpRelay => match resolution {
            ResolutionView::Complete(
                ConfigView { variant: VariantConfigView::V2(v2), .. },
            ) => Some(Val::Text(v2.ohttp_relay)),
            ResolutionView::KeyBundle(pending) => Some(Val::Text(pending.ohttp_relay)),
            _ => None,
        },
        Key::V2PjDirectory => match resolution {
            ResolutionView::Complete(
                ConfigView { variant: VariantConfigView::V2(v2), .. },
            ) => Some(Val::Text(v2.pj_directory)),
            ResolutionView::KeyBundle(pending) => Some(Val::Text(pending.pj_directory)),
            _ => None,
        },
    }
}

/// What a value of the layers becomes in the resolution: nothing where it is
/// absent or `Nil`, else the form that the key's type gives it.
pub open spec fn resolved_form(key: Key, value: Option<Val>) -> Option<Val> {
    match value {
        Some(Val::Nil) => None,
        Some(v) => canonical(key.kind(), v),
        None => None,
    }
}

/// A resolution holds, for each key of the schema, the value that the flat
/// configuration gives the key, in the form of the key's type.
pub proof fn lemma_resolved_value(variant: Variant, flat: Map<Key, Val>, key: Key)
    requires
        resolved(variant, flat) is Ok,
        key.in_schema(variant),
    ensures
        value_of(resolved(variant, flat)->Ok_0, key) == resolved_form(
            key,
            if flat.contains_key(key) {
                Some(flat[key])
            } else {
                None
            },
        ),
{
    lemma_first_invalid(variant, flat, 0);
    assert(!invalid_at(variant, flat, key));
}

/// The value that the highest layer which defines `key` gives it: that of
/// the flag, else that of the file, else the default.
pub open spec fn winning_value(
    variant: Variant,
    matches: &CliArgs,
    file: FileSourceView,
    key: Key,
) -> Option<Val> {
    if matches.override_value(variant, key) is Some {
        matches.override_value(variant, key)
    } else if file_values(variant, file).contains_key(key) {
        Some(file_values(variant, file)[key])
    } else {
        default_value(variant, key)
    }
}

/// Precedence, from end to end: what a configuration that resolves holds for
/// a key of the schema is the value of the highest layer that defines the
/// key, in the form of the key's type.
pub proof fn lemma_resolution_takes_highest_layer(
    variant: Variant,
    matches: &CliArgs,
    file: FileSourceView,
    key: Key,
)
    requires
        resolution(variant, matches, file) is Ok,
        key.in_schema(variant),
    ensures
        value_of(resolution(variant, matches, file)->Ok_0, key) == resolved_form(
            key,
            winning_value(variant, matches, file, key),
        ),
{
    lemma_flag_over_file_over_default(variant, matches, file, key);
    lemma_resolved_value(variant, layers(variant, matches, file)->Ok_0, key);
}

} // verus!
