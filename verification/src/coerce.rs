//! Coercion: each value of a flat configuration is brought to the one form
//! that the type of its key has.

use vstd::prelude::*;
use crate::builder::{FlatConfig, FlatConfigView};
use crate::decimal::{decimal_up_to, parse_decimal};
use crate::error::{outcome, ConfigError, ConfigErrorView};
use crate::key::{Key, Kind, Variant, KEY_COUNT};
use crate::layer::Layer;
use crate::trusted::{parse_url, parsed_url};
use crate::value::{Val, Value};

verus! {

/// The largest number that a value of a type can be.
pub open spec fn limit(kind: Kind) -> nat {
    match kind {
        Kind::Port => u16::MAX as nat,
        _ => u64::MAX as nat,
    }
}

/// The form that a value takes as a value of type `kind`, or `None` where it
/// is no value of that type. `Nil` is an absent value of every type. A text
/// stays as it is; a URL becomes its serialization; a port or a fee rate
/// becomes the number that it is or that its text stands for.
pub open spec fn canonical(kind: Kind, value: Val) -> Option<Val> {
    match value {
        Val::Nil => Some(Val::Nil),
        Val::Mistyped => None,
        Val::Text(text) => match kind {
            Kind::Text => Some(Val::Text(text)),
            Kind::Url => match parsed_url(text) {
                Some(url) => Some(Val::Text(url)),
                None => None,
            },
            Kind::Port | Kind::FeeRate => match decimal_up_to(text, limit(kind)) {
                Some(n) => Some(Val::Integer(n as u64)),
                None => None,
            },
        },
        Val::Integer(n) => match kind {
            Kind::Port | Kind::FeeRate => if n <= limit(kind) {
                Some(Val::Integer(n))
            } else {
                None
            },
            _ => None,
        },
    }
}

/// Whether `key` belongs to the schema and has a value that is none of its
/// type.
pub open spec fn invalid_at(variant: Variant, flat: Map<Key, Val>, key: Key) -> bool {
    key.in_schema(variant) && flat.contains_key(key) && canonical(key.kind(), flat[key]) is None
}

/// The first key, from position `from` on, whose value is none of its type.
pub open spec fn first_invalid(variant: Variant, flat: Map<Key, Val>, from: int) -> Option<Key>
    decreases KEY_COUNT - from,
{
    if from >= KEY_COUNT {
        None
    } else if Key::at(from) matches Some(key) && invalid_at(variant, flat, key) {
        Key::at(from)
    } else {
        first_invalid(variant, flat, from + 1)
    }
}

/// The coerced configuration: the keys of the schema that have a value, each
/// with the form of its type, or the error of the first key whose value is
/// none of its type. Keys outside the schema are left out.
pub open spec fn coerced(variant: Variant, flat: Map<Key, Val>) -> Result<
    Map<Key, Val>,
    ConfigErrorView,
> {
    match first_invalid(variant, flat, 0) {
        Some(key) => Err(ConfigErrorView::InvalidValue(key)),
        None => Ok(
            Map::new(
                |k: Key| k.in_schema(variant) && flat.contains_key(k),
                |k: Key| canonical(k.kind(), flat[k]).unwrap(),
            ),
        ),
    }
}

/// The coerced configuration of a flat one, under the same variant.
pub open spec fn coerced_config(flat: FlatConfigView) -> Result<FlatConfigView, ConfigErrorView> {
    match coerced(flat.variant, flat.values) {
        Ok(values) => Ok(FlatConfigView { variant: flat.variant, values }),
        Err(e) => Err(e),
    }
}

/// Brings a value to the form of a type.
pub fn coerce_value(kind: Kind, value: &Value) -> (r: Option<Value>)
    ensures
        r.deep_view() == canonical(kind, value@),
{
    match value {
        Value::Nil => Some(Value::Nil),
        Value::Mistyped => None,
        Value::Text(text) => match kind {
            Kind::Text => Some(Value::Text(text.clone())),
            Kind::Url => match parse_url(text.as_str()) {
                Some(url) => Some(Value::Text(url)),
                None => None,
            },
            Kind::Port => match parse_decimal(text.as_str(), 65535) {
                Some(n) => Some(Value::Integer(n)),
                None => None,
            },
            Kind::FeeRate => match parse_decimal(text.as_str(), u64::MAX) {
                Some(n) => Some(Value::Integer(n)),
                None => None,
            },
        },
        Value::Integer(n) => match kind {
            Kind::Port => if *n <= u16::MAX as u64 {
                Some(Value::Integer(*n))
            } else {
                None
            },
            Kind::FeeRate => Some(Value::Integer(*n)),
            _ => None,
        },
    }
}

impl FlatConfig {
    /// Coerces the value of each key of the schema to the type of the key, in
    /// the order of the keys.
    pub fn coerce(&self) -> (r: Result<FlatConfig, ConfigError>)
        ensures
            outcome(r) == coerced_config(self@),
    {
        let ghost flat = self.values@;
        let variant = self.variant;
        let mut values = Layer::new();
        let mut i: usize = 0;
        while i < KEY_COUNT
            invariant
                i <= KEY_COUNT,
                flat == self.values@,
                variant == self.variant,
                first_invalid(variant, flat, 0) == first_invalid(variant, flat, i as int),
                values@ == Map::new(
                    |k: Key| k.ord() < i && k.in_schema(variant) && flat.contains_key(k),
                    |k: Key| canonical(k.kind(), flat[k]).unwrap(),
                ),
            decreases KEY_COUNT - i,
        {
            let key = Key::from_index(i).unwrap();
            if key.is_in_schema(variant) {
                match self.values.get(key) {
                    Some(value) => match coerce_value(key.value_kind(), value) {
                        Some(v) => {
                            values = values.set(key, v);
                        },
                        None => {
                            return Err(ConfigError::InvalidValue(key));
                        },
                    },
                    None => {},
                }
            }
            i += 1;
        }
        assert(values@ =~= Map::new(
            |k: Key| k.in_schema(variant) && flat.contains_key(k),
            |k: Key| canonical(k.kind(), flat[k]).unwrap(),
        ));
        Ok(FlatConfig { variant, values })
    }
}

/// A key whose value is none of its type makes coercion fail, and coercion
/// fails on such a key alone.
pub proof fn lemma_first_invalid(variant: Variant, flat: Map<Key, Val>, from: int)
    requires
        0 <= from,
    ensures
        first_invalid(variant, flat, from) matches Some(k) ==> invalid_at(variant, flat, k)
            && from <= k.ord(),
        first_invalid(variant, flat, from) is None ==> forall|k: Key|
            from <= k.ord() ==> !invalid_at(variant, flat, k),
    decreases KEY_COUNT - from,
{
    if from < KEY_COUNT {
        lemma_first_invalid(variant, flat, from + 1);
    }
}

} // verus!
