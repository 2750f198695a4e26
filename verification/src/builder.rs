//! The builder that gathers the layers, and the flat configuration that it
//! builds from them.

use vstd::prelude::*;
use crate::error::{outcome, ConfigError, ConfigErrorView};
use crate::file::{file_layer, parse_file};
use crate::key::{Key, Variant};
use crate::layer::Layer;
use crate::value::{Val, Value};

verus! {

/// `layers` laid over `base` one after the other, so that a later layer wins
/// over an earlier one.
pub open spec fn overlay_all(base: Map<Key, Val>, layers: Seq<Map<Key, Val>>) -> Map<Key, Val>
    decreases layers.len(),
{
    if layers.len() == 0 {
        base
    } else {
        overlay_all(base, layers.drop_last()).union_prefer_right(layers.last())
    }
}

/// The one mapping that the layers flatten to: the defaults, under the
/// sources in their order, under the overrides.
pub open spec fn flatten(
    defaults: Map<Key, Val>,
    sources: Seq<Map<Key, Val>>,
    overrides: Map<Key, Val>,
) -> Map<Key, Val> {
    overlay_all(defaults, sources).union_prefer_right(overrides)
}

/// The layers that the texts of file sources make, or the error of the first
/// text that is not well-formed.
pub open spec fn file_layers(variant: Variant, texts: Seq<Seq<char>>) -> Result<
    Seq<Map<Key, Val>>,
    ConfigErrorView,
>
    decreases texts.len(),
{
    if texts.len() == 0 {
        Ok(Seq::empty())
    } else {
        match file_layers(variant, texts.drop_last()) {
            Ok(layers) => match file_layer(variant, texts.last()) {
                Ok(layer) => Ok(layers.push(layer)),
                Err(e) => Err(e),
            },
            Err(e) => Err(e),
        }
    }
}

/// `map` with `key` set to `value` where there is one, unchanged where there
/// is none.
pub open spec fn put(map: Map<Key, Val>, key: Key, value: Option<Val>) -> Map<Key, Val> {
    match value {
        Some(v) => map.insert(key, v),
        None => map,
    }
}

/// A flat configuration: the one value of each key that some layer sets.
#[derive(Debug)]
pub struct FlatConfig {
    /// The variant whose schema the configuration is read by.
    pub variant: Variant,
    /// The flattened layers.
    pub values: Layer,
}

/// The mathematical model of a [`FlatConfig`].
pub struct FlatConfigView {
    pub variant: Variant,
    pub values: Map<Key, Val>,
}

impl View for FlatConfig {
    type V = FlatConfigView;

    open spec fn view(&self) -> FlatConfigView {
        FlatConfigView { variant: self.variant, values: self.values@ }
    }
}

impl DeepView for FlatConfig {
    type V = FlatConfigView;

    open spec fn deep_view(&self) -> FlatConfigView {
        self@
    }
}

impl FlatConfig {
    /// Flattens layers that are at hand: the defaults, under `sources` in
    /// their order, under the overrides.
    pub fn merge(variant: Variant, defaults: Layer, sources: &Vec<Layer>, overrides: &Layer) -> (flat:
        FlatConfig)
        ensures
            flat@ == (FlatConfigView {
                variant,
                values: flatten(defaults@, sources.deep_view(), overrides@),
            }),
    {
        let ghost base = defaults@;
        let ghost layers = sources.deep_view();
        let mut values = defaults;
        let mut i: usize = 0;
        while i < sources.len()
            invariant
                i <= sources.len(),
                layers == sources.deep_view(),
                values@ == overlay_all(base, layers.take(i as int)),
            decreases sources.len() - i,
        {
            values = values.overlay(&sources[i]);
            proof {
                let next = layers.take(i + 1);
                assert(next.drop_last() =~= layers.take(i as int));
            }
            i += 1;
        }
        assert(layers.take(i as int) =~= layers);
        FlatConfig { variant, values: values.overlay(overrides) }
    }

    /// The value of `key`, if a layer set it.
    pub fn get(&self, key: Key) -> (value: Option<&Value>)
        ensures
            match value {
                Some(v) => self.values@.contains_key(key) && self.values@[key] == v@,
                None => !self.values@.contains_key(key),
            },
    {
        self.values.get(key)
    }
}

/// Gathers the layers of a configuration: defaults, file sources and
/// overrides. Nothing is read or flattened before [`Builder::build`].
#[derive(Debug)]
pub struct Builder {
    /// The variant whose schema the configuration is read by.
    pub variant: Variant,
    /// The layer of lowest precedence.
    pub defaults: Layer,
    /// The texts of the file sources, in the order in which they were added.
    pub sources: Vec<String>,
    /// The layer of highest precedence.
    pub overrides: Layer,
}

impl Builder {
    /// What the builder builds: the flattened layers, or the error of the
    /// first file source that is not well-formed.
    pub open spec fn built(&self) -> Result<FlatConfigView, ConfigErrorView> {
        match file_layers(self.variant, self.sources.deep_view()) {
            Ok(layers) => Ok(
                FlatConfigView {
                    variant: self.variant,
                    values: flatten(self.defaults@, layers, self.overrides@),
                },
            ),
            Err(e) => Err(e),
        }
    }

    /// A builder without any layer.
    pub fn new(variant: Variant) -> (builder: Builder)
        ensures
            builder.variant == variant,
            builder.defaults@ == Map::<Key, Val>::empty(),
            builder.sources.deep_view() == Seq::<Seq<char>>::empty(),
            builder.overrides@ == Map::<Key, Val>::empty(),
    {
        let builder = Builder {
            variant,
            defaults: Layer::new(),
            sources: Vec::new(),
            overrides: Layer::new(),
        };
        builder
    }

    /// Sets the default of `key`.
    pub fn set_default(self, key: Key, value: Value) -> (builder: Builder)
        ensures
            builder.variant == self.variant,
            builder.defaults@ == self.defaults@.insert(key, value@),
            builder.sources == self.sources,
            builder.overrides == self.overrides,
    {
        Builder {
            variant: self.variant,
            defaults: self.defaults.set(key, value),
            sources: self.sources,
            overrides: self.overrides,
        }
    }

    /// Overrides `key` with `value` where there is one. Without a value the
    /// builder is left as it was, so that the lower layers keep their say.
    pub fn set_override_option(self, key: Key, value: Option<Value>) -> (builder: Builder)
        ensures
            builder.variant == self.variant,
            builder.defaults == self.defaults,
            builder.sources == self.sources,
            builder.overrides@ == put(self.overrides@, key, value.deep_view()),
            value is None ==> builder == self,
    {
        match value {
            Some(v) => Builder {
                variant: self.variant,
                defaults: self.defaults,
                sources: self.sources,
                overrides: self.overrides.set(key, v),
            },
            None => self,
        }
    }

    /// Adds the text of a file as a source, above the sources added before.
    pub fn add_source(self, text: String) -> (builder: Builder)
        ensures
            builder.variant == self.variant,
            builder.defaults == self.defaults,
            builder.sources.deep_view() == self.sources.deep_view().push(text@),
            builder.overrides == self.overrides,
    {
        let mut sources = self.sources;
        sources.push(text);
        let builder = Builder {
            variant: self.variant,
            defaults: self.defaults,
            sources,
            overrides: self.overrides,
        };
        builder
    }

    /// Reads the file sources and flattens the layers.
    pub fn build(self) -> (r: Result<FlatConfig, ConfigError>)
        ensures
            outcome(r) == self.built(),
    {
        let ghost texts = self.sources.deep_view();
        let mut layers: Vec<Layer> = Vec::new();
        let mut i: usize = 0;
        assert(layers.deep_view() =~= Seq::<Map<Key, Val>>::empty());
        while i < self.sources.len()
            invariant
                i <= self.sources.len(),
                texts == self.sources.deep_view(),
                file_layers(self.variant, texts.take(i as int)) == Ok::<_, ConfigErrorView>(
                    layers.deep_view(),
                ),
            decreases self.sources.len() - i,
        {
            let ghost next = texts.take(i + 1);
            let ghost before = layers.deep_view();
            proof {
                assert(next.drop_last() =~= texts.take(i as int));
            }
            match parse_file(self.variant, self.sources[i].as_str()) {
                Ok(layer) => {
                    layers.push(layer);
                    assert(layers.deep_view() =~= before.push(layer@));
                },
                Err(e) => {
                    proof {
                        lemma_first_error_stays(self.variant, texts, i + 1);
                    }
                    return Err(e);
                },
            }
            i += 1;
        }
        assert(texts.take(i as int) =~= texts);
        Ok(FlatConfig::merge(self.variant, self.defaults, &layers, &self.overrides))
    }
}

/// An error among the first `n` texts is the error of all the texts.
pub proof fn lemma_first_error_stays(variant: Variant, texts: Seq<Seq<char>>, n: int)
    requires
        0 <= n <= texts.len(),
        file_layers(variant, texts.take(n)) is Err,
    ensures
        file_layers(variant, texts) == file_layers(variant, texts.take(n)),
    decreases texts.len(),
{
    if n == texts.len() {
        assert(texts.take(n) =~= texts);
    } else {
        assert(texts.drop_last().take(n) =~= texts.take(n));
        lemma_first_error_stays(variant, texts.drop_last(), n);
    }
}

/// One text makes one layer, or its own error.
pub proof fn lemma_one_source(variant: Variant, text: Seq<char>)
    ensures
        file_layers(variant, seq![text]) == match file_layer(variant, text) {
            Ok(layer) => Ok::<_, ConfigErrorView>(seq![layer]),
            Err(e) => Err(e),
        },
{
    reveal_with_fuel(file_layers, 2);
    match file_layer(variant, text) {
        Ok(layer) => assert(Seq::<Map<Key, Val>>::empty().push(layer) =~= seq![layer]),
        Err(_) => {},
    }
}

/// One layer over a base is their union, in which the layer wins.
pub proof fn lemma_one_layer(base: Map<Key, Val>, layer: Map<Key, Val>)
    ensures
        overlay_all(base, seq![layer]) == base.union_prefer_right(layer),
{
    reveal_with_fuel(overlay_all, 2);
}

} // verus!
