//! The file layer: what a TOML file gives the keys of a variant's schema.

use vstd::prelude::*;
use vstd::utf8::encode_utf8;
use crate::error::{outcome, ConfigError, ConfigErrorView};
use crate::key::{Key, Variant, KEY_COUNT};
use crate::layer::Layer;
use crate::nesting::{nests_within, nests_within_limits};
use crate::trusted::{
    entry_val, parse_toml, table_entries, table_get, table_section, table_sections, toml_root,
    ParsedTable,
};
use crate::value::{Val, Value};

verus! {

/// What reading the configuration file gave.
#[derive(Debug, PartialEq, Eq)]
pub enum FileSource {
    /// There is no file. That is no error: the file gives no layer.
    Missing,
    /// The file is there and could not be read; the reason.
    Unreadable(String),
    /// The text of the file.
    Text(String),
}

/// The mathematical model of a [`FileSource`].
pub enum FileSourceView {
    Missing,
    Unreadable(Seq<char>),
    Text(Seq<char>),
}

impl View for FileSource {
    type V = FileSourceView;

    open spec fn view(&self) -> FileSourceView {
        match self {
            FileSource::Missing => FileSourceView::Missing,
            FileSource::Unreadable(reason) => FileSourceView::Unreadable(reason@),
            FileSource::Text(text) => FileSourceView::Text(text@),
        }
    }
}

/// What the error says of a file that nests beyond the limits.
pub const TOO_NESTED: &'static str =
    "the file nests tables or arrays more than 16 deep, or has a dotted name of more than 8 parts";

/// Whether a text nests within the limits, and so can be handed to the
/// parser.
pub open spec fn within_nesting(text: Seq<char>) -> bool {
    nests_within(encode_utf8(text))
}

/// The value that a file gives `key`, from what its root table holds and
/// from the tables within it. A key at the top of the file takes what the
/// root holds under its name. A key of a section takes what the section's
/// table holds under its name; where the file gives the section's name a
/// value that is no table, each key of the section is mistyped.
pub open spec fn entry_of(
    entries: Map<Seq<char>, Option<Seq<char>>>,
    sections: Map<Seq<char>, Map<Seq<char>, Option<Seq<char>>>>,
    key: Key,
) -> Option<Val> {
    match key.section_spec() {
        None => if entries.contains_key(key.field_spec()) {
            Some(entry_val(entries[key.field_spec()]))
        } else {
            None
        },
        Some(section) => if sections.contains_key(section) {
            if sections[section].contains_key(key.field_spec()) {
                Some(entry_val(sections[section][key.field_spec()]))
            } else {
                None
            }
        } else if entries.contains_key(section) {
            Some(Val::Mistyped)
        } else {
            None
        },
    }
}

/// The layer that a file makes: it sets each key of the variant's schema to
/// which the file gives a value, and nothing else. What the file holds under
/// other names is not read.
pub open spec fn entries_layer(
    variant: Variant,
    entries: Map<Seq<char>, Option<Seq<char>>>,
    sections: Map<Seq<char>, Map<Seq<char>, Option<Seq<char>>>>,
) -> Map<Key, Val> {
    Map::new(
        |k: Key| k.in_schema(variant) && entry_of(entries, sections, k) is Some,
        |k: Key| entry_of(entries, sections, k).unwrap(),
    )
}

/// The layer that the text of a file makes, or the error for a text that
/// nests beyond the limits or is not well-formed.
pub open spec fn file_layer(variant: Variant, text: Seq<char>) -> Result<
    Map<Key, Val>,
    ConfigErrorView,
> {
    if !within_nesting(text) {
        Err(ConfigErrorView::FileParse(TOO_NESTED@))
    } else {
        match toml_root(text) {
            Ok((entries, sections)) => Ok(entries_layer(variant, entries, sections)),
            Err(report) => Err(ConfigErrorView::FileParse(report)),
        }
    }
}

/// The layer that the file source makes: none for a file that is missing, the
/// error for one that could not be read or is not well-formed.
pub open spec fn source_layer(variant: Variant, file: FileSourceView) -> Result<
    Option<Map<Key, Val>>,
    ConfigErrorView,
> {
    match file {
        FileSourceView::Missing => Ok(None),
        FileSourceView::Unreadable(reason) => Err(ConfigErrorView::FileRead(reason)),
        FileSourceView::Text(text) => match file_layer(variant, text) {
            Ok(layer) => Ok(Some(layer)),
            Err(e) => Err(e),
        },
    }
}

/// The value that a parsed file gives `key`.
fn file_entry(root: &ParsedTable, key: Key) -> (value: Option<Value>)
    ensures
        value.deep_view() == entry_of(table_entries(*root), table_sections(*root), key),
{
    match key.section() {
        None => table_get(root, key.field()),
        Some(section) => match table_section(root, section) {
            Some(table) => table_get(&table, key.field()),
            None => match table_get(root, section) {
                Some(_) => Some(Value::Mistyped),
                None => None,
            },
        },
    }
}

/// The layer that a parsed file makes for a variant.
pub(crate) fn layer_of_file(variant: Variant, root: &ParsedTable) -> (layer: Layer)
    ensures
        layer@ == entries_layer(variant, table_entries(*root), table_sections(*root)),
{
    let ghost entries = table_entries(*root);
    let ghost sections = table_sections(*root);
    let mut layer = Layer::new();
    let mut i: usize = 0;
    while i < KEY_COUNT
        invariant
            i <= KEY_COUNT,
            entries == table_entries(*root),
            sections == table_sections(*root),
            layer@ == Map::new(
                |k: Key| k.ord() < i && k.in_schema(variant) && entry_of(entries, sections, k) is Some,
                |k: Key| entry_of(entries, sections, k).unwrap(),
            ),
        decreases KEY_COUNT - i,
    {
        let key = Key::from_index(i).unwrap();
        if key.is_in_schema(variant) {
            match file_entry(root, key) {
                Some(value) => {
                    layer = layer.set(key, value);
                },
                None => {},
            }
        }
        i += 1;
    }
    layer
}

/// Reads a layer from the text of a TOML file. The text must be well-formed
/// and nest within the limits; which names it defines is up to it, and so is
/// its size.
pub fn parse_file(variant: Variant, text: &str) -> (r: Result<Layer, ConfigError>)
    ensures
        outcome(r) == file_layer(variant, text@),
{
    if !nests_within_limits(text.as_bytes()) {
        return Err(ConfigError::FileParse(TOO_NESTED.to_owned()));
    }
    match parse_toml(text) {
        Ok(root) => Ok(layer_of_file(variant, &root)),
        Err(report) => Err(ConfigError::FileParse(report)),
    }
}

} // verus!
