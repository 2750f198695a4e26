//! The calls that leave this crate. Verus takes the contracts in this file on
//! trust: each states what the called function's source or documentation says.

use vstd::prelude::*;
use crate::file::within_nesting;
use crate::value::{Val, Value};

verus! {

/// The value that an entry of a table gives its name.
pub open spec fn entry_val(entry: Option<Seq<char>>) -> Val {
    match entry {
        Some(text) => Val::Text(text),
        None => Val::Mistyped,
    }
}

/// A table of a TOML file as the `config` crate holds it: the crate's map
/// from the names of the table to their values.
#[verifier::external_body]
pub struct ParsedTable {
    inner: config::Map<String, config::Value>,
}

/// What a table holds under each of its names: the text of the value, or
/// `None` where the value has no text form (a table or an array).
pub uninterp spec fn table_entries(table: ParsedTable) -> Map<Seq<char>, Option<Seq<char>>>;

/// The tables within a table: each name whose value is a table, with what
/// that table holds under each of its names.
pub uninterp spec fn table_sections(table: ParsedTable) -> Map<
    Seq<char>,
    Map<Seq<char>, Option<Seq<char>>>,
>;

/// What a TOML text parses to: what its root table holds and the tables
/// within it, or the parser's report.
pub uninterp spec fn toml_root(text: Seq<char>) -> Result<
    (Map<Seq<char>, Option<Seq<char>>>, Map<Seq<char>, Map<Seq<char>, Option<Seq<char>>>>),
    Seq<char>,
>;

/// The serialization of the URL that `url::Url::parse` reads from a text, or
/// `None` where it rejects the text.
pub uninterp spec fn parsed_url(text: Seq<char>) -> Option<Seq<char>>;

/// What `payjoin::OhttpKeys::decode` makes of a byte string: the encoding of
/// the key configuration it decodes to, or the decoder's report.
pub uninterp spec fn decoded_ohttp_keys(bytes: Seq<u8>) -> Result<Seq<u8>, Seq<char>>;

/// `config::Source::collect` on `config::File::from_str` with the TOML
/// format: parses `text` into its root table. No name of the file is read as
/// a path. The result depends on the text alone; a text that is no
/// well-formed TOML gives the parser's report. The parser and what follows
/// it go one call deeper for each table or array that lies in another, and
/// exhaust the stack on a text that nests some hundred deep. So the text
/// nests within the limits: with at most 16 brackets and braces open and
/// dotted names of at most 8 parts, no value lies more than 144 deep.
#[verifier::external_body]
pub(crate) fn parse_toml(text: &str) -> (r: Result<ParsedTable, String>)
    requires
        within_nesting(text@),
    ensures
        match r {
            Ok(root) => toml_root(text@) == Ok::<_, Seq<char>>(
                (table_entries(root), table_sections(root)),
            ),
            Err(report) => toml_root(text@) == Err::<
                (
                    Map<Seq<char>, Option<Seq<char>>>,
                    Map<Seq<char>, Map<Seq<char>, Option<Seq<char>>>>,
                ),
                _,
            >(report@),
        },
{
    match config::Source::collect(&config::File::from_str(text, config::FileFormat::Toml)) {
        Ok(inner) => Ok(ParsedTable { inner }),
        Err(e) => Err(e.to_string()),
    }
}

/// `get` on the crate's map, then `config::Value::into_string`: the value
/// that the table holds under `name`, as text. `None` where the table does
/// not hold the name; `Mistyped` where it does and the crate finds no text
/// form for the value.
#[verifier::external_body]
pub(crate) fn table_get(table: &ParsedTable, name: &str) -> (r: Option<Value>)
    ensures
        match r {
            None => !table_entries(*table).contains_key(name@),
            Some(value) => table_entries(*table).contains_key(name@) && value@ == entry_val(
                table_entries(*table)[name@],
            ),
        },
{
    match table.inner.get(name) {
        Some(value) => match value.clone().into_string() {
            Ok(text) => Some(Value::Text(text)),
            Err(_) => Some(Value::Mistyped),
        },
        None => None,
    }
}

/// `get` on the crate's map, then `config::Value::into_table`: the table
/// that the table holds under `name`. `None` where it does not hold the name,
/// or holds it with a value that is no table.
#[verifier::external_body]
pub(crate) fn table_section(table: &ParsedTable, name: &str) -> (r: Option<ParsedTable>)
    ensures
        match r {
            None => !table_sections(*table).contains_key(name@),
            Some(section) => table_sections(*table).contains_key(name@) && table_entries(section)
                == table_sections(*table)[name@],
        },
{
    match table.inner.get(name) {
        Some(value) => match value.clone().into_table() {
            Ok(inner) => Some(ParsedTable { inner }),
            Err(_) => None,
        },
        None => None,
    }
}

/// `url::Url::parse`, then the URL's serialization (`String::from`): `None`
/// where the text is no absolute URL.
#[verifier::external_body]
pub(crate) fn parse_url(text: &str) -> (r: Option<String>)
    ensures
        match r {
            Some(url) => parsed_url(text@) == Some(url@),
            None => parsed_url(text@) is None,
        },
{
    match url::Url::parse(text) {
        Ok(url) => Some(String::from(url)),
        Err(_) => None,
    }
}

/// `payjoin::OhttpKeys::decode`, then `encode` on what it gave: the bytes of
/// a key configuration are checked by decoding them, and the configuration is
/// handed back in its encoding. The error is the crate's report as text.
#[verifier::external_body]
pub(crate) fn decode_ohttp_keys(bytes: &[u8]) -> (r: Result<Vec<u8>, String>)
    ensures
        match r {
            Ok(encoded) => decoded_ohttp_keys(bytes@) == Ok::<_, Seq<char>>(encoded@),
            Err(report) => decoded_ohttp_keys(bytes@) == Err::<Seq<u8>, _>(report@),
        },
{
    match payjoin::OhttpKeys::decode(bytes) {
        Ok(keys) => match keys.encode() {
            Ok(encoded) => Ok(encoded),
            Err(e) => Err(e.to_string()),
        },
        Err(e) => Err(e.to_string()),
    }
}

} // verus!
