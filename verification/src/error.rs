//! The one error that resolving a configuration gives, with its causes.

use vstd::prelude::*;
use vstd::string::StringExecFns;
use crate::key::{Key, Kind};

verus! {

/// Why a configuration could not be resolved.
#[derive(Debug, PartialEq, Eq)]
pub enum ConfigError {
    /// No layer gives a value to a key that must have one.
    NotFound(Key),
    /// The value that the layers give a key is not of the key's type.
    InvalidValue(Key),
    /// A flag of the command line cannot be taken; the message says which
    /// and why.
    Message(String),
    /// The file is there and could not be read; the reason.
    FileRead(String),
    /// The file was read and cannot be parsed: it is not well-formed, or it
    /// nests its tables and arrays deeper than the library hands to the
    /// parser. The parser's report, or the library's own.
    FileParse(String),
    /// The key bundle's file could not be read; the reason.
    KeyBundleRead(String),
    /// The key bundle's bytes are no key configuration; the decoder's report.
    KeyBundleDecode(String),
}

/// The mathematical model of a [`ConfigError`].
pub enum ConfigErrorView {
    NotFound(Key),
    InvalidValue(Key),
    Message(Seq<char>),
    FileRead(Seq<char>),
    FileParse(Seq<char>),
    KeyBundleRead(Seq<char>),
    KeyBundleDecode(Seq<char>),
}

impl View for ConfigError {
    type V = ConfigErrorView;

    open spec fn view(&self) -> ConfigErrorView {
        match self {
            ConfigError::NotFound(key) => ConfigErrorView::NotFound(*key),
            ConfigError::InvalidValue(key) => ConfigErrorView::InvalidValue(*key),
            ConfigError::Message(text) => ConfigErrorView::Message(text@),
            ConfigError::FileRead(reason) => ConfigErrorView::FileRead(reason@),
            ConfigError::FileParse(report) => ConfigErrorView::FileParse(report@),
            ConfigError::KeyBundleRead(reason) => ConfigErrorView::KeyBundleRead(reason@),
            ConfigError::KeyBundleDecode(report) => ConfigErrorView::KeyBundleDecode(report@),
        }
    }
}

/// The mathematical model of what a fallible step gave: that of its value,
/// or that of its error.
pub open spec fn outcome<T: DeepView>(r: Result<T, ConfigError>) -> Result<T::V, ConfigErrorView> {
    match r {
        Ok(value) => Ok(value.deep_view()),
        Err(e) => Err(e@),
    }
}

impl Clone for ConfigError {
    fn clone(&self) -> (copy: Self)
        ensures
            copy@ == self@,
    {
        match self {
            ConfigError::NotFound(key) => ConfigError::NotFound(*key),
            ConfigError::InvalidValue(key) => ConfigError::InvalidValue(*key),
            ConfigError::Message(text) => ConfigError::Message(text.clone()),
            ConfigError::FileRead(reason) => ConfigError::FileRead(reason.clone()),
            ConfigError::FileParse(report) => ConfigError::FileParse(report.clone()),
            ConfigError::KeyBundleRead(reason) => ConfigError::KeyBundleRead(reason.clone()),
            ConfigError::KeyBundleDecode(report) => ConfigError::KeyBundleDecode(report.clone()),
        }
    }
}

/// What a message says a value of some type should have been.
pub open spec fn expected(kind: Kind) -> Seq<char> {
    match kind {
        Kind::Text => "a text"@,
        Kind::Url => "an absolute URL"@,
        Kind::Port => "a number from 0 to 65535"@,
        Kind::FeeRate => "a fee rate in sat/kwu"@,
    }
}

impl ConfigErrorView {
    /// The message that describes the error to the user.
    pub open spec fn message(self) -> Seq<char> {
        match self {
            ConfigErrorView::NotFound(key) => "configuration property \""@ + key.name_spec()
                + "\" not found"@,
            ConfigErrorView::InvalidValue(key) => "invalid value for \""@ + key.name_spec()
                + "\": expected "@ + expected(key.kind()),
            ConfigErrorView::Message(text) => text,
            ConfigErrorView::FileRead(reason) => "Failed to read config file: "@ + reason,
            ConfigErrorView::FileParse(report) => report,
            ConfigErrorView::KeyBundleRead(reason) => "Failed to read ohttp_keys file: "@ + reason,
            ConfigErrorView::KeyBundleDecode(report) => "Failed to decode ohttp keys: "@ + report,
        }
    }
}

fn expected_text(kind: Kind) -> (s: &'static str)
    ensures
        s@ == expected(kind),
{
    match kind {
        Kind::Text => "a text",
        Kind::Url => "an absolute URL",
        Kind::Port => "a number from 0 to 65535",
        Kind::FeeRate => "a fee rate in sat/kwu",
    }
}

impl ConfigError {
    /// The message that describes the error to the user: which key or source
    /// failed, and why.
    pub fn message(&self) -> (text: String)
        ensures
            text@ == self@.message(),
    {
        match self {
            ConfigError::NotFound(key) => {
                let mut text = "configuration property \"".to_owned();
                text.append(key.name());
                text.append("\" not found");
                text
            },
            ConfigError::InvalidValue(key) => {
                let mut text = "invalid value for \"".to_owned();
                text.append(key.name());
                text.append("\": expected ");
                text.append(expected_text(key.value_kind()));
                text
            },
            ConfigError::Message(text) => text.clone(),
            ConfigError::FileRead(reason) => {
                let mut text = "Failed to read config file: ".to_owned();
                text.append(reason.as_str());
                text
            },
            ConfigError::FileParse(report) => report.clone(),
            ConfigError::KeyBundleRead(reason) => {
                let mut text = "Failed to read ohttp_keys file: ".to_owned();
                text.append(reason.as_str());
                text
            },
            ConfigError::KeyBundleDecode(report) => {
                let mut text = "Failed to decode ohttp keys: ".to_owned();
                text.append(report.as_str());
                text
            },
        }
    }
}

} // verus!
