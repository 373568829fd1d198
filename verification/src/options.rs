//! Option keys and option values of the ADBC interface.

use vstd::prelude::*;
use vstd::string::*;

use crate::text::{decimal, decimal_int, i64_text, joined, quote, quoted, u64_text};

verus! {

/// What prints itself for a diagnostic message.
pub trait DebugText {
    /// The printed text.
    spec fn debug_view(&self) -> Seq<char>;

    /// Prints the value.
    fn debug_text(&self) -> (r: String)
        ensures
            r@ == self.debug_view(),
    ;
}

impl DebugText for String {
    open spec fn debug_view(&self) -> Seq<char> {
        quoted(self@)
    }

    fn debug_text(&self) -> (r: String) {
        quote(self.as_str())
    }
}

/// A double-precision number: its IEEE 754 bits, and the two texts in which it prints.
#[derive(Clone, Debug)]
pub struct Double {
    /// The bits of the number.
    pub bits: u64,
    /// The number in a message for a reader.
    pub display: String,
    /// The number in a diagnostic message.
    pub debug: String,
}

/// The value of an option.
#[derive(Clone, Debug)]
pub enum OptionValue {
    String(String),
    Bytes(Vec<u8>),
    Int(i64),
    Double(Double),
}

/// The numerals of some bytes.
pub open spec fn byte_numerals(bytes: Seq<u8>) -> Seq<Seq<char>> {
    bytes.map_values(|b: u8| decimal(b as nat))
}

/// The numerals of some bytes, with commas between them.
fn bytes_text(bytes: &Vec<u8>) -> (r: String)
    ensures
        r@ == joined(byte_numerals(bytes@), ", "@),
{
    let mut r = String::new();
    let mut i: usize = 0;
    while i < bytes.len()
        invariant
            i <= bytes.len(),
            r@ == joined(byte_numerals(bytes@).take(i as int), ", "@),
        decreases bytes.len() - i,
    {
        let ghost shown = byte_numerals(bytes@).take(i + 1);
        assert(shown.drop_last() == byte_numerals(bytes@).take(i as int));
        assert(shown.last() == decimal(bytes@[i as int] as nat));
        if i > 0 {
            r.append(", ");
        }
        r.append(u64_text(bytes[i] as u64).as_str());
        i += 1;
    }
    assert(byte_numerals(bytes@).take(bytes@.len() as int) == byte_numerals(bytes@));
    r
}

impl DebugText for OptionValue {
    open spec fn debug_view(&self) -> Seq<char> {
        match self {
            OptionValue::String(s) => "String("@ + quoted(s@) + ")"@,
            OptionValue::Bytes(b) => "Bytes(["@ + joined(byte_numerals(b@), ", "@) + "])"@,
            OptionValue::Int(i) => "Int("@ + decimal_int(*i as int) + ")"@,
            OptionValue::Double(d) => "Double("@ + d.debug@ + ")"@,
        }
    }

    fn debug_text(&self) -> (r: String) {
        match self {
            OptionValue::String(s) => "String(".to_owned().concat(quote(s.as_str()).as_str()).concat(
                ")",
            ),
            OptionValue::Bytes(b) => "Bytes([".to_owned().concat(bytes_text(b).as_str()).concat("])"),
            OptionValue::Int(i) => "Int(".to_owned().concat(i64_text(*i).as_str()).concat(")"),
            OptionValue::Double(d) => "Double(".to_owned().concat(d.debug.as_str()).concat(")"),
        }
    }
}

/// A database option.
#[derive(Clone, Debug)]
pub enum OptionDatabase {
    Uri,
    Username,
    Password,
    Other(String),
}

impl DebugText for OptionDatabase {
    open spec fn debug_view(&self) -> Seq<char> {
        match self {
            OptionDatabase::Uri => "Uri"@,
            OptionDatabase::Username => "Username"@,
            OptionDatabase::Password => "Password"@,
            OptionDatabase::Other(k) => "Other("@ + quoted(k@) + ")"@,
        }
    }

    fn debug_text(&self) -> (r: String) {
        match self {
            OptionDatabase::Uri => "Uri".to_owned(),
            OptionDatabase::Username => "Username".to_owned(),
            OptionDatabase::Password => "Password".to_owned(),
            OptionDatabase::Other(k) => "Other(".to_owned().concat(quote(k.as_str()).as_str()).concat(
                ")",
            ),
        }
    }
}

/// A connection option.
#[derive(Clone, Debug)]
pub enum OptionConnection {
    AutoCommit,
    ReadOnly,
    CurrentCatalog,
    CurrentSchema,
    IsolationLevel,
    Other(String),
}

impl DebugText for OptionConnection {
    open spec fn debug_view(&self) -> Seq<char> {
        match self {
            OptionConnection::AutoCommit => "AutoCommit"@,
            OptionConnection::ReadOnly => "ReadOnly"@,
            OptionConnection::CurrentCatalog => "CurrentCatalog"@,
            OptionConnection::CurrentSchema => "CurrentSchema"@,
            OptionConnection::IsolationLevel => "IsolationLevel"@,
            OptionConnection::Other(k) => "Other("@ + quoted(k@) + ")"@,
        }
    }

    fn debug_text(&self) -> (r: String) {
        match self {
            OptionConnection::AutoCommit => "AutoCommit".to_owned(),
            OptionConnection::ReadOnly => "ReadOnly".to_owned(),
            OptionConnection::CurrentCatalog => "CurrentCatalog".to_owned(),
            OptionConnection::CurrentSchema => "CurrentSchema".to_owned(),
            OptionConnection::IsolationLevel => "IsolationLevel".to_owned(),
            OptionConnection::Other(k) => "Other(".to_owned().concat(
                quote(k.as_str()).as_str(),
            ).concat(")"),
        }
    }
}

/// A statement option.
#[derive(Clone, Debug)]
pub enum OptionStatement {
    IngestMode,
    TargetTable,
    TargetCatalog,
    TargetDbSchema,
    Temporary,
    Incremental,
    Progress,
    MaxProgress,
    Other(String),
}

impl DebugText for OptionStatement {
    open spec fn debug_view(&self) -> Seq<char> {
        match self {
            OptionStatement::IngestMode => "IngestMode"@,
            OptionStatement::TargetTable => "TargetTable"@,
            OptionStatement::TargetCatalog => "TargetCatalog"@,
            OptionStatement::TargetDbSchema => "TargetDbSchema"@,
            OptionStatement::Temporary => "Temporary"@,
            OptionStatement::Incremental => "Incremental"@,
            OptionStatement::Progress => "Progress"@,
            OptionStatement::MaxProgress => "MaxProgress"@,
            OptionStatement::Other(k) => "Other("@ + quoted(k@) + ")"@,
        }
    }

    fn debug_text(&self) -> (r: String) {
        match self {
            OptionStatement::IngestMode => "IngestMode".to_owned(),
            OptionStatement::TargetTable => "TargetTable".to_owned(),
            OptionStatement::TargetCatalog => "TargetCatalog".to_owned(),
            OptionStatement::TargetDbSchema => "TargetDbSchema".to_owned(),
            OptionStatement::Temporary => "Temporary".to_owned(),
            OptionStatement::Incremental => "Incremental".to_owned(),
            OptionStatement::Progress => "Progress".to_owned(),
            OptionStatement::MaxProgress => "MaxProgress".to_owned(),
            OptionStatement::Other(k) => "Other(".to_owned().concat(
                quote(k.as_str()).as_str(),
            ).concat(")"),
        }
    }
}

/// A number that is yet to be converted to a double.
#[derive(Clone, Debug)]
pub enum Number {
    Int(i64),
    Text(String),
}

/// The content of a [`Number`].
#[verifier::ext_equal]
pub enum NumberView {
    Int(i64),
    Text(Seq<char>),
}

impl View for Number {
    type V = NumberView;

    open spec fn view(&self) -> NumberView {
        match self {
            Number::Int(i) => NumberView::Int(*i),
            Number::Text(t) => NumberView::Text(t@),
        }
    }
}

/// What is left to be done when an option was set.
#[derive(Clone, Debug)]
pub enum OptionEffect {
    /// Nothing.
    Done,
    /// A header is to be sent with every call from now on.
    SetHeader { name: String, value: String },
    /// The number is to be converted to seconds, which are to be set under the same key.
    ConvertSeconds(Number),
}

/// The content of an [`OptionEffect`].
#[verifier::ext_equal]
pub enum EffectView {
    Done,
    SetHeader { name: Seq<char>, value: Seq<char> },
    ConvertSeconds(NumberView),
}

impl View for OptionEffect {
    type V = EffectView;

    open spec fn view(&self) -> EffectView {
        match self {
            OptionEffect::Done => EffectView::Done,
            OptionEffect::SetHeader { name, value } => EffectView::SetHeader {
                name: name@,
                value: value@,
            },
            OptionEffect::ConvertSeconds(number) => EffectView::ConvertSeconds(number@),
        }
    }
}

} // verus!
