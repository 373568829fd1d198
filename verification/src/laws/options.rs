//! Laws of options in messages: how keys and values are shown there.

use vstd::prelude::*;

use crate::double::Duration;
use crate::options::{
    byte_numerals, DebugText, OptionConnection, OptionDatabase, OptionStatement, OptionValue,
};
use crate::text::{decimal, decimal_int, joined, quoted};

verus! {

/// A key is shown by its name, and one that the driver alone knows by its quoted text.
pub proof fn law_keys_are_shown_by_their_names(
    database: OptionDatabase,
    d: String,
    connection: OptionConnection,
    c: String,
    statement: OptionStatement,
    s: String,
)
    requires
        call_ensures(OptionDatabase::debug_text, (&database,), d),
        call_ensures(OptionConnection::debug_text, (&connection,), c),
        call_ensures(OptionStatement::debug_text, (&statement,), s),
    ensures
        database is Uri ==> d@ == "Uri"@,
        database is Username ==> d@ == "Username"@,
        database is Password ==> d@ == "Password"@,
        database matches OptionDatabase::Other(k) ==> d@ == "Other("@ + quoted(k@) + ")"@,
        connection is AutoCommit ==> c@ == "AutoCommit"@,
        connection is ReadOnly ==> c@ == "ReadOnly"@,
        connection is CurrentCatalog ==> c@ == "CurrentCatalog"@,
        connection is CurrentSchema ==> c@ == "CurrentSchema"@,
        connection is IsolationLevel ==> c@ == "IsolationLevel"@,
        connection matches OptionConnection::Other(k) ==> c@ == "Other("@ + quoted(k@) + ")"@,
        statement is IngestMode ==> s@ == "IngestMode"@,
        statement is TargetTable ==> s@ == "TargetTable"@,
        statement is TargetCatalog ==> s@ == "TargetCatalog"@,
        statement is TargetDbSchema ==> s@ == "TargetDbSchema"@,
        statement is Temporary ==> s@ == "Temporary"@,
        statement is Incremental ==> s@ == "Incremental"@,
        statement is Progress ==> s@ == "Progress"@,
        statement is MaxProgress ==> s@ == "MaxProgress"@,
        statement matches OptionStatement::Other(k) ==> s@ == "Other("@ + quoted(k@) + ")"@,
{
}

/// A value is shown by its kind and its content: a text quoted, a number as its numeral, bytes as
/// their numerals in brackets.
pub proof fn law_values_are_shown_by_their_kinds(value: OptionValue, r: String)
    requires
        call_ensures(OptionValue::debug_text, (&value,), r),
    ensures
        value matches OptionValue::String(s) ==> r@ == "String("@ + quoted(s@) + ")"@,
        value matches OptionValue::Int(i) ==> r@ == "Int("@ + decimal_int(i as int) + ")"@,
        value matches OptionValue::Double(d) ==> r@ == "Double("@ + d.debug@ + ")"@,
        value matches OptionValue::Bytes(b) ==> b@.len() == 0 ==> r@ == "Bytes(["@ + "])"@,
        value matches OptionValue::Bytes(b) ==> b@.len() == 1 ==> r@ == "Bytes(["@ + decimal(
            b@[0] as nat,
        ) + "])"@,
        value matches OptionValue::Bytes(b) ==> b@.len() == 2 ==> r@ == "Bytes(["@ + (decimal(
            b@[0] as nat,
        ) + ", "@ + decimal(b@[1] as nat)) + "])"@,
{
    if let OptionValue::Bytes(b) = value {
        let numerals = byte_numerals(b@);
        assert(numerals.len() == b@.len());
        if b@.len() == 0 {
            assert(joined(numerals, ", "@) =~= Seq::<char>::empty());
            assert("Bytes(["@ + joined(numerals, ", "@) =~= "Bytes(["@);
        }
        if b@.len() == 2 {
            assert(numerals.drop_last().len() == 1);
            assert(numerals.drop_last()[0] == decimal(b@[0] as nat));
            assert(joined(numerals.drop_last(), ", "@) == decimal(b@[0] as nat));
        }
    }
}

/// Spans of seconds and of milliseconds are as long as they say, and their milliseconds are read
/// back.
pub proof fn law_spans_are_as_long_as_they_say(
    number: u64,
    seconds: Duration,
    millis: Duration,
    back: u128,
)
    requires
        call_ensures(Duration::from_secs, (number,), seconds),
        call_ensures(Duration::from_millis, (number,), millis),
        call_ensures(Duration::as_millis, (&millis,), back),
    ensures
        seconds.secs == number && seconds.nanos == 0,
        millis.nanos < 1_000_000_000,
        millis.secs * 1_000_000_000 + millis.nanos == number * 1_000_000,
        back == number,
{
}

} // verus!
