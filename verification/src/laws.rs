//! What the operations of the driver promise to those who call them: laws on the arguments and the
//! results of calls, and on how one call follows another.

use vstd::prelude::*;

use crate::error::{AdbcError, Status};

pub mod answers;
pub mod connection;
pub mod database;
pub mod driver;
pub mod errors;
pub mod info;
pub mod objects;
pub mod options;
pub mod results;
pub mod statement;
pub mod text;
pub mod timeouts;
pub mod transport;

verus! {

/// Two text fields hold the same text, or none.
pub open spec fn same_text_field(a: Option<String>, b: Option<String>) -> bool {
    match (a, b) {
        (Some(x), Some(y)) => x@ == y@,
        (None, None) => true,
        _ => false,
    }
}

/// A text field holds that text.
pub open spec fn holds_text(field: Option<String>, text: Seq<char>) -> bool {
    field matches Some(t) && t@ == text
}

/// A text field takes over a text where it is set, and stays as it was where not.
pub open spec fn takes(
    set: bool,
    text: Seq<char>,
    before: Option<String>,
    after: Option<String>,
) -> bool {
    if set {
        holds_text(after, text)
    } else {
        same_text_field(before, after)
    }
}

/// A switch is on exactly for the text `true` where it is set, and stays as it was where not.
pub open spec fn switches(set: bool, text: Seq<char>, before: bool, after: bool) -> bool {
    if set {
        after == (text == "true"@)
    } else {
        after == before
    }
}

/// An error has that status and no code of its own, and its message is that of the driver.
pub open spec fn tells(error: AdbcError, status: Status, message: Seq<char>) -> bool {
    &&& error.status == status
    &&& error.message@ == "["@ + "adbc_flightsql"@ + "] "@ + message
    &&& error.vendor_code == 0
    &&& error.sqlstate@ == seq![0i8, 0i8, 0i8, 0i8, 0i8]
    &&& error.details is None
}

/// An error tells what could not be done, and why.
pub open spec fn tells_of(
    error: AdbcError,
    status: Status,
    task: Seq<char>,
    message: Seq<char>,
) -> bool {
    tells(error, status, "could not "@ + task + ": "@ + message)
}

} // verus!
