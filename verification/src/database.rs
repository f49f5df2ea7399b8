//! The parts of opening the SQLite database that decide rather than connect.

use vstd::prelude::*;

use crate::error::ThingsError;

verus! {

/// The SQLite connection URL of a database file: `sqlite:` and the path.
pub fn sqlite_url(database_path: &str) -> (url: String)
    ensures
        url@ == "sqlite:"@ + database_path@,
{
    let mut url = String::from_str("sqlite:");
    url.append(database_path);
    url
}

/// The error reported when the connection pool cannot connect; `detail` is
/// the driver's description of the failure.
pub fn connection_error(detail: &str) -> (e: ThingsError)
    ensures
        e matches ThingsError::Unknown { message } && message@ == "Failed to connect to database: "@
            + detail@,
{
    let mut message = String::from_str("Failed to connect to database: ");
    message.append(detail);
    ThingsError::Unknown { message }
}

} // verus!
