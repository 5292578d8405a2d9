//! The size of the terminal, from the answer to a window size query.

use vstd::prelude::*;

verus! {

/// The size, in columns and rows, that is used where the terminal does not
/// tell its own.
pub open spec fn default_size() -> (u32, u32) {
    (100, 40)
}

/// The message that goes with a failed query.
pub open spec fn failure_message() -> Seq<char> {
    "Could not get terminal size, using default width..."@
}

/// The rows that are left for a picture on a terminal of `rows` rows: one
/// less, because the prompt that follows takes a line, and none on a
/// terminal that reports none.
pub open spec fn usable_rows(rows: u16) -> u32 {
    if rows >= 1 {
        (rows - 1) as u32
    } else {
        0u32
    }
}

/// The usable size of the terminal, from the status of a window size query
/// and the columns and rows it reported. A status other than zero means
/// that the query has failed.
pub fn get_size(status: i32, columns: u16, rows: u16) -> (size: Result<(u32, u32), &'static str>)
    ensures
        status == 0 ==> size == Ok::<(u32, u32), &'static str>(
            (columns as u32, usable_rows(rows)),
        ),
        status != 0 ==> size is Err && size->Err_0@ == failure_message(),
{
    match status {
        0 => {
            let usable: u32 = if rows >= 1 {
                rows as u32 - 1
            } else {
                0
            };
            Ok((columns as u32, usable))
        },
        _ => Err("Could not get terminal size, using default width..."),
    }
}

/// The usable size of the terminal where the query tells one, else the
/// default size.
pub fn size_or_default(size: Result<(u32, u32), &'static str>) -> (used: (u32, u32))
    ensures
        used == match size {
            Ok(told) => told,
            Err(_) => default_size(),
        },
{
    match size {
        Ok(told) => told,
        Err(_) => (100, 40),
    }
}

} // verus!
