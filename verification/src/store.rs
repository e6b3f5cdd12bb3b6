//! The `users` table as a value of mathematics.
//!
//! The database is not part of this library. What is proved of a request
//! from start to end is proved over a table that answers each statement as
//! it is written; this module says what that means.

use vstd::prelude::*;
use crate::repository::{newest_first, stored_as_inserted, Event, Query};
use crate::user::User;

verus! {

/// The rows of the table, each under the bits of its identifier, which is
/// the primary key.
pub type Table = Map<u128, User>;

/// Whether every row of `table` stands under its own identifier.
pub open spec fn is_keyed(table: Table) -> bool {
    forall|id: u128| table.dom().contains(id) ==> (#[trigger] table[id]).uuid.value == id
}

/// Whether `user` is a row of `table`.
pub open spec fn holds(table: Table, user: User) -> bool {
    table.dom().contains(user.uuid.value) && table[user.uuid.value] == user
}

/// Whether `all` lists every row of `table` once, newest first.
pub open spec fn is_listing(table: Table, all: Seq<User>) -> bool {
    &&& all.len() == table.dom().len()
    &&& forall|i: int| 0 <= i < all.len() ==> holds(table, #[trigger] all[i])
    &&& forall|i: int, j: int| 0 <= i < j < all.len() ==> all[i].uuid != all[j].uuid
    &&& newest_first(all)
}

/// The lesser of two numbers.
pub open spec fn least(a: int, b: int) -> int {
    if a <= b {
        a
    } else {
        b
    }
}

/// The rows of a listing that a page of at most `limit` rows holds after
/// `offset` rows are skipped.
pub open spec fn page_of(all: Seq<User>, limit: int, offset: int) -> Seq<User>
    recommends
        0 <= limit,
        0 <= offset,
{
    all.subrange(least(offset, all.len() as int), least(offset + limit, all.len() as int))
}

/// Whether a database that holds `before` may answer `query` with `event`
/// and then hold `after`.
///
/// Every row of the table stands under its own identifier. A failure
/// answers any statement and changes nothing. Otherwise a lookup
/// returns the row under the identifier, or none where there is none; a page
/// is cut from a listing of all rows, newest first; the count is the number
/// of rows; and an insertion under a new identifier adds a row that holds
/// in each column what was given for it, and returns that row.
pub open spec fn answers(before: Table, query: Query, event: Event, after: Table) -> bool {
    &&& is_keyed(before)
    &&& answers_keyed(before, query, event, after)
}

/// What [`answers`] says of a table whose rows stand under their own
/// identifiers.
pub open spec fn answers_keyed(before: Table, query: Query, event: Event, after: Table) -> bool {
    if event is Failed {
        after == before
    } else {
        match query {
            Query::FindById { uuid } => after == before && (if before.dom().contains(uuid.value) {
                event == Event::Row(before[uuid.value])
            } else {
                event is NoRow
            }),
            Query::FindPage { limit, offset } => after == before && 0 <= limit && 0 <= offset && (
            event matches Event::Rows(users) && exists|all: Seq<User>| #[trigger]
                is_listing(before, all) && users@ == page_of(all, limit as int, offset as int)),
            Query::Count => after == before && (event matches Event::Count(Some(n)) && n
                == before.dom().len()),
            Query::Insert { row } => !before.dom().contains(row.uuid.value) && (
            event matches Event::Row(user) && user.uuid == row.uuid && stored_as_inserted(
                user@,
                row@,
            ) && after == before.insert(row.uuid.value, user)),
        }
    }
}

} // verus!
