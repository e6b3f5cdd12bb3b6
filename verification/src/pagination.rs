//! Page size and the offset of the next page.

use vstd::prelude::*;
use crate::date_custom::DateCustom;

verus! {

/// The number of users on one page of the list.
pub const DEFAULT_LIMIT: usize = 10;

/// A page of a list that is walked by time: the instant after which the
/// page starts, and the number of entries on it.
#[derive(Debug)]
pub struct Pagination {
    pub next: DateCustom,
    pub limit: usize,
}

/// The quotient of `a` by `b` rounded towards zero, as machine division
/// rounds it. `b` is not zero.
pub open spec fn truncated_quotient(a: int, b: int) -> int
    recommends
        b != 0,
{
    if a >= 0 && b > 0 {
        a / b
    } else if a >= 0 {
        -(a / (-b))
    } else if b > 0 {
        -((-a) / b)
    } else {
        (-a) / (-b)
    }
}

/// The offset that the "Next" link of a page carries, for a table of `count`
/// rows listed from offset `current`.
///
/// A positive offset is handed back as it is. Otherwise the offset moves on
/// by one where the quotient of `count` by `current`, rounded towards zero,
/// is positive, and stays where it is not. Offset zero has no quotient: it
/// stays.
pub open spec fn next_offset(count: int, current: int) -> int {
    if current > 0 {
        current
    } else if current != 0 && truncated_quotient(count, current) > 0 {
        current + 1
    } else {
        current
    }
}

/// For a negative divisor the rounded quotient is positive exactly when the
/// dividend is no greater than the divisor.
pub proof fn lemma_quotient_positive(count: int, current: int)
    requires
        current < 0,
    ensures
        truncated_quotient(count, current) > 0 <==> count <= current,
{
    if count >= 0 {
        assert(count / (-current) >= 0) by (nonlinear_arith)
            requires
                count >= 0,
                -current > 0,
        ;
    } else if count <= current {
        assert((-count) / (-current) >= 1) by (nonlinear_arith)
            requires
                -count >= -current,
                -current > 0,
        ;
    } else {
        assert((-count) / (-current) == 0) by (nonlinear_arith)
            requires
                0 <= -count < -current,
        ;
    }
}

/// Computes the offset of the next page from the number of rows in the
/// table and the offset of the page just listed.
pub fn get_new_pagination(count: i64, current_pagination: i64) -> (next: i64)
    ensures
        next == next_offset(count as int, current_pagination as int),
{
    if current_pagination > 0 {
        return current_pagination;
    }
    if current_pagination == 0 {
        return current_pagination;
    }
    proof {
        lemma_quotient_positive(count as int, current_pagination as int);
    }
    if count <= current_pagination {
        current_pagination + 1
    } else {
        current_pagination
    }
}

} // verus!
