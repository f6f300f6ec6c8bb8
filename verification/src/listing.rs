//! From the rows of a result to the list that is handed out. A statement is
//! a text that nothing proves, so what comes back for it is held against the
//! request: the rows are decoded, the records are put in their order, and
//! the list is handed out only if no record comes twice in it and each is
//! one that was asked for.

use vstd::prelude::*;
use vstd::string::StringExecFns;
use crate::bounds::{
    all_of_account, check_account, check_days, check_ledger, check_months, days_within,
    ledger_as_asked, months_of_year, Owned,
};
use crate::order::{
    check_strict_order, in_order, is_rearrangement, put_in_order, rearranges, strictly_in_order,
    Ranked,
};
use crate::records::{decode_rows, decoded, optional_text, record_views, SpendLog, SpendSummary};
use crate::text::fault_text;
use crate::value::Cell;

verus! {

/// The failure of a query that was answered with two records for one place
/// in the list: two of one identifier, or two amounts for one date.
pub const REPEATED: &'static str = "the store answered with the same record twice";

/// The failure of a query that was answered with a record it did not ask
/// for.
pub const UNASKED: &'static str = "the store answered with a record that was not asked for";

/// Whether `r` is the failure with the message `text`.
pub open spec fn fails_with<T>(r: Result<T, String>, text: Seq<char>) -> bool {
    match r {
        Ok(_) => false,
        Err(e) => e@ == text,
    }
}

/// The values of a list of results, if all of them are values; else its
/// first error.
pub fn gather<T, E>(items: Vec<Result<T, E>>) -> (r: Result<Vec<T>, E>)
    ensures
        match r {
            Ok(values) => {
                &&& values@.len() == items@.len()
                &&& forall|i: int| 0 <= i < items@.len() ==> items@[i] == Ok::<T, E>(values@[i])
            },
            Err(e) => exists|j: int|
                {
                    &&& 0 <= j < items@.len()
                    &&& items@[j] == Err::<T, E>(e)
                    &&& forall|i: int| 0 <= i < j ==> items@[i] is Ok
                },
        },
{
    let mut values: Vec<T> = Vec::new();
    let ghost all = items@;
    for item in it: items
        invariant
            it.seq() == all,
            values@.len() == it.index(),
            forall|i: int| 0 <= i < it.index() ==> all[i] == Ok::<T, E>(values@[i]),
    {
        match item {
            Ok(v) => values.push(v),
            Err(e) => return Err(e),
        }
    }
    Ok(values)
}

/// Whether two records hold one place in a list: neither must stand ahead of
/// the other.
pub open spec fn same_place<T: Ranked>(x: T::V, y: T::V) -> bool {
    !T::ahead(x, y) && !T::ahead(y, x)
}

/// Whether two records of a list hold one place.
pub open spec fn has_repeat<T: Ranked>(list: Seq<T::V>) -> bool {
    exists|i: int, j: int| 0 <= i < j < list.len() && same_place::<T>(list[i], list[j])
}

/// A list that is in order, but not strictly, holds two records for one
/// place, and so does every list that it was made of.
proof fn lemma_repeat_is_found<T: Ranked>(
    from: Seq<T::V>,
    to: Seq<T::V>,
    place: Seq<int>,
    origin: Seq<int>,
    k: int,
)
    requires
        rearranges(from, to, place, origin),
        in_order::<T>(to),
        0 < k < to.len(),
        !T::ahead(to[k - 1], to[k]),
    ensures
        has_repeat::<T>(from),
{
    let i = origin[k - 1];
    let j = origin[k];
    assert(place[i] == k - 1 && place[j] == k);
    assert(from[i] == to[k - 1] && from[j] == to[k]);
    assert(!T::ahead(to[k], to[k - 1]));
    if i < j {
        assert(same_place::<T>(from[i], from[j]));
    } else {
        assert(same_place::<T>(from[j], from[i]));
    }
}

/// A list that holds two records for one place cannot be put strictly in
/// order.
proof fn lemma_repeat_stays<T: Ranked>(
    from: Seq<T::V>,
    to: Seq<T::V>,
    place: Seq<int>,
    origin: Seq<int>,
)
    requires
        rearranges(from, to, place, origin),
        has_repeat::<T>(from),
    ensures
        !strictly_in_order::<T>(to),
{
    let (i, j) = choose|i: int, j: int|
        0 <= i < j < from.len() && same_place::<T>(from[i], from[j]);
    let a = place[i];
    let b = place[j];
    assert(origin[a] == i && origin[b] == j);
    assert(to[a] == from[i] && to[b] == from[j]);
    if strictly_in_order::<T>(to) {
        if a < b {
            assert(T::ahead(to[a], to[b]));
        } else {
            assert(T::ahead(to[b], to[a]));
        }
    }
}

/// The list that the rows of a result make: the records that the rows hold,
/// strictly in order. Rows that do not decode fail with the fault of the
/// first of them; rows that decode, and hold two records for one place, fail
/// as repeated.
pub fn list_of<T: Ranked>(rows: &Vec<Vec<Cell>>) -> (r: Result<Vec<T>, String>)
    ensures
        match decoded::<T>(rows@) {
            Err(fault) => fails_with(r, fault_text(fault)),
            Ok(held) => if has_repeat::<T>(held) {
                fails_with(r, REPEATED@)
            } else {
                match r {
                    Ok(list) => {
                        &&& strictly_in_order::<T>(record_views(list@))
                        &&& is_rearrangement(held, record_views(list@))
                    },
                    Err(_) => false,
                }
            },
        },
{
    let records = match decode_rows::<T>(rows) {
        Ok(records) => records,
        Err(fault) => return Err(fault.message()),
    };
    let ghost held = record_views(records@);
    let ordered = put_in_order(records);
    let ghost (place, origin) = choose|place: Seq<int>, origin: Seq<int>|
        rearranges(held, record_views(ordered@), place, origin);
    if check_strict_order(&ordered) {
        proof {
            if has_repeat::<T>(held) {
                lemma_repeat_stays::<T>(held, record_views(ordered@), place, origin);
            }
        }
        Ok(ordered)
    } else {
        proof {
            let k = choose|k: int|
                0 < k < ordered@.len() && !T::ahead(
                    #[trigger] record_views(ordered@)[k - 1],
                    record_views(ordered@)[k],
                );
            lemma_repeat_is_found::<T>(held, record_views(ordered@), place, origin, k);
        }
        Err(String::from_str(REPEATED))
    }
}

/// Hands out a list of records of one account, unless a record of another
/// account is among them.
pub fn only_of_account<T: Owned>(records: Vec<T>, account_id: i64) -> (r: Result<Vec<T>, String>)
    ensures
        if all_of_account::<T>(record_views(records@), account_id) {
            r == Ok::<Vec<T>, String>(records)
        } else {
            fails_with(r, UNASKED@)
        },
{
    if check_account(&records, account_id) {
        Ok(records)
    } else {
        Err(String::from_str(UNASKED))
    }
}

/// Hands out a list of entries of the spend ledger, unless an entry is among
/// them that the query did not ask for.
pub fn only_as_asked(
    ledger: Vec<SpendLog>,
    account_id: Option<i64>,
    start: &Option<String>,
    end: &Option<String>,
) -> (r: Result<Vec<SpendLog>, String>)
    ensures
        if ledger_as_asked(
            record_views(ledger@),
            account_id,
            optional_text(*start),
            optional_text(*end),
        ) {
            r == Ok::<Vec<SpendLog>, String>(ledger)
        } else {
            fails_with(r, UNASKED@)
        },
{
    if check_ledger(&ledger, account_id, start, end) {
        Ok(ledger)
    } else {
        Err(String::from_str(UNASKED))
    }
}

/// Hands out a list of daily amounts, unless a day outside the range is
/// among them.
pub fn only_days_within(days: Vec<SpendSummary>, start: String, end: String) -> (r: Result<
    Vec<SpendSummary>,
    String,
>)
    ensures
        if days_within(record_views(days@), start@, end@) {
            r == Ok::<Vec<SpendSummary>, String>(days)
        } else {
            fails_with(r, UNASKED@)
        },
{
    if check_days(&days, start, end) {
        Ok(days)
    } else {
        Err(String::from_str(UNASKED))
    }
}

/// Hands out a list of monthly amounts, unless a month of another year is
/// among them.
pub fn only_months_of_year(months: Vec<SpendSummary>, year: i32) -> (r: Result<
    Vec<SpendSummary>,
    String,
>)
    ensures
        if months_of_year(record_views(months@), year) {
            r == Ok::<Vec<SpendSummary>, String>(months)
        } else {
            fails_with(r, UNASKED@)
        },
{
    if check_months(&months, year) {
        Ok(months)
    } else {
        Err(String::from_str(UNASKED))
    }
}

} // verus!
