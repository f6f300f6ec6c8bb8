//! What a list may hold, given what was asked for: the records of one
//! account, the entries of a range of dates, the months of one year.

use vstd::prelude::*;
use vstd::string::StrSliceExecFns;
use vstd::utf8::encode_utf8;
use crate::order::{before, rank, Rank};
use crate::text::{signed_decimal, signed_decimal_text};
use crate::records::{
    optional_text, record_views, ChangeLog, ChangeLogView, Cultivation, CultivationView, Record,
    Skill, SkillView, SpendLog, SpendLogView, SpendSummary, SpendSummaryView,
};

verus! {

/// A record that belongs to an account.
pub trait Owned: Record {
    /// The account that the record belongs to.
    spec fn owner(v: Self::V) -> i64;

    fn owner_id(&self) -> (id: i64)
        ensures
            id == Self::owner(self@),
    ;
}

impl Owned for Skill {
    open spec fn owner(v: SkillView) -> i64 {
        v.account_id
    }

    fn owner_id(&self) -> (id: i64) {
        self.account_id
    }
}

impl Owned for Cultivation {
    open spec fn owner(v: CultivationView) -> i64 {
        v.account_id
    }

    fn owner_id(&self) -> (id: i64) {
        self.account_id
    }
}

impl Owned for ChangeLog {
    open spec fn owner(v: ChangeLogView) -> i64 {
        v.account_id
    }

    fn owner_id(&self) -> (id: i64) {
        self.account_id
    }
}

impl Owned for SpendLog {
    open spec fn owner(v: SpendLogView) -> i64 {
        v.account_id
    }

    fn owner_id(&self) -> (id: i64) {
        self.account_id
    }
}

/// Whether every record of a list belongs to the account.
pub open spec fn all_of_account<T: Owned>(list: Seq<T::V>, account_id: i64) -> bool {
    forall|i: int| 0 <= i < list.len() ==> T::owner(#[trigger] list[i]) == account_id
}

/// Decides whether every record of a list belongs to the account.
pub fn check_account<T: Owned>(records: &Vec<T>, account_id: i64) -> (ok: bool)
    ensures
        ok == all_of_account::<T>(record_views(records@), account_id),
{
    let mut i: usize = 0;
    while i < records.len()
        invariant
            i <= records@.len(),
            forall|k: int| 0 <= k < i ==> T::owner(#[trigger] record_views(records@)[k]) == account_id,
        decreases records@.len() - i,
    {
        if records[i].owner_id() != account_id {
            assert(record_views(records@)[i as int] == records@[i as int]@);
            return false;
        }
        assert(record_views(records@)[i as int] == records@[i as int]@);
        i = i + 1;
    }
    true
}

/// Whether a date lies in a range of which each end may be open. Both ends
/// belong to the range.
pub open spec fn dated_within(
    date: Seq<char>,
    start: Option<Seq<char>>,
    end: Option<Seq<char>>,
) -> bool {
    &&& start matches Some(s) ==> !before(encode_utf8(date), encode_utf8(s))
    &&& end matches Some(e) ==> !before(encode_utf8(e), encode_utf8(date))
}

/// Decides whether a date lies in a range.
pub fn check_date(date: &String, start: &Option<String>, end: &Option<String>) -> (ok: bool)
    ensures
        ok == dated_within(date@, optional_text(*start), optional_text(*end)),
{
    let late_enough = match start {
        Some(s) => match rank(date.as_str().as_bytes(), s.as_str().as_bytes()) {
            Rank::Before => false,
            _ => true,
        },
        None => true,
    };
    let early_enough = match end {
        Some(e) => match rank(e.as_str().as_bytes(), date.as_str().as_bytes()) {
            Rank::Before => false,
            _ => true,
        },
        None => true,
    };
    late_enough && early_enough
}

/// Whether an entry of the spend ledger is one that a query asks for: it
/// belongs to the account, if one is named, and its date lies in the range.
pub open spec fn is_asked_for(
    log: SpendLogView,
    account_id: Option<i64>,
    start: Option<Seq<char>>,
    end: Option<Seq<char>>,
) -> bool {
    &&& account_id matches Some(id) ==> log.account_id == id
    &&& dated_within(log.date, start, end)
}

/// Whether every entry of a list is one that the query asks for.
pub open spec fn ledger_as_asked(
    list: Seq<SpendLogView>,
    account_id: Option<i64>,
    start: Option<Seq<char>>,
    end: Option<Seq<char>>,
) -> bool {
    forall|i: int| 0 <= i < list.len() ==> is_asked_for(#[trigger] list[i], account_id, start, end)
}

/// Decides whether every entry of a list is one that the query asks for.
pub fn check_ledger(
    logs: &Vec<SpendLog>,
    account_id: Option<i64>,
    start: &Option<String>,
    end: &Option<String>,
) -> (ok: bool)
    ensures
        ok == ledger_as_asked(
            record_views(logs@),
            account_id,
            optional_text(*start),
            optional_text(*end),
        ),
{
    let mut i: usize = 0;
    while i < logs.len()
        invariant
            i <= logs@.len(),
            forall|k: int|
                0 <= k < i ==> is_asked_for(
                    #[trigger] record_views(logs@)[k],
                    account_id,
                    optional_text(*start),
                    optional_text(*end),
                ),
        decreases logs@.len() - i,
    {
        assert(record_views(logs@)[i as int] == logs@[i as int]@);
        let owned = match account_id {
            Some(id) => logs[i].account_id == id,
            None => true,
        };
        if !owned || !check_date(&logs[i].date, start, end) {
            return false;
        }
        i = i + 1;
    }
    true
}

/// Whether every day of a list of daily amounts lies in the range.
pub open spec fn days_within(list: Seq<SpendSummaryView>, start: Seq<char>, end: Seq<char>) -> bool {
    forall|i: int|
        0 <= i < list.len() ==> dated_within((#[trigger] list[i]).date, Some(start), Some(end))
}

/// Decides whether every day of a list of daily amounts lies in the range.
pub fn check_days(days: &Vec<SpendSummary>, start: String, end: String) -> (ok: bool)
    ensures
        ok == days_within(record_views(days@), start@, end@),
{
    let first = Some(start);
    let last = Some(end);
    let mut i: usize = 0;
    while i < days.len()
        invariant
            i <= days@.len(),
            first == Some(start),
            last == Some(end),
            forall|k: int|
                0 <= k < i ==> dated_within(
                    (#[trigger] record_views(days@)[k]).date,
                    Some(start@),
                    Some(end@),
                ),
        decreases days@.len() - i,
    {
        assert(record_views(days@)[i as int] == days@[i as int]@);
        if !check_date(&days[i].date, &first, &last) {
            return false;
        }
        i = i + 1;
    }
    true
}

/// The year of a month that is written year first: its leading four
/// characters, or all of it where it has no more.
pub open spec fn year_of(month: Seq<char>) -> Seq<char> {
    if month.len() <= 4 {
        month
    } else {
        month.subrange(0, 4)
    }
}

/// Whether every month of a list of monthly amounts is one of the year.
pub open spec fn months_of_year(list: Seq<SpendSummaryView>, year: i32) -> bool {
    forall|i: int|
        0 <= i < list.len() ==> year_of((#[trigger] list[i]).date) == signed_decimal(year as int)
}

/// Decides whether a month is one of the year.
pub fn check_month(month: &String, year: i32) -> (ok: bool)
    ensures
        ok == (year_of(month@) == signed_decimal(year as int)),
{
    let wanted = signed_decimal_text(year as i64);
    assert(wanted@ == signed_decimal(year as int));
    let length = month.as_str().unicode_len();
    let leading: usize = if length <= 4 {
        length
    } else {
        4
    };
    if wanted.as_str().unicode_len() != leading {
        return false;
    }
    let mut i: usize = 0;
    while i < leading
        invariant
            i <= leading,
            leading == year_of(month@).len(),
            leading == wanted@.len(),
            wanted@ == signed_decimal(year as int),
            forall|k: int| 0 <= k < i ==> year_of(month@)[k] == wanted@[k],
        decreases leading - i,
    {
        if month.as_str().get_char(i) != wanted.as_str().get_char(i) {
            assert(year_of(month@)[i as int] != wanted@[i as int]);
            assert(year_of(month@) != wanted@);
            return false;
        }
        i = i + 1;
    }
    assert(year_of(month@) =~= wanted@);
    true
}

/// Decides whether every month of a list of monthly amounts is one of the
/// year.
pub fn check_months(months: &Vec<SpendSummary>, year: i32) -> (ok: bool)
    ensures
        ok == months_of_year(record_views(months@), year),
{
    let mut i: usize = 0;
    while i < months.len()
        invariant
            i <= months@.len(),
            forall|k: int|
                0 <= k < i ==> year_of((#[trigger] record_views(months@)[k]).date)
                    == signed_decimal(year as int),
        decreases months@.len() - i,
    {
        assert(record_views(months@)[i as int] == months@[i as int]@);
        if !check_month(&months[i].date, year) {
            return false;
        }
        i = i + 1;
    }
    true
}

} // verus!
