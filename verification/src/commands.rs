//! The operations as callers name them. A caller may spell a compound
//! argument in either of two ways; here the two spellings are reconciled,
//! what is left out takes its default, and a call without the account it is
//! about is refused before the store is touched.

use vstd::prelude::*;
use vstd::string::StringExecFns;
use crate::bounds::{all_of_account, ledger_as_asked};
use crate::order::strictly_in_order;
use crate::records::{optional_text, record_views, ChangeLog, Cultivation, SpendLog};
use crate::state::DbState;

verus! {

/// The failure of a call that names no account.
pub const MISSING_ACCOUNT: &'static str = "missing account_id";

/// The mode of a training track for which none is given.
pub const DEFAULT_MODE: &'static str = "2w";

/// The value of an argument given in either spelling: the first, where it is
/// given, else the second.
pub open spec fn either_of<T>(first: Option<T>, second: Option<T>) -> Option<T> {
    match first {
        Some(v) => Some(v),
        None => second,
    }
}

/// Reconciles the two spellings of an argument.
pub fn either<T>(first: Option<T>, second: Option<T>) -> (r: Option<T>)
    ensures
        r == either_of(first, second),
{
    match first {
        Some(v) => Some(v),
        None => second,
    }
}

/// Whether a call was refused for naming no account.
pub open spec fn is_refusal<T>(r: Result<T, String>) -> bool {
    match r {
        Ok(_) => false,
        Err(e) => e@ == MISSING_ACCOUNT@,
    }
}

/// The account that a call is about, or its refusal.
pub fn required_account(first: Option<i64>, second: Option<i64>) -> (r: Result<i64, String>)
    ensures
        match r {
            Ok(id) => either_of(first, second) == Some(id),
            Err(e) => either_of(first, second) is None && e@ == MISSING_ACCOUNT@,
        },
{
    match either(first, second) {
        Some(id) => Ok(id),
        None => Err(String::from_str(MISSING_ACCOUNT)),
    }
}

/// A number given in either spelling, or zero.
pub open spec fn count_of(first: Option<i64>, second: Option<i64>) -> i64 {
    match either_of(first, second) {
        Some(v) => v,
        None => 0,
    }
}

/// Reconciles the two spellings of a number, which is zero where neither is
/// given.
pub fn count_or_zero(first: Option<i64>, second: Option<i64>) -> (r: i64)
    ensures
        r == count_of(first, second),
{
    match either(first, second) {
        Some(v) => v,
        None => 0,
    }
}

/// A level given in either spelling, or zero.
pub open spec fn level_of(first: Option<i32>, second: Option<i32>) -> i32 {
    match either_of(first, second) {
        Some(v) => v,
        None => 0,
    }
}

/// Reconciles the two spellings of a level, which is zero where neither is
/// given.
pub fn level_or_zero(first: Option<i32>, second: Option<i32>) -> (r: i32)
    ensures
        r == level_of(first, second),
{
    match either(first, second) {
        Some(v) => v,
        None => 0,
    }
}

/// A text, or `default` where none is given.
pub open spec fn text_or(given: Option<String>, default: Seq<char>) -> Seq<char> {
    match given {
        Some(s) => s@,
        None => default,
    }
}

/// The text that is given, or a copy of `default`.
pub fn text_or_default(given: Option<String>, default: &str) -> (r: String)
    ensures
        r@ == text_or(given, default@),
{
    match given {
        Some(s) => s,
        None => String::from_str(default),
    }
}

/// Records a spend for the account given in either spelling.
pub fn add_spend_log(
    state: &DbState,
    account_id: Option<i64>,
    account_id_camel: Option<i64>,
    amount: i64,
    date: String,
    note: Option<String>,
) -> (r: Result<i64, String>)
    ensures
        either_of(account_id, account_id_camel) is None ==> is_refusal(r),
{
    let aid = required_account(account_id, account_id_camel)?;
    state.add_spend_log(aid, amount, date, note)
}

/// The spend ledger of the account given in either spelling, or of all
/// accounts where none is given.
pub fn get_spend_logs(
    state: &DbState,
    account_id: Option<i64>,
    account_id_camel: Option<i64>,
    start: Option<String>,
    end: Option<String>,
) -> (r: Result<Vec<SpendLog>, String>)
    ensures
        r matches Ok(list) ==> strictly_in_order::<SpendLog>(record_views(list@)),
        r matches Ok(list) ==> ledger_as_asked(
            record_views(list@),
            either_of(account_id, account_id_camel),
            optional_text(start),
            optional_text(end),
        ),
{
    state.get_spend_logs(either(account_id, account_id_camel), start, end)
}

/// Appends an entry to the change ledger. Each level and experience may be
/// left out; each amount consumed is zero where it is left out.
pub fn add_change_log(
    state: &DbState,
    account_id: Option<i64>,
    account_id_camel: Option<i64>,
    category: String,
    name: String,
    from_level: Option<i32>,
    from_level_camel: Option<i32>,
    to_level: Option<i32>,
    to_level_camel: Option<i32>,
    from_exp: Option<i32>,
    from_exp_camel: Option<i32>,
    to_exp: Option<i32>,
    to_exp_camel: Option<i32>,
    consumed_exp: Option<i64>,
    consumed_exp_camel: Option<i64>,
    consumed_money: Option<i64>,
    consumed_money_camel: Option<i64>,
    consumed_gang: Option<i64>,
    consumed_gang_camel: Option<i64>,
    consumed_cultivation_exp: Option<i64>,
    consumed_cultivation_exp_camel: Option<i64>,
    date: String,
) -> (r: Result<i64, String>)
    ensures
        either_of(account_id, account_id_camel) is None ==> is_refusal(r),
{
    let aid = required_account(account_id, account_id_camel)?;
    state.add_change_log(
        aid,
        category,
        name,
        either(from_level, from_level_camel),
        either(to_level, to_level_camel),
        either(from_exp, from_exp_camel),
        either(to_exp, to_exp_camel),
        count_or_zero(consumed_exp, consumed_exp_camel),
        count_or_zero(consumed_money, consumed_money_camel),
        count_or_zero(consumed_gang, consumed_gang_camel),
        count_or_zero(consumed_cultivation_exp, consumed_cultivation_exp_camel),
        date,
    )
}

/// The change ledger of the account given in either spelling.
pub fn get_change_logs(state: &DbState, account_id: Option<i64>, account_id_camel: Option<i64>) -> (r:
    Result<Vec<ChangeLog>, String>)
    ensures
        either_of(account_id, account_id_camel) is None ==> is_refusal(r),
        r matches Ok(list) ==> strictly_in_order::<ChangeLog>(record_views(list@)),
        r matches Ok(list) ==> all_of_account::<ChangeLog>(
            record_views(list@),
            either_of(account_id, account_id_camel)->Some_0,
        ),
{
    let aid = required_account(account_id, account_id_camel)?;
    state.get_change_logs(aid)
}

/// Adds a training track. Its name is empty, its mode "2w", and its
/// experience and levels are zero, where they are left out.
pub fn add_cultivation(
    state: &DbState,
    account_id: Option<i64>,
    account_id_camel: Option<i64>,
    name: Option<String>,
    type_: String,
    mode: Option<String>,
    current_exp: Option<i32>,
    current_exp_camel: Option<i32>,
    current_level: Option<i32>,
    current_level_camel: Option<i32>,
    target_level: Option<i32>,
    target_level_camel: Option<i32>,
) -> (r: Result<i64, String>)
    ensures
        either_of(account_id, account_id_camel) is None ==> is_refusal(r),
{
    let aid = required_account(account_id, account_id_camel)?;
    state.add_cultivation(
        aid,
        text_or_default(name, ""),
        type_,
        text_or_default(mode, DEFAULT_MODE),
        level_or_zero(current_exp, current_exp_camel),
        level_or_zero(current_level, current_level_camel),
        level_or_zero(target_level, target_level_camel),
    )
}

/// Updates a training track. Its name stays as it is where none is given;
/// its experience and levels are zero where they are left out.
pub fn update_cultivation(
    state: &DbState,
    id: i64,
    name: Option<String>,
    mode: String,
    current_exp: Option<i32>,
    current_exp_camel: Option<i32>,
    current_level: Option<i32>,
    current_level_camel: Option<i32>,
    target_level: Option<i32>,
    target_level_camel: Option<i32>,
) -> (r: Result<(), String>) {
    state.update_cultivation(
        id,
        name,
        mode,
        level_or_zero(current_exp, current_exp_camel),
        level_or_zero(current_level, current_level_camel),
        level_or_zero(target_level, target_level_camel),
    )
}

/// The training tracks of the account given in either spelling.
pub fn get_cultivations(state: &DbState, account_id: Option<i64>, account_id_camel: Option<i64>) -> (r:
    Result<Vec<Cultivation>, String>)
    ensures
        either_of(account_id, account_id_camel) is None ==> is_refusal(r),
        r matches Ok(list) ==> strictly_in_order::<Cultivation>(record_views(list@)),
        r matches Ok(list) ==> all_of_account::<Cultivation>(
            record_views(list@),
            either_of(account_id, account_id_camel)->Some_0,
        ),
{
    let aid = required_account(account_id, account_id_camel)?;
    state.get_cultivations(aid)
}

} // verus!
