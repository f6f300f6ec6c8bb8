use mhxy_store::bounds::{
    check_account, check_date, check_days, check_ledger, check_month, check_months,
};
use mhxy_store::records::{Account, Skill, SpendLog, SpendSummary};
use mhxy_store::listing::{
    list_of, only_as_asked, only_days_within, only_months_of_year, only_of_account,
};
use mhxy_store::value::Cell;

fn entry(id: i64, account_id: i64, date: &str) -> SpendLog {
    SpendLog {
        id,
        account_id,
        amount: 1,
        date: date.to_string(),
        note: None,
        created_at: "".to_string(),
    }
}

fn skill(id: i64, account_id: i64) -> Skill {
    Skill { id, account_id, skill_name: "s".to_string(), current_level: 0, target_level: 0 }
}

fn day(date: &str) -> SpendSummary {
    SpendSummary { date: date.to_string(), total: 1 }
}

fn some(s: &str) -> Option<String> {
    Some(s.to_string())
}

#[test]
fn both_ends_of_a_range_belong_to_it() {
    let date = "2024-03-05".to_string();
    assert!(check_date(&date, &None, &None));
    assert!(check_date(&date, &some("2024-03-05"), &some("2024-03-05")));
    assert!(check_date(&date, &some("2024-03-01"), &some("2024-03-31")));
    assert!(!check_date(&date, &some("2024-03-06"), &None));
    assert!(!check_date(&date, &None, &some("2024-03-04")));
    assert!(check_date(&date, &some("2024-03"), &None));
    assert!(!check_date(&date, &None, &some("2024-03")));
    assert!(!check_date(&date, &some("2024-03-06"), &some("2024-03-04")));
}

#[test]
fn records_of_another_account_are_told() {
    assert!(check_account(&vec![skill(1, 7), skill(2, 7)], 7));
    assert!(!check_account(&vec![skill(1, 7), skill(2, 8)], 7));
    assert!(check_account::<Skill>(&vec![], 7));
    assert_eq!(only_of_account(vec![skill(1, 7)], 7), Ok(vec![skill(1, 7)]));
    assert_eq!(
        only_of_account(vec![skill(1, 7), skill(2, 8)], 7),
        Err("the store answered with a record that was not asked for".to_string())
    );
}

#[test]
fn entries_that_were_not_asked_for_are_told() {
    let ledger = vec![entry(2, 7, "2024-03-06"), entry(1, 8, "2024-03-05")];
    assert!(check_ledger(&ledger, None, &None, &None));
    assert!(!check_ledger(&ledger, Some(7), &None, &None));
    assert!(check_ledger(&ledger[..1].to_vec(), Some(7), &None, &None));
    assert!(check_ledger(&ledger, None, &some("2024-03-05"), &some("2024-03-06")));
    assert!(!check_ledger(&ledger, None, &some("2024-03-06"), &None));
    assert!(!check_ledger(&ledger, None, &None, &some("2024-03-05")));
    assert!(check_ledger(&vec![], Some(1), &some("b"), &some("a")));
}

#[test]
fn days_outside_the_range_are_told() {
    let days = vec![day("2024-03-05"), day("2024-03-31")];
    assert!(check_days(&days, "2024-03-05".to_string(), "2024-03-31".to_string()));
    assert!(!check_days(&days, "2024-03-06".to_string(), "2024-03-31".to_string()));
    assert!(!check_days(&days, "2024-03-01".to_string(), "2024-03-30".to_string()));
    assert!(check_days(&vec![], "b".to_string(), "a".to_string()));
}

#[test]
fn a_month_belongs_to_the_year_it_starts_with() {
    assert!(check_month(&"2024-03".to_string(), 2024));
    assert!(check_month(&"2024".to_string(), 2024));
    assert!(check_month(&"20245".to_string(), 2024));
    assert!(!check_month(&"2023-12".to_string(), 2024));
    assert!(!check_month(&"202".to_string(), 2024));
    assert!(!check_month(&"".to_string(), 2024));
    assert!(check_month(&"999".to_string(), 999));
    assert!(!check_month(&"999-".to_string(), 999));
    assert!(!check_month(&"0999-01".to_string(), 999));
    assert!(check_month(&"-5".to_string(), -5));
    assert!(check_month(&"-123-01".to_string(), -123));
    assert!(!check_month(&"12345-0".to_string(), 12345));
    assert!(check_month(&"0".to_string(), 0));
    assert!(!check_month(&"２０２４-03".to_string(), 2024));
    assert!(check_months(&vec![day("2024-03"), day("2024-04")], 2024));
    assert!(!check_months(&vec![day("2024-03"), day("2025-01")], 2024));
    assert!(check_months(&vec![], 2024));
}

fn unasked<T>() -> Result<T, String> {
    Err("the store answered with a record that was not asked for".to_string())
}

#[test]
fn a_list_is_handed_out_only_as_it_was_asked_for() {
    let ledger = vec![entry(2, 7, "2024-03-06"), entry(1, 7, "2024-03-05")];
    assert_eq!(only_as_asked(ledger.clone(), Some(7), &None, &some("2024-03-06")), Ok(ledger.clone()));
    assert_eq!(only_as_asked(ledger.clone(), Some(8), &None, &None), unasked());
    assert_eq!(only_as_asked(ledger.clone(), None, &some("2024-03-06"), &None), unasked());
    let days = vec![day("2024-03-05"), day("2024-03-31")];
    assert_eq!(
        only_days_within(days.clone(), "2024-03-05".to_string(), "2024-03-31".to_string()),
        Ok(days.clone())
    );
    assert_eq!(
        only_days_within(days.clone(), "2024-03-05".to_string(), "2024-03-30".to_string()),
        unasked()
    );
    let months = vec![day("2024-03"), day("2024-04")];
    assert_eq!(only_months_of_year(months.clone(), 2024), Ok(months.clone()));
    assert_eq!(only_months_of_year(months.clone(), 2023), unasked());
}

fn account_row(id: i64) -> Vec<Cell> {
    vec![
        Cell::Integer(id),
        Cell::Text("a".to_string()),
        Cell::Text("s".to_string()),
        Cell::Integer(1),
        Cell::Integer(2),
        Cell::Integer(3),
    ]
}

#[test]
fn rows_make_a_list_that_is_strictly_in_order() {
    let rows = vec![account_row(3), account_row(1), account_row(2)];
    let list: Vec<Account> = list_of(&rows).unwrap();
    let ids: Vec<i64> = list.iter().map(|a| a.id).collect();
    assert_eq!(ids, vec![1, 2, 3]);
    assert_eq!(list_of::<Account>(&vec![]), Ok(vec![]));
}

#[test]
fn rows_with_one_record_twice_make_no_list() {
    let rows = vec![account_row(3), account_row(1), account_row(3)];
    assert_eq!(
        list_of::<Account>(&rows),
        Err("the store answered with the same record twice".to_string())
    );
}

#[test]
fn rows_that_do_not_decode_make_no_list() {
    let mut bad = account_row(2);
    bad[4] = Cell::Null;
    let rows = vec![account_row(3), bad, account_row(3)];
    assert_eq!(
        list_of::<Account>(&rows),
        Err("column 4 holds a value of an unexpected type".to_string())
    );
}
