use mhxy_store::order::{check_strict_order, put_in_order, rank, Rank, Ranked};
use mhxy_store::records::{Account, ChangeLog, SpendLog, SpendSummary};
use mhxy_store::listing::gather;

fn log(id: i64, date: &str) -> SpendLog {
    SpendLog {
        id,
        account_id: 1,
        amount: id * 10,
        date: date.to_string(),
        note: None,
        created_at: "".to_string(),
    }
}

fn account(id: i64) -> Account {
    Account { id, name: "".to_string(), school: "".to_string(), level: 0, experience: 0, gold: 0 }
}

#[test]
fn texts_are_ranked_byte_by_byte() {
    assert_eq!(rank(b"", b""), Rank::Same);
    assert_eq!(rank(b"", b"a"), Rank::Before);
    assert_eq!(rank(b"a", b""), Rank::After);
    assert_eq!(rank(b"2024-03-05", b"2024-03-05"), Rank::Same);
    assert_eq!(rank(b"2024-03-05", b"2024-04-01"), Rank::Before);
    assert_eq!(rank(b"2024-04-01", b"2024-03-05"), Rank::After);
    assert_eq!(rank(b"2024", b"2024-01"), Rank::Before);
    assert_eq!(rank(b"2024-10", b"2024-9"), Rank::Before);
    assert_eq!(rank(&[0xff], &[0x7f, 0x00]), Rank::After);
}

#[test]
fn spend_logs_are_put_newest_first() {
    let given = vec![
        log(1, "2024-03-05"),
        log(2, "2024-05-01"),
        log(3, "2024-03-05"),
        log(4, "2023-01-01"),
        log(5, "2024-05-01"),
    ];
    let ordered = put_in_order(given);
    let ids: Vec<i64> = ordered.iter().map(|l| l.id).collect();
    assert_eq!(ids, vec![5, 2, 3, 1, 4]);
    assert_eq!(ordered[3], log(1, "2024-03-05"));
}

#[test]
fn spend_log_stands_ahead_by_date_then_identifier() {
    assert!(log(1, "2024-03-06").is_ahead(&log(9, "2024-03-05")));
    assert!(!log(9, "2024-03-05").is_ahead(&log(1, "2024-03-06")));
    assert!(log(2, "2024-03-05").is_ahead(&log(1, "2024-03-05")));
    assert!(!log(1, "2024-03-05").is_ahead(&log(2, "2024-03-05")));
    assert!(!log(1, "2024-03-05").is_ahead(&log(1, "2024-03-05")));
}

#[test]
fn accounts_are_put_by_identifier() {
    let ordered = put_in_order(vec![account(3), account(1), account(2), account(1)]);
    let ids: Vec<i64> = ordered.iter().map(|a| a.id).collect();
    assert_eq!(ids, vec![1, 1, 2, 3]);
    assert_eq!(put_in_order::<Account>(vec![]), vec![]);
}

#[test]
fn change_logs_are_put_highest_identifier_first() {
    let entry = |id: i64| ChangeLog {
        id,
        account_id: 1,
        category: "".to_string(),
        name: "".to_string(),
        from_level: None,
        to_level: None,
        from_exp: None,
        to_exp: None,
        consumed_exp: 0,
        consumed_money: 0,
        consumed_gang: 0,
        consumed_cultivation_exp: 0,
        date: "".to_string(),
        created_at: "".to_string(),
    };
    let ordered = put_in_order(vec![entry(1), entry(3), entry(2)]);
    let ids: Vec<i64> = ordered.iter().map(|a| a.id).collect();
    assert_eq!(ids, vec![3, 2, 1]);
}

#[test]
fn summaries_are_put_earliest_first() {
    let sum = |date: &str, total: i64| SpendSummary { date: date.to_string(), total };
    let ordered = put_in_order(vec![sum("2024-04", 20), sum("2024-03", 150), sum("2024-12", 1)]);
    assert_eq!(ordered, vec![sum("2024-03", 150), sum("2024-04", 20), sum("2024-12", 1)]);
}

#[test]
fn gather_gives_all_values_or_the_first_error() {
    let all: Vec<Result<i32, String>> = vec![Ok(1), Ok(2), Ok(3)];
    assert_eq!(gather(all), Ok(vec![1, 2, 3]));
    let some: Vec<Result<i32, String>> =
        vec![Ok(1), Err("first".to_string()), Ok(3), Err("second".to_string())];
    assert_eq!(gather(some), Err("first".to_string()));
    let none: Vec<Result<i32, String>> = vec![];
    assert_eq!(gather(none), Ok(vec![]));
}

#[test]
fn a_list_is_strictly_in_order_when_no_two_records_hold_one_place() {
    assert!(check_strict_order(&vec![account(1), account(2), account(5)]));
    assert!(!check_strict_order(&vec![account(1), account(2), account(2)]));
    assert!(!check_strict_order(&vec![account(2), account(1)]));
    assert!(check_strict_order(&vec![account(2)]));
    assert!(check_strict_order::<Account>(&vec![]));
    assert!(check_strict_order(&vec![log(2, "2024-03-05"), log(1, "2024-03-05"), log(9, "2024-01-01")]));
    assert!(!check_strict_order(&vec![log(1, "2024-03-05"), log(1, "2024-03-05")]));
    assert!(!check_strict_order(&vec![log(1, "2024-03-05"), log(2, "2024-03-05")]));
}
