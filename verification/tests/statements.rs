use mhxy_store::statement;
use mhxy_store::statement::{Command, SkillKind};
use mhxy_store::value::Param;

fn text(s: &str) -> Param {
    Param::Text(s.to_string())
}

#[test]
fn account_statements() {
    assert_eq!(
        statement::insert_account("a".to_string(), "s".to_string(), 3, 4),
        Command {
            sql: "INSERT INTO accounts (name, school, level, experience) VALUES (?1, ?2, ?3, ?4)"
                .to_string(),
            params: vec![text("a"), text("s"), Param::Integer(3), Param::Integer(4)],
        }
    );
    assert_eq!(
        statement::update_account(9, "a".to_string(), "s".to_string(), 3, 4),
        Command {
            sql: "UPDATE accounts SET name = ?1, school = ?2, level = ?3, experience = ?4 WHERE id = ?5"
                .to_string(),
            params: vec![text("a"), text("s"), Param::Integer(3), Param::Integer(4), Param::Integer(9)],
        }
    );
    assert_eq!(
        statement::delete_account(9),
        Command { sql: "DELETE FROM accounts WHERE id = ?1".to_string(), params: vec![Param::Integer(9)] }
    );
    assert_eq!(
        statement::select_accounts(),
        Command {
            sql: "SELECT id, name, school, level, experience, gold FROM accounts ORDER BY id".to_string(),
            params: vec![],
        }
    );
}

#[test]
fn spend_statements() {
    assert_eq!(
        statement::insert_spend_log(1, -20, "2024-03-05".to_string(), None),
        Command {
            sql: "INSERT INTO spend_logs (account_id, amount, date, note) VALUES (?1, ?2, ?3, ?4)".to_string(),
            params: vec![Param::Integer(1), Param::Integer(-20), text("2024-03-05"), Param::Null],
        }
    );
    assert_eq!(
        statement::insert_spend_log(1, 20, "2024-03-05".to_string(), Some("n".to_string())).params[3],
        text("n")
    );
    assert_eq!(
        statement::decrement_gold(7, 20),
        Command {
            sql: "UPDATE accounts SET gold = gold - ?1 WHERE id = ?2".to_string(),
            params: vec![Param::Integer(20), Param::Integer(7)],
        }
    );
}

#[test]
fn ledger_query_has_one_condition_for_each_filter() {
    let base = "SELECT id, account_id, amount, date, note, created_at FROM spend_logs WHERE 1=1";
    let order = " ORDER BY date DESC, id DESC";
    assert_eq!(
        statement::select_spend_logs(None, None, None),
        Command { sql: format!("{}{}", base, order), params: vec![] }
    );
    assert_eq!(
        statement::select_spend_logs(Some(5), None, None),
        Command { sql: format!("{} AND account_id = ?{}", base, order), params: vec![Param::Integer(5)] }
    );
    assert_eq!(
        statement::select_spend_logs(None, Some("a".to_string()), None),
        Command { sql: format!("{} AND date >= ?{}", base, order), params: vec![text("a")] }
    );
    assert_eq!(
        statement::select_spend_logs(None, None, Some("b".to_string())),
        Command { sql: format!("{} AND date <= ?{}", base, order), params: vec![text("b")] }
    );
    assert_eq!(
        statement::select_spend_logs(Some(5), Some("a".to_string()), Some("b".to_string())),
        Command {
            sql: format!("{} AND account_id = ? AND date >= ? AND date <= ?{}", base, order),
            params: vec![Param::Integer(5), text("a"), text("b")],
        }
    );
    assert_eq!(
        statement::select_spend_logs(Some(5), None, Some("b".to_string())),
        Command {
            sql: format!("{} AND account_id = ? AND date <= ?{}", base, order),
            params: vec![Param::Integer(5), text("b")],
        }
    );
}

#[test]
fn summary_statements() {
    assert_eq!(
        statement::daily_summary("2024-03-01".to_string(), "2024-03-31".to_string()),
        Command {
            sql: "SELECT date, SUM(amount) as total FROM spend_logs WHERE date BETWEEN ?1 AND ?2 GROUP BY date ORDER BY date".to_string(),
            params: vec![text("2024-03-01"), text("2024-03-31")],
        }
    );
    assert_eq!(
        statement::monthly_summary(2024),
        Command {
            sql: "SELECT substr(date,1,7) as ym, SUM(amount) as total FROM spend_logs WHERE substr(date,1,4)=CAST(?1 AS TEXT) GROUP BY ym ORDER BY ym".to_string(),
            params: vec![Param::Integer(2024)],
        }
    );
}

#[test]
fn skill_statements_name_the_table_of_their_kind() {
    let params = vec![Param::Integer(1), text("fire"), Param::Integer(2), Param::Integer(3)];
    assert_eq!(
        statement::insert_skill(SkillKind::Master, 1, "fire".to_string(), 2, 3),
        Command {
            sql: "INSERT INTO master_skills (account_id, skill_name, current_level, target_level) VALUES (?1, ?2, ?3, ?4)".to_string(),
            params: params.clone(),
        }
    );
    assert_eq!(
        statement::insert_skill(SkillKind::Assist, 1, "fire".to_string(), 2, 3),
        Command {
            sql: "INSERT INTO assist_skills (account_id, skill_name, current_level, target_level) VALUES (?1, ?2, ?3, ?4)".to_string(),
            params,
        }
    );
    let params = vec![Param::Integer(2), Param::Integer(3), Param::Integer(9)];
    assert_eq!(
        statement::update_skill(SkillKind::Master, 9, 2, 3),
        Command {
            sql: "UPDATE master_skills SET current_level = ?1, target_level = ?2 WHERE id = ?3".to_string(),
            params: params.clone(),
        }
    );
    assert_eq!(
        statement::update_skill(SkillKind::Assist, 9, 2, 3),
        Command {
            sql: "UPDATE assist_skills SET current_level = ?1, target_level = ?2 WHERE id = ?3".to_string(),
            params,
        }
    );
    assert_eq!(
        statement::delete_skill(SkillKind::Master, 9),
        Command { sql: "DELETE FROM master_skills WHERE id = ?1".to_string(), params: vec![Param::Integer(9)] }
    );
    assert_eq!(
        statement::delete_skill(SkillKind::Assist, 9),
        Command { sql: "DELETE FROM assist_skills WHERE id = ?1".to_string(), params: vec![Param::Integer(9)] }
    );
    assert_eq!(
        statement::select_skills(SkillKind::Master, 4),
        Command {
            sql: "SELECT id, account_id, skill_name, current_level, target_level FROM master_skills WHERE account_id = ?1 ORDER BY id".to_string(),
            params: vec![Param::Integer(4)],
        }
    );
    assert_eq!(
        statement::select_skills(SkillKind::Assist, 4),
        Command {
            sql: "SELECT id, account_id, skill_name, current_level, target_level FROM assist_skills WHERE account_id = ?1 ORDER BY id".to_string(),
            params: vec![Param::Integer(4)],
        }
    );
}

#[test]
fn cultivation_update_assigns_the_name_only_where_one_is_given() {
    assert_eq!(
        statement::update_cultivation(9, None, "3w".to_string(), 1, 2, 3),
        Command {
            sql: "UPDATE cultivations SET mode = ?1, current_exp = ?2, current_level = ?3, target_level = ?4 WHERE id = ?5".to_string(),
            params: vec![text("3w"), Param::Integer(1), Param::Integer(2), Param::Integer(3), Param::Integer(9)],
        }
    );
    assert_eq!(
        statement::update_cultivation(9, Some("n".to_string()), "3w".to_string(), 1, 2, 3),
        Command {
            sql: "UPDATE cultivations SET name = ?1, mode = ?2, current_exp = ?3, current_level = ?4, target_level = ?5 WHERE id = ?6".to_string(),
            params: vec![
                text("n"),
                text("3w"),
                Param::Integer(1),
                Param::Integer(2),
                Param::Integer(3),
                Param::Integer(9),
            ],
        }
    );
}

#[test]
fn cultivation_statements() {
    assert_eq!(
        statement::insert_cultivation(1, "n".to_string(), "atk".to_string(), "2w".to_string(), 2, 3, 4),
        Command {
            sql: "INSERT INTO cultivations (account_id, name, type, mode, current_exp, current_level, target_level) VALUES (?1, ?2, ?3, ?4, ?5, ?6, ?7)".to_string(),
            params: vec![
                Param::Integer(1),
                text("n"),
                text("atk"),
                text("2w"),
                Param::Integer(2),
                Param::Integer(3),
                Param::Integer(4),
            ],
        }
    );
    assert_eq!(
        statement::delete_cultivation(3),
        Command { sql: "DELETE FROM cultivations WHERE id = ?1".to_string(), params: vec![Param::Integer(3)] }
    );
    assert_eq!(
        statement::select_cultivations(3),
        Command {
            sql: "SELECT id, account_id, name, type, mode, current_exp, current_level, target_level FROM cultivations WHERE account_id = ?1 ORDER BY id".to_string(),
            params: vec![Param::Integer(3)],
        }
    );
    assert_eq!(
        statement::select_unnamed_cultivations(3),
        Command {
            sql: "SELECT id, account_id, type, mode, current_exp, current_level, target_level FROM cultivations WHERE account_id = ?1 ORDER BY id".to_string(),
            params: vec![Param::Integer(3)],
        }
    );
}

#[test]
fn change_log_statements() {
    assert_eq!(
        statement::insert_change_log(
            1,
            "master".to_string(),
            "fire".to_string(),
            Some(2),
            None,
            None,
            Some(-3),
            4,
            5,
            6,
            7,
            "2024-01-01".to_string()
        ),
        Command {
            sql: "INSERT INTO change_logs (account_id, category, name, from_level, to_level, from_exp, to_exp, consumed_exp, consumed_money, consumed_gang, consumed_cultivation_exp, date) VALUES (?1, ?2, ?3, ?4, ?5, ?6, ?7, ?8, ?9, ?10, ?11, ?12)".to_string(),
            params: vec![
                Param::Integer(1),
                text("master"),
                text("fire"),
                Param::Integer(2),
                Param::Null,
                Param::Null,
                Param::Integer(-3),
                Param::Integer(4),
                Param::Integer(5),
                Param::Integer(6),
                Param::Integer(7),
                text("2024-01-01"),
            ],
        }
    );
    assert_eq!(
        statement::select_change_logs(8),
        Command {
            sql: "SELECT id, account_id, category, name, from_level, to_level, from_exp, to_exp, consumed_exp, consumed_money, consumed_gang, consumed_cultivation_exp, date, created_at FROM change_logs WHERE account_id = ?1 ORDER BY id DESC".to_string(),
            params: vec![Param::Integer(8)],
        }
    );
}

#[test]
fn optional_values_bind_as_null_when_absent() {
    assert_eq!(Param::optional_integer(None), Param::Null);
    assert_eq!(Param::optional_integer(Some(-1)), Param::Integer(-1));
    assert_eq!(Param::optional_text(None), Param::Null);
    assert_eq!(Param::optional_text(Some("".to_string())), text(""));
}
