use mhxy_store::schema::{open_failure, plan, verdict, Reaction, Verdict};
use mhxy_store::spend::{settle, Settlement};

#[test]
fn only_the_creation_of_the_tables_stops_an_initialization() {
    let steps = plan();
    assert_eq!(steps.len(), 7);
    assert_eq!(steps[0].on_failure, Reaction::Stop);
    assert!(steps[0].batch);
    assert!(steps[0].sql.contains("CREATE TABLE IF NOT EXISTS accounts"));
    assert!(steps[0].sql.contains("CREATE TABLE IF NOT EXISTS master_skills"));
    assert!(steps[0].sql.contains("CREATE TABLE IF NOT EXISTS assist_skills"));
    assert!(steps[0].sql.contains("CREATE TABLE IF NOT EXISTS cultivations"));
    assert!(steps[0].sql.contains("CREATE TABLE IF NOT EXISTS spend_logs"));
    assert!(steps[0].sql.contains("CREATE TABLE IF NOT EXISTS change_logs"));
    for step in &steps[1..6] {
        assert_eq!(step.on_failure, Reaction::Ignore);
        assert!(!step.batch);
    }
    assert_eq!(steps[1].sql, "ALTER TABLE cultivations ADD COLUMN mode TEXT NOT NULL DEFAULT '2w'");
    assert_eq!(
        steps[2].sql,
        "ALTER TABLE cultivations ADD COLUMN current_exp INTEGER NOT NULL DEFAULT 0"
    );
    assert_eq!(steps[3].sql, "ALTER TABLE cultivations ADD COLUMN name TEXT NOT NULL DEFAULT ''");
    assert_eq!(steps[4].sql, "ALTER TABLE accounts ADD COLUMN gold INTEGER NOT NULL DEFAULT 0");
    assert_eq!(
        steps[5].sql,
        "UPDATE cultivations SET name = CASE WHEN mode='2w' THEN 'defense' ELSE 'attack' END WHERE name IS NULL OR name=''"
    );
    assert_eq!(steps[6].on_failure, Reaction::Abandon);
    assert!(steps[6].batch);
    assert!(steps[6].sql.contains("BEGIN TRANSACTION;"));
    assert!(steps[6].sql.contains("ALTER TABLE cultivations_v2 RENAME TO cultivations;"));
    assert!(steps[6].sql.contains("COMMIT;"));
}

#[test]
fn verdict_after_a_step() {
    assert!(matches!(verdict(Reaction::Stop, Ok(())), Verdict::Proceed));
    assert!(matches!(verdict(Reaction::Ignore, Ok(())), Verdict::Proceed));
    assert!(matches!(verdict(Reaction::Abandon, Ok(())), Verdict::Proceed));
    assert!(matches!(verdict(Reaction::Ignore, Err("x".to_string())), Verdict::Proceed));
    assert!(matches!(verdict(Reaction::Abandon, Err("x".to_string())), Verdict::AbandonAndProceed));
    match verdict(Reaction::Stop, Err("disk full".to_string())) {
        Verdict::Fail(message) => assert_eq!(message, "初始化表失败: disk full"),
        _ => panic!("a failed creation must stop the initialization"),
    }
}

#[test]
fn failure_to_open_is_worded() {
    assert_eq!(open_failure("no such file".to_string()), "打开数据库失败: no such file");
}

#[test]
fn a_spend_is_committed_only_when_both_writes_went_well() {
    assert_eq!(settle(Ok(1), Some(Ok(1))), Settlement::Commit);
    assert_eq!(settle(Ok(1), Some(Ok(0))), Settlement::Commit);
    assert_eq!(
        settle(Ok(1), Some(Err("no gold".to_string()))),
        Settlement::RollBack("no gold".to_string())
    );
    assert_eq!(
        settle(Err("no account".to_string()), None),
        Settlement::RollBack("no account".to_string())
    );
    assert_eq!(
        settle(Err("no account".to_string()), Some(Ok(1))),
        Settlement::RollBack("no account".to_string())
    );
    assert_eq!(
        settle(Ok(1), None),
        Settlement::RollBack("the gold was not charged".to_string())
    );
}

#[test]
fn the_schema_holds_the_rules_of_the_store() {
    let tables = plan()[0].sql;
    assert_eq!(tables.matches("ON DELETE CASCADE").count(), 5);
    assert_eq!(tables.matches("FOREIGN KEY(account_id) REFERENCES accounts(id)").count(), 5);
    assert_eq!(tables.matches("UNIQUE(account_id, skill_name)").count(), 2);
    assert_eq!(tables.matches("AUTOINCREMENT").count(), 6);
    assert!(tables.contains("PRAGMA foreign_keys = ON;"));
    let rebuild = plan()[6].sql;
    assert!(!rebuild.contains("UNIQUE"));
    assert!(rebuild.contains("ON DELETE CASCADE"));
}
