//! The statements that the store sends to the engine: for each operation the
//! text and the values bound to its placeholders.

use vstd::prelude::*;
use vstd::string::StringExecFns;
use crate::value::{optional_integer_view, optional_text_view, param_views, Param, ParamView};

verus! {

pub const INSERT_ACCOUNT: &'static str =
    "INSERT INTO accounts (name, school, level, experience) VALUES (?1, ?2, ?3, ?4)";

pub const UPDATE_ACCOUNT: &'static str =
    "UPDATE accounts SET name = ?1, school = ?2, level = ?3, experience = ?4 WHERE id = ?5";

pub const DELETE_ACCOUNT: &'static str = "DELETE FROM accounts WHERE id = ?1";

pub const SELECT_ACCOUNTS: &'static str =
    "SELECT id, name, school, level, experience, gold FROM accounts ORDER BY id";

pub const INSERT_CHANGE_LOG: &'static str =
    "INSERT INTO change_logs (account_id, category, name, from_level, to_level, from_exp, to_exp, consumed_exp, consumed_money, consumed_gang, consumed_cultivation_exp, date) VALUES (?1, ?2, ?3, ?4, ?5, ?6, ?7, ?8, ?9, ?10, ?11, ?12)";

pub const SELECT_CHANGE_LOGS: &'static str =
    "SELECT id, account_id, category, name, from_level, to_level, from_exp, to_exp, consumed_exp, consumed_money, consumed_gang, consumed_cultivation_exp, date, created_at FROM change_logs WHERE account_id = ?1 ORDER BY id DESC";

pub const INSERT_SPEND_LOG: &'static str =
    "INSERT INTO spend_logs (account_id, amount, date, note) VALUES (?1, ?2, ?3, ?4)";

pub const DECREMENT_GOLD: &'static str = "UPDATE accounts SET gold = gold - ?1 WHERE id = ?2";

pub const SELECT_SPEND_LOGS: &'static str =
    "SELECT id, account_id, amount, date, note, created_at FROM spend_logs WHERE 1=1";

pub const OF_ACCOUNT: &'static str = " AND account_id = ?";

pub const NOT_BEFORE: &'static str = " AND date >= ?";

pub const NOT_AFTER: &'static str = " AND date <= ?";

pub const NEWEST_FIRST: &'static str = " ORDER BY date DESC, id DESC";

pub const DAILY_SUMMARY: &'static str =
    "SELECT date, SUM(amount) as total FROM spend_logs WHERE date BETWEEN ?1 AND ?2 GROUP BY date ORDER BY date";

pub const MONTHLY_SUMMARY: &'static str =
    "SELECT substr(date,1,7) as ym, SUM(amount) as total FROM spend_logs WHERE substr(date,1,4)=CAST(?1 AS TEXT) GROUP BY ym ORDER BY ym";

pub const INSERT_MASTER_SKILL: &'static str =
    "INSERT INTO master_skills (account_id, skill_name, current_level, target_level) VALUES (?1, ?2, ?3, ?4)";

pub const UPDATE_MASTER_SKILL: &'static str =
    "UPDATE master_skills SET current_level = ?1, target_level = ?2 WHERE id = ?3";

pub const DELETE_MASTER_SKILL: &'static str = "DELETE FROM master_skills WHERE id = ?1";

pub const SELECT_MASTER_SKILLS: &'static str =
    "SELECT id, account_id, skill_name, current_level, target_level FROM master_skills WHERE account_id = ?1 ORDER BY id";

pub const INSERT_ASSIST_SKILL: &'static str =
    "INSERT INTO assist_skills (account_id, skill_name, current_level, target_level) VALUES (?1, ?2, ?3, ?4)";

pub const UPDATE_ASSIST_SKILL: &'static str =
    "UPDATE assist_skills SET current_level = ?1, target_level = ?2 WHERE id = ?3";

pub const DELETE_ASSIST_SKILL: &'static str = "DELETE FROM assist_skills WHERE id = ?1";

pub const SELECT_ASSIST_SKILLS: &'static str =
    "SELECT id, account_id, skill_name, current_level, target_level FROM assist_skills WHERE account_id = ?1 ORDER BY id";

pub const INSERT_CULTIVATION: &'static str =
    "INSERT INTO cultivations (account_id, name, type, mode, current_exp, current_level, target_level) VALUES (?1, ?2, ?3, ?4, ?5, ?6, ?7)";

pub const UPDATE_CULTIVATION_AND_NAME: &'static str =
    "UPDATE cultivations SET name = ?1, mode = ?2, current_exp = ?3, current_level = ?4, target_level = ?5 WHERE id = ?6";

pub const UPDATE_CULTIVATION: &'static str =
    "UPDATE cultivations SET mode = ?1, current_exp = ?2, current_level = ?3, target_level = ?4 WHERE id = ?5";

pub const DELETE_CULTIVATION: &'static str = "DELETE FROM cultivations WHERE id = ?1";

pub const SELECT_CULTIVATIONS: &'static str =
    "SELECT id, account_id, name, type, mode, current_exp, current_level, target_level FROM cultivations WHERE account_id = ?1 ORDER BY id";

pub const SELECT_UNNAMED_CULTIVATIONS: &'static str =
    "SELECT id, account_id, type, mode, current_exp, current_level, target_level FROM cultivations WHERE account_id = ?1 ORDER BY id";

/// A statement ready to be sent: its text, and one value for each of its
/// placeholders, in their order.
#[derive(Debug, Clone, PartialEq, Eq)]
pub struct Command {
    pub sql: String,
    pub params: Vec<Param>,
}

/// The mathematical content of a [`Command`].
pub struct CommandView {
    pub sql: Seq<char>,
    pub params: Seq<ParamView>,
}

impl View for Command {
    type V = CommandView;

    open spec fn view(&self) -> CommandView {
        CommandView { sql: self.sql@, params: param_views(self.params@) }
    }
}

/// The two kinds of skill. Each kind has a table of its own, of the same
/// shape.
#[derive(Debug, Clone, Copy, PartialEq, Eq)]
pub enum SkillKind {
    Master,
    Assist,
}

fn command(sql: &str, params: Vec<Param>) -> (c: Command)
    ensures
        c@.sql == sql@,
        c@.params == param_views(params@),
{
    Command { sql: String::from_str(sql), params }
}

/// Adds an account. Its gold is not named, and so starts at the zero that
/// the schema gives it.
pub fn insert_account(name: String, school: String, level: i32, experience: i64) -> (c: Command)
    ensures
        c@.sql == INSERT_ACCOUNT@,
        c@.params == seq![
            ParamView::Text(name@),
            ParamView::Text(school@),
            ParamView::Integer(level as i64),
            ParamView::Integer(experience),
        ],
{
    command(
        INSERT_ACCOUNT,
        vec![
            Param::Text(name),
            Param::Text(school),
            Param::Integer(level as i64),
            Param::Integer(experience),
        ],
    )
}

/// Sets the name, school, level and experience of the account `id`.
pub fn update_account(id: i64, name: String, school: String, level: i32, experience: i64) -> (c:
    Command)
    ensures
        c@.sql == UPDATE_ACCOUNT@,
        c@.params == seq![
            ParamView::Text(name@),
            ParamView::Text(school@),
            ParamView::Integer(level as i64),
            ParamView::Integer(experience),
            ParamView::Integer(id),
        ],
{
    command(
        UPDATE_ACCOUNT,
        vec![
            Param::Text(name),
            Param::Text(school),
            Param::Integer(level as i64),
            Param::Integer(experience),
            Param::Integer(id),
        ],
    )
}

/// Deletes the account `id`.
pub fn delete_account(id: i64) -> (c: Command)
    ensures
        c@.sql == DELETE_ACCOUNT@,
        c@.params == seq![ParamView::Integer(id)],
{
    command(DELETE_ACCOUNT, vec![Param::Integer(id)])
}

/// Lists all accounts.
pub fn select_accounts() -> (c: Command)
    ensures
        c@.sql == SELECT_ACCOUNTS@,
        c@.params == Seq::<ParamView>::empty(),
{
    command(SELECT_ACCOUNTS, Vec::new())
}

/// Appends an entry to the change ledger. A level or an experience that is
/// absent is stored as NULL.
pub fn insert_change_log(
    account_id: i64,
    category: String,
    name: String,
    from_level: Option<i32>,
    to_level: Option<i32>,
    from_exp: Option<i32>,
    to_exp: Option<i32>,
    consumed_exp: i64,
    consumed_money: i64,
    consumed_gang: i64,
    consumed_cultivation_exp: i64,
    date: String,
) -> (c: Command)
    ensures
        c@.sql == INSERT_CHANGE_LOG@,
        c@.params == seq![
            ParamView::Integer(account_id),
            ParamView::Text(category@),
            ParamView::Text(name@),
            optional_integer_view(from_level),
            optional_integer_view(to_level),
            optional_integer_view(from_exp),
            optional_integer_view(to_exp),
            ParamView::Integer(consumed_exp),
            ParamView::Integer(consumed_money),
            ParamView::Integer(consumed_gang),
            ParamView::Integer(consumed_cultivation_exp),
            ParamView::Text(date@),
        ],
{
    command(
        INSERT_CHANGE_LOG,
        vec![
            Param::Integer(account_id),
            Param::Text(category),
            Param::Text(name),
            Param::optional_integer(from_level),
            Param::optional_integer(to_level),
            Param::optional_integer(from_exp),
            Param::optional_integer(to_exp),
            Param::Integer(consumed_exp),
            Param::Integer(consumed_money),
            Param::Integer(consumed_gang),
            Param::Integer(consumed_cultivation_exp),
            Param::Text(date),
        ],
    )
}

/// Lists the change ledger of an account.
pub fn select_change_logs(account_id: i64) -> (c: Command)
    ensures
        c@.sql == SELECT_CHANGE_LOGS@,
        c@.params == seq![ParamView::Integer(account_id)],
{
    command(SELECT_CHANGE_LOGS, vec![Param::Integer(account_id)])
}

/// Appends an entry to the spend ledger. A note that is absent is stored as
/// NULL.
pub fn insert_spend_log(account_id: i64, amount: i64, date: String, note: Option<String>) -> (c:
    Command)
    ensures
        c@.sql == INSERT_SPEND_LOG@,
        c@.params == seq![
            ParamView::Integer(account_id),
            ParamView::Integer(amount),
            ParamView::Text(date@),
            optional_text_view(note),
        ],
{
    command(
        INSERT_SPEND_LOG,
        vec![
            Param::Integer(account_id),
            Param::Integer(amount),
            Param::Text(date),
            Param::optional_text(note),
        ],
    )
}

/// Takes `amount` off the gold of one account, whatever balance that leaves.
pub fn decrement_gold(account_id: i64, amount: i64) -> (c: Command)
    ensures
        c@.sql == DECREMENT_GOLD@,
        c@.params == seq![ParamView::Integer(amount), ParamView::Integer(account_id)],
{
    command(DECREMENT_GOLD, vec![Param::Integer(amount), Param::Integer(account_id)])
}

/// The text of the ledger query: one condition for each filter that is
/// given, then the order.
pub open spec fn spend_logs_sql(of_account: bool, not_before: bool, not_after: bool) -> Seq<char> {
    SELECT_SPEND_LOGS@ + (if of_account {
        OF_ACCOUNT@
    } else {
        Seq::empty()
    }) + (if not_before {
        NOT_BEFORE@
    } else {
        Seq::empty()
    }) + (if not_after {
        NOT_AFTER@
    } else {
        Seq::empty()
    }) + NEWEST_FIRST@
}

/// The values of the ledger query: those of the filters that are given, in
/// the order of their conditions.
pub open spec fn spend_logs_params(
    account_id: Option<i64>,
    start: Option<String>,
    end: Option<String>,
) -> Seq<ParamView> {
    (match account_id {
        Some(id) => seq![ParamView::Integer(id)],
        None => Seq::empty(),
    }) + (match start {
        Some(s) => seq![ParamView::Text(s@)],
        None => Seq::empty(),
    }) + (match end {
        Some(e) => seq![ParamView::Text(e@)],
        None => Seq::empty(),
    })
}

/// Lists the spend ledger, with one condition for each filter that is given.
pub fn select_spend_logs(account_id: Option<i64>, start: Option<String>, end: Option<String>) -> (c:
    Command)
    ensures
        c@.sql == spend_logs_sql(account_id is Some, start is Some, end is Some),
        c@.params == spend_logs_params(account_id, start, end),
{
    let mut sql = String::from_str(SELECT_SPEND_LOGS);
    let mut params: Vec<Param> = Vec::new();
    if let Some(id) = account_id {
        sql.append(OF_ACCOUNT);
        params.push(Param::Integer(id));
    }
    if let Some(s) = start {
        sql.append(NOT_BEFORE);
        params.push(Param::Text(s));
    }
    if let Some(e) = end {
        sql.append(NOT_AFTER);
        params.push(Param::Text(e));
    }
    sql.append(NEWEST_FIRST);
    Command { sql, params }
}

/// Adds up the amounts of each day from `start` to `end`.
pub fn daily_summary(start: String, end: String) -> (c: Command)
    ensures
        c@.sql == DAILY_SUMMARY@,
        c@.params == seq![ParamView::Text(start@), ParamView::Text(end@)],
{
    command(DAILY_SUMMARY, vec![Param::Text(start), Param::Text(end)])
}

/// Adds up the amounts of each month of the dates that start with the year.
pub fn monthly_summary(year: i32) -> (c: Command)
    ensures
        c@.sql == MONTHLY_SUMMARY@,
        c@.params == seq![ParamView::Integer(year as i64)],
{
    command(MONTHLY_SUMMARY, vec![Param::Integer(year as i64)])
}

/// The text that adds a skill of a kind.
pub open spec fn insert_skill_sql(kind: SkillKind) -> Seq<char> {
    match kind {
        SkillKind::Master => INSERT_MASTER_SKILL@,
        SkillKind::Assist => INSERT_ASSIST_SKILL@,
    }
}

/// The text that sets the levels of a skill of a kind.
pub open spec fn update_skill_sql(kind: SkillKind) -> Seq<char> {
    match kind {
        SkillKind::Master => UPDATE_MASTER_SKILL@,
        SkillKind::Assist => UPDATE_ASSIST_SKILL@,
    }
}

/// The text that deletes a skill of a kind.
pub open spec fn delete_skill_sql(kind: SkillKind) -> Seq<char> {
    match kind {
        SkillKind::Master => DELETE_MASTER_SKILL@,
        SkillKind::Assist => DELETE_ASSIST_SKILL@,
    }
}

/// The text that lists the skills of a kind.
pub open spec fn select_skills_sql(kind: SkillKind) -> Seq<char> {
    match kind {
        SkillKind::Master => SELECT_MASTER_SKILLS@,
        SkillKind::Assist => SELECT_ASSIST_SKILLS@,
    }
}

/// Adds a skill of a kind to an account.
pub fn insert_skill(
    kind: SkillKind,
    account_id: i64,
    skill_name: String,
    current_level: i32,
    target_level: i32,
) -> (c: Command)
    ensures
        c@.sql == insert_skill_sql(kind),
        c@.params == seq![
            ParamView::Integer(account_id),
            ParamView::Text(skill_name@),
            ParamView::Integer(current_level as i64),
            ParamView::Integer(target_level as i64),
        ],
{
    let sql = match kind {
        SkillKind::Master => INSERT_MASTER_SKILL,
        SkillKind::Assist => INSERT_ASSIST_SKILL,
    };
    command(
        sql,
        vec![
            Param::Integer(account_id),
            Param::Text(skill_name),
            Param::Integer(current_level as i64),
            Param::Integer(target_level as i64),
        ],
    )
}

/// Sets the current and the target level of the skill `id` of a kind.
pub fn update_skill(kind: SkillKind, id: i64, current_level: i32, target_level: i32) -> (c: Command)
    ensures
        c@.sql == update_skill_sql(kind),
        c@.params == seq![
            ParamView::Integer(current_level as i64),
            ParamView::Integer(target_level as i64),
            ParamView::Integer(id),
        ],
{
    let sql = match kind {
        SkillKind::Master => UPDATE_MASTER_SKILL,
        SkillKind::Assist => UPDATE_ASSIST_SKILL,
    };
    command(
        sql,
        vec![
            Param::Integer(current_level as i64),
            Param::Integer(target_level as i64),
            Param::Integer(id),
        ],
    )
}

/// Deletes the skill `id` of a kind.
pub fn delete_skill(kind: SkillKind, id: i64) -> (c: Command)
    ensures
        c@.sql == delete_skill_sql(kind),
        c@.params == seq![ParamView::Integer(id)],
{
    let sql = match kind {
        SkillKind::Master => DELETE_MASTER_SKILL,
        SkillKind::Assist => DELETE_ASSIST_SKILL,
    };
    command(sql, vec![Param::Integer(id)])
}

/// Lists the skills of a kind of an account.
pub fn select_skills(kind: SkillKind, account_id: i64) -> (c: Command)
    ensures
        c@.sql == select_skills_sql(kind),
        c@.params == seq![ParamView::Integer(account_id)],
{
    let sql = match kind {
        SkillKind::Master => SELECT_MASTER_SKILLS,
        SkillKind::Assist => SELECT_ASSIST_SKILLS,
    };
    command(sql, vec![Param::Integer(account_id)])
}

/// Adds a training track to an account.
pub fn insert_cultivation(
    account_id: i64,
    name: String,
    type_: String,
    mode: String,
    current_exp: i32,
    current_level: i32,
    target_level: i32,
) -> (c: Command)
    ensures
        c@.sql == INSERT_CULTIVATION@,
        c@.params == seq![
            ParamView::Integer(account_id),
            ParamView::Text(name@),
            ParamView::Text(type_@),
            ParamView::Text(mode@),
            ParamView::Integer(current_exp as i64),
            ParamView::Integer(current_level as i64),
            ParamView::Integer(target_level as i64),
        ],
{
    command(
        INSERT_CULTIVATION,
        vec![
            Param::Integer(account_id),
            Param::Text(name),
            Param::Text(type_),
            Param::Text(mode),
            Param::Integer(current_exp as i64),
            Param::Integer(current_level as i64),
            Param::Integer(target_level as i64),
        ],
    )
}

/// With a name, the statement that also assigns the name; without one, the
/// statement that assigns the other fields only.
pub fn update_cultivation(
    id: i64,
    name: Option<String>,
    mode: String,
    current_exp: i32,
    current_level: i32,
    target_level: i32,
) -> (c: Command)
    ensures
        match name {
            Some(nm) => {
                &&& c@.sql == UPDATE_CULTIVATION_AND_NAME@
                &&& c@.params == seq![
                    ParamView::Text(nm@),
                    ParamView::Text(mode@),
                    ParamView::Integer(current_exp as i64),
                    ParamView::Integer(current_level as i64),
                    ParamView::Integer(target_level as i64),
                    ParamView::Integer(id),
                ]
            },
            None => {
                &&& c@.sql == UPDATE_CULTIVATION@
                &&& c@.params == seq![
                    ParamView::Text(mode@),
                    ParamView::Integer(current_exp as i64),
                    ParamView::Integer(current_level as i64),
                    ParamView::Integer(target_level as i64),
                    ParamView::Integer(id),
                ]
            },
        },
{
    match name {
        Some(nm) => command(
            UPDATE_CULTIVATION_AND_NAME,
            vec![
                Param::Text(nm),
                Param::Text(mode),
                Param::Integer(current_exp as i64),
                Param::Integer(current_level as i64),
                Param::Integer(target_level as i64),
                Param::Integer(id),
            ],
        ),
        None => command(
            UPDATE_CULTIVATION,
            vec![
                Param::Text(mode),
                Param::Integer(current_exp as i64),
                Param::Integer(current_level as i64),
                Param::Integer(target_level as i64),
                Param::Integer(id),
            ],
        ),
    }
}

/// Deletes the training track `id`.
pub fn delete_cultivation(id: i64) -> (c: Command)
    ensures
        c@.sql == DELETE_CULTIVATION@,
        c@.params == seq![ParamView::Integer(id)],
{
    command(DELETE_CULTIVATION, vec![Param::Integer(id)])
}

/// Lists the training tracks of an account.
pub fn select_cultivations(account_id: i64) -> (c: Command)
    ensures
        c@.sql == SELECT_CULTIVATIONS@,
        c@.params == seq![ParamView::Integer(account_id)],
{
    command(SELECT_CULTIVATIONS, vec![Param::Integer(account_id)])
}

/// The query for a store whose training tracks have no name column yet.
pub fn select_unnamed_cultivations(account_id: i64) -> (c: Command)
    ensures
        c@.sql == SELECT_UNNAMED_CULTIVATIONS@,
        c@.params == seq![ParamView::Integer(account_id)],
{
    command(SELECT_UNNAMED_CULTIVATIONS, vec![Param::Integer(account_id)])
}

} // verus!
