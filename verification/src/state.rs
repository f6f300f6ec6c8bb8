//! The store: a database file and the operations on it. Every operation
//! opens a connection of its own and sends the statement that `statement`
//! builds for it. Whether a write succeeds, and which rows a query yields, is
//! for the engine to say. A list is handed out only after it was put in
//! order and held against the request; a list in which a record comes twice,
//! or which holds a record that was not asked for, is refused.

use vstd::prelude::*;
use crate::bounds::{all_of_account, days_within, ledger_as_asked, months_of_year, Owned};
use crate::engine::{
    begin, column_count, commit, describe, execute, execute_batch, fetch, inside,
    last_insert_rowid, open, prepare, rollback,
};
use crate::listing::{
    gather, list_of, only_as_asked, only_days_within, only_months_of_year, only_of_account,
};
use crate::order::{strictly_in_order, Ranked};
use crate::records::{
    optional_text, record_views, Account, ChangeLog, Cultivation, Skill, SpendLog, SpendSummary,
};
use crate::schema::{
    lemma_migrations_are_defensive, open_failure, plan, schema_plan, step_views, verdict,
    Verdict, ABANDON,
};
use crate::spend::{settle, Settlement};
use crate::statement;
use crate::statement::{Command, SkillKind};
use crate::value::Param;

verus! {

/// A copy of a text that may be absent.
fn copy_of(text: &Option<String>) -> (r: Option<String>)
    ensures
        r == *text,
{
    match text {
        Some(s) => Some(s.clone()),
        None => None,
    }
}

/// A store in the database file at a given path.
pub struct DbState {
    path: String,
    initialized: bool,
}

impl DbState {
    /// The path of the database file.
    pub closed spec fn location(&self) -> Seq<char> {
        self.path@
    }

    /// Whether this store was initialized.
    pub closed spec fn is_initialized(&self) -> bool {
        self.initialized
    }

    /// A store in the file at `path`, not yet initialized.
    pub fn new(path: String) -> (s: DbState)
        ensures
            s.location() == path@,
            !s.is_initialized(),
    {
        DbState { path, initialized: false }
    }

    fn conn(&self) -> (r: Result<rusqlite::Connection, String>) {
        match open(self.path.as_str()) {
            Ok(conn) => Ok(conn),
            Err(e) => Err(describe(&e)),
        }
    }

    fn write(&self, c: &Command) -> (r: Result<rusqlite::Connection, String>) {
        let conn = self.conn()?;
        match execute(&conn, c.sql.as_str(), &c.params) {
            Ok(_) => Ok(conn),
            Err(e) => Err(describe(&e)),
        }
    }

    fn insert(&self, c: &Command) -> (r: Result<i64, String>) {
        let conn = self.write(c)?;
        Ok(last_insert_rowid(&conn))
    }

    fn change(&self, c: &Command) -> (r: Result<(), String>) {
        let _ = self.write(c)?;
        Ok(())
    }

    fn read<T: Ranked>(&self, c: &Command) -> (r: Result<Vec<T>, String>)
        ensures
            r matches Ok(records) ==> strictly_in_order::<T>(record_views(records@)),
    {
        let conn = self.conn()?;
        let mut stmt = match prepare(&conn, c.sql.as_str()) {
            Ok(stmt) => stmt,
            Err(e) => return Err(describe(&e)),
        };
        answer(&mut stmt, &c.params)
    }

    fn read_of<T: Ranked + Owned>(&self, c: &Command, account_id: i64) -> (r: Result<
        Vec<T>,
        String,
    >)
        ensures
            r matches Ok(records) ==> {
                &&& strictly_in_order::<T>(record_views(records@))
                &&& all_of_account::<T>(record_views(records@), account_id)
            },
    {
        let records = self.read::<T>(c)?;
        only_of_account(records, account_id)
    }

    /// Brings the store's file up to the current schema: creates the tables
    /// that are absent, then runs every migration, none of which can make
    /// the initialization fail. A store that was initialized is left as it
    /// is, and the call succeeds.
    pub fn init(&mut self) -> (r: Result<(), String>)
        ensures
            final(self).location() == old(self).location(),
            old(self).is_initialized() ==> r is Ok,
            final(self).is_initialized() <==> (old(self).is_initialized() || r is Ok),
    {
        if self.initialized {
            return Ok(());
        }
        let conn = match open(self.path.as_str()) {
            Ok(conn) => conn,
            Err(e) => return Err(open_failure(describe(&e))),
        };
        let steps = plan();
        let none: Vec<Param> = Vec::new();
        let mut i: usize = 0;
        while i < steps.len()
            invariant
                i <= steps@.len(),
                step_views(steps@) == schema_plan(),
                !self.initialized,
                self.path@ == old(self).path@,
            decreases steps@.len() - i,
        {
            let step = steps[i];
            assert(step@ == schema_plan()[i as int]) by {
                assert(step_views(steps@)[i as int] == steps@[i as int]@);
            }
            let outcome = if step.batch {
                execute_batch(&conn, step.sql)
            } else {
                match execute(&conn, step.sql, &none) {
                    Ok(_) => Ok(()),
                    Err(e) => Err(e),
                }
            };
            let outcome = match outcome {
                Ok(()) => Ok(()),
                Err(e) => Err(describe(&e)),
            };
            match verdict(step.on_failure, outcome) {
                Verdict::Proceed => {},
                Verdict::AbandonAndProceed => {
                    let _ = execute_batch(&conn, ABANDON);
                },
                Verdict::Fail(message) => {
                    // Only the creation of the tables can end here.
                    proof {
                        lemma_migrations_are_defensive();
                    }
                    assert(i == 0);
                    return Err(message);
                },
            }
            i = i + 1;
        }
        self.initialized = true;
        Ok(())
    }

    /// Adds an account, with no gold, and gives its identifier.
    pub fn add_account(&self, name: String, school: String, level: i32, experience: i64) -> (r:
        Result<i64, String>) {
        self.insert(&statement::insert_account(name, school, level, experience))
    }

    /// Sets the name, school, level and experience of an account. Its gold
    /// is not touched.
    pub fn update_account(
        &self,
        id: i64,
        name: String,
        school: String,
        level: i32,
        experience: i64,
    ) -> (r: Result<(), String>) {
        self.change(&statement::update_account(id, name, school, level, experience))
    }

    /// Deletes an account and, by the schema's cascade, all that belongs to
    /// it.
    pub fn delete_account(&self, id: i64) -> (r: Result<(), String>) {
        self.change(&statement::delete_account(id))
    }

    /// All accounts, by identifier, lowest first.
    pub fn get_all_accounts(&self) -> (r: Result<Vec<Account>, String>)
        ensures
            r matches Ok(list) ==> strictly_in_order::<Account>(record_views(list@)),
    {
        self.read::<Account>(&statement::select_accounts())
    }

    /// Appends an entry to the change ledger and gives its identifier.
    pub fn add_change_log(
        &self,
        account_id: i64,
        category: String,
        name: String,
        from_level: Option<i32>,
        to_level: Option<i32>,
        from_exp: Option<i32>,
        to_exp: Option<i32>,
        consumed_exp: i64,
        consumed_money: i64,
        consumed_gang: i64,
        consumed_cultivation_exp: i64,
        date: String,
    ) -> (r: Result<i64, String>) {
        self.insert(
            &statement::insert_change_log(
                account_id,
                category,
                name,
                from_level,
                to_level,
                from_exp,
                to_exp,
                consumed_exp,
                consumed_money,
                consumed_gang,
                consumed_cultivation_exp,
                date,
            ),
        )
    }

    /// The change ledger of an account, newest entry first.
    pub fn get_change_logs(&self, account_id: i64) -> (r: Result<Vec<ChangeLog>, String>)
        ensures
            r matches Ok(list) ==> strictly_in_order::<ChangeLog>(record_views(list@)),
            r matches Ok(list) ==> all_of_account::<ChangeLog>(record_views(list@), account_id),
    {
        self.read_of::<ChangeLog>(&statement::select_change_logs(account_id), account_id)
    }

    /// Records a spend: appends an entry to the spend ledger and takes the
    /// amount off the account's gold, in one transaction. The transaction is
    /// committed only when both writes went well, and is rolled back
    /// otherwise. Gives the identifier of the entry.
    pub fn add_spend_log(&self, account_id: i64, amount: i64, date: String, note: Option<String>) -> (r:
        Result<i64, String>) {
        let mut conn = self.conn()?;
        let tx = match begin(&mut conn) {
            Ok(tx) => tx,
            Err(e) => return Err(describe(&e)),
        };
        let entry = statement::insert_spend_log(account_id, amount, date, note);
        let charge = statement::decrement_gold(account_id, amount);
        let logged = match execute(inside(&tx), entry.sql.as_str(), &entry.params) {
            Ok(n) => Ok(n),
            Err(e) => Err(describe(&e)),
        };
        let charged = if logged.is_ok() {
            match execute(inside(&tx), charge.sql.as_str(), &charge.params) {
                Ok(n) => Some(Ok(n)),
                Err(e) => Some(Err(describe(&e))),
            }
        } else {
            None
        };
        match settle(logged, charged) {
            Settlement::Commit => {
                let id = last_insert_rowid(inside(&tx));
                match commit(tx) {
                    Ok(()) => Ok(id),
                    Err(e) => Err(describe(&e)),
                }
            },
            Settlement::RollBack(message) => {
                let _ = rollback(tx);
                Err(message)
            },
        }
    }

    /// The spend ledger, of one account or of all, between two dates where
    /// they are given (both included): latest date first, and among the
    /// entries of one date the highest identifier first.
    pub fn get_spend_logs(&self, account_id: Option<i64>, start: Option<String>, end: Option<String>) -> (r:
        Result<Vec<SpendLog>, String>)
        ensures
            r matches Ok(list) ==> strictly_in_order::<SpendLog>(record_views(list@)),
            r matches Ok(list) ==> ledger_as_asked(
                record_views(list@),
                account_id,
                optional_text(start),
                optional_text(end),
            ),
    {
        let query = statement::select_spend_logs(account_id, copy_of(&start), copy_of(&end));
        let ledger = self.read::<SpendLog>(&query)?;
        only_as_asked(ledger, account_id, &start, &end)
    }

    /// The amount spent on each day from `start` to `end`, both included,
    /// earliest day first. A day on which nothing was spent is left out.
    pub fn get_spend_summary_daily(&self, start: String, end: String) -> (r: Result<
        Vec<SpendSummary>,
        String,
    >)
        ensures
            r matches Ok(list) ==> strictly_in_order::<SpendSummary>(record_views(list@)),
            r matches Ok(list) ==> days_within(record_views(list@), start@, end@),
    {
        let days = self.read::<SpendSummary>(&statement::daily_summary(start.clone(), end.clone()))?;
        only_days_within(days, start, end)
    }

    /// The amount spent in each month of a year, earliest month first. A
    /// month in which nothing was spent is left out.
    pub fn get_spend_summary_monthly(&self, year: i32) -> (r: Result<Vec<SpendSummary>, String>)
        ensures
            r matches Ok(list) ==> strictly_in_order::<SpendSummary>(record_views(list@)),
            r matches Ok(list) ==> months_of_year(record_views(list@), year),
    {
        let months = self.read::<SpendSummary>(&statement::monthly_summary(year))?;
        only_months_of_year(months, year)
    }

    /// Adds a master skill to an account and gives its identifier. The
    /// schema refuses a name that the account has among its master skills.
    pub fn add_master_skill(
        &self,
        account_id: i64,
        skill_name: String,
        current_level: i32,
        target_level: i32,
    ) -> (r: Result<i64, String>) {
        self.insert(
            &statement::insert_skill(
                SkillKind::Master,
                account_id,
                skill_name,
                current_level,
                target_level,
            ),
        )
    }

    /// Sets the current and the target level of a master skill.
    pub fn update_master_skill(&self, id: i64, current_level: i32, target_level: i32) -> (r: Result<
        (),
        String,
    >) {
        self.change(&statement::update_skill(SkillKind::Master, id, current_level, target_level))
    }

    /// Deletes a master skill.
    pub fn delete_master_skill(&self, id: i64) -> (r: Result<(), String>) {
        self.change(&statement::delete_skill(SkillKind::Master, id))
    }

    /// The master skills of an account, by identifier, lowest first.
    pub fn get_master_skills(&self, account_id: i64) -> (r: Result<Vec<Skill>, String>)
        ensures
            r matches Ok(list) ==> strictly_in_order::<Skill>(record_views(list@)),
            r matches Ok(list) ==> all_of_account::<Skill>(record_views(list@), account_id),
    {
        self.read_of::<Skill>(
            &statement::select_skills(SkillKind::Master, account_id),
            account_id,
        )
    }

    /// Adds an assist skill to an account and gives its identifier. The
    /// schema refuses a name that the account has among its assist skills.
    pub fn add_assist_skill(
        &self,
        account_id: i64,
        skill_name: String,
        current_level: i32,
        target_level: i32,
    ) -> (r: Result<i64, String>) {
        self.insert(
            &statement::insert_skill(
                SkillKind::Assist,
                account_id,
                skill_name,
                current_level,
                target_level,
            ),
        )
    }

    /// Sets the current and the target level of an assist skill.
    pub fn update_assist_skill(&self, id: i64, current_level: i32, target_level: i32) -> (r: Result<
        (),
        String,
    >) {
        self.change(&statement::update_skill(SkillKind::Assist, id, current_level, target_level))
    }

    /// Deletes an assist skill.
    pub fn delete_assist_skill(&self, id: i64) -> (r: Result<(), String>) {
        self.change(&statement::delete_skill(SkillKind::Assist, id))
    }

    /// The assist skills of an account, by identifier, lowest first.
    pub fn get_assist_skills(&self, account_id: i64) -> (r: Result<Vec<Skill>, String>)
        ensures
            r matches Ok(list) ==> strictly_in_order::<Skill>(record_views(list@)),
            r matches Ok(list) ==> all_of_account::<Skill>(record_views(list@), account_id),
    {
        self.read_of::<Skill>(
            &statement::select_skills(SkillKind::Assist, account_id),
            account_id,
        )
    }

    /// Adds a training track to an account and gives its identifier. An
    /// account may hold several tracks of one type.
    pub fn add_cultivation(
        &self,
        account_id: i64,
        name: String,
        type_: String,
        mode: String,
        current_exp: i32,
        current_level: i32,
        target_level: i32,
    ) -> (r: Result<i64, String>) {
        self.insert(
            &statement::insert_cultivation(
                account_id,
                name,
                type_,
                mode,
                current_exp,
                current_level,
                target_level,
            ),
        )
    }

    /// Sets the mode, experience and levels of a training track, and its
    /// name where one is given.
    pub fn update_cultivation(
        &self,
        id: i64,
        name: Option<String>,
        mode: String,
        current_exp: i32,
        current_level: i32,
        target_level: i32,
    ) -> (r: Result<(), String>) {
        self.change(
            &statement::update_cultivation(
                id,
                name,
                mode,
                current_exp,
                current_level,
                target_level,
            ),
        )
    }

    /// Deletes a training track.
    pub fn delete_cultivation(&self, id: i64) -> (r: Result<(), String>) {
        self.change(&statement::delete_cultivation(id))
    }

    /// The training tracks of an account, by identifier, lowest first. On a
    /// store whose tracks have no name column yet, the query without the
    /// name is sent instead, and the tracks come with the empty name.
    pub fn get_cultivations(&self, account_id: i64) -> (r: Result<Vec<Cultivation>, String>)
        ensures
            r matches Ok(list) ==> strictly_in_order::<Cultivation>(record_views(list@)),
            r matches Ok(list) ==> all_of_account::<Cultivation>(record_views(list@), account_id),
    {
        let conn = self.conn()?;
        let named = statement::select_cultivations(account_id);
        let mut stmt = match prepare(&conn, named.sql.as_str()) {
            Ok(stmt) => stmt,
            Err(_) => {
                let unnamed = statement::select_unnamed_cultivations(account_id);
                match prepare(&conn, unnamed.sql.as_str()) {
                    Ok(stmt) => stmt,
                    Err(e) => return Err(describe(&e)),
                }
            },
        };
        let tracks = answer::<Cultivation>(&mut stmt, &named.params)?;
        only_of_account(tracks, account_id)
    }
}

/// Runs a prepared query and makes the list of its result.
fn answer<T: Ranked>(stmt: &mut rusqlite::Statement<'_>, params: &Vec<Param>) -> (r: Result<
    Vec<T>,
    String,
>)
    ensures
        r matches Ok(records) ==> strictly_in_order::<T>(record_views(records@)),
{
    let width = column_count(stmt);
    let items = match fetch(stmt, params, width) {
        Ok(items) => items,
        Err(e) => return Err(describe(&e)),
    };
    let rows = match gather(items) {
        Ok(rows) => rows,
        Err(e) => return Err(describe(&e)),
    };
    list_of::<T>(&rows)
}

} // verus!
