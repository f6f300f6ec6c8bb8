//! The schema of the store and the steps that bring any earlier store up to
//! it. Only the creation of the tables may stop an initialization: every
//! migration is defensive, since on a store that is already up to date it
//! fails, and must not keep the store from opening.

use vstd::prelude::*;
use vstd::string::StringExecFns;

verus! {

/// Creates the six tables where they are absent, with cascading deletion of
/// whatever belongs to an account.
pub const CREATE_TABLES: &'static str = "
            PRAGMA foreign_keys = ON;
            CREATE TABLE IF NOT EXISTS accounts (
              id INTEGER PRIMARY KEY AUTOINCREMENT,
              name TEXT NOT NULL,
              school TEXT NOT NULL,
              level INTEGER NOT NULL DEFAULT 0,
              experience INTEGER NOT NULL DEFAULT 0,
              gold INTEGER NOT NULL DEFAULT 0
            );
            CREATE TABLE IF NOT EXISTS master_skills (
              id INTEGER PRIMARY KEY AUTOINCREMENT,
              account_id INTEGER NOT NULL,
              skill_name TEXT NOT NULL,
              current_level INTEGER NOT NULL DEFAULT 0,
              target_level INTEGER NOT NULL DEFAULT 0,
              FOREIGN KEY(account_id) REFERENCES accounts(id) ON DELETE CASCADE,
              UNIQUE(account_id, skill_name)
            );
            CREATE TABLE IF NOT EXISTS assist_skills (
              id INTEGER PRIMARY KEY AUTOINCREMENT,
              account_id INTEGER NOT NULL,
              skill_name TEXT NOT NULL,
              current_level INTEGER NOT NULL DEFAULT 0,
              target_level INTEGER NOT NULL DEFAULT 0,
              FOREIGN KEY(account_id) REFERENCES accounts(id) ON DELETE CASCADE,
              UNIQUE(account_id, skill_name)
            );
            CREATE TABLE IF NOT EXISTS cultivations (
              id INTEGER PRIMARY KEY AUTOINCREMENT,
              account_id INTEGER NOT NULL,
              name TEXT NOT NULL DEFAULT '',
              type TEXT NOT NULL,
              mode TEXT NOT NULL DEFAULT '2w',
              current_exp INTEGER NOT NULL DEFAULT 0,
              current_level INTEGER NOT NULL DEFAULT 0,
              target_level INTEGER NOT NULL DEFAULT 0,
              FOREIGN KEY(account_id) REFERENCES accounts(id) ON DELETE CASCADE
            );
            CREATE TABLE IF NOT EXISTS spend_logs (
              id INTEGER PRIMARY KEY AUTOINCREMENT,
              account_id INTEGER NOT NULL,
              amount INTEGER NOT NULL,
              date TEXT NOT NULL,
              note TEXT,
              created_at TEXT NOT NULL DEFAULT (datetime('now','localtime')),
              FOREIGN KEY(account_id) REFERENCES accounts(id) ON DELETE CASCADE
            );
            CREATE TABLE IF NOT EXISTS change_logs (
              id INTEGER PRIMARY KEY AUTOINCREMENT,
              account_id INTEGER NOT NULL,
              category TEXT NOT NULL, -- master/assist/cultivation
              name TEXT NOT NULL,
              from_level INTEGER,
              to_level INTEGER,
              from_exp INTEGER,
              to_exp INTEGER,
              consumed_exp INTEGER NOT NULL DEFAULT 0,
              consumed_money INTEGER NOT NULL DEFAULT 0,
              consumed_gang INTEGER NOT NULL DEFAULT 0,
              consumed_cultivation_exp INTEGER NOT NULL DEFAULT 0,
              date TEXT NOT NULL,
              created_at TEXT NOT NULL DEFAULT (datetime('now','localtime')),
              FOREIGN KEY(account_id) REFERENCES accounts(id) ON DELETE CASCADE
            );
            ";

/// Adds the mode to the training tracks of a store that has none.
pub const ADD_CULTIVATION_MODE: &'static str =
    "ALTER TABLE cultivations ADD COLUMN mode TEXT NOT NULL DEFAULT '2w'";

/// Adds the experience to the training tracks of a store that has none.
pub const ADD_CULTIVATION_EXP: &'static str =
    "ALTER TABLE cultivations ADD COLUMN current_exp INTEGER NOT NULL DEFAULT 0";

/// Adds the name to the training tracks of a store that has none.
pub const ADD_CULTIVATION_NAME: &'static str =
    "ALTER TABLE cultivations ADD COLUMN name TEXT NOT NULL DEFAULT ''";

/// Adds the gold to the accounts of a store that has none.
pub const ADD_ACCOUNT_GOLD: &'static str =
    "ALTER TABLE accounts ADD COLUMN gold INTEGER NOT NULL DEFAULT 0";

/// Gives each training track without a name one that follows from its mode.
/// Tracks that have a name keep it.
pub const NAME_UNNAMED_CULTIVATIONS: &'static str =
    "UPDATE cultivations SET name = CASE WHEN mode='2w' THEN 'defense' ELSE 'attack' END WHERE name IS NULL OR name=''";

/// Rebuilds the table of training tracks without the uniqueness constraint
/// that early stores had on it: a shadow table is filled with every row, the
/// old table is dropped and the shadow takes its name, all in one
/// transaction. The shadow takes over the counter of identifiers too, so
/// that no identifier is given out twice.
pub const REBUILD_CULTIVATIONS: &'static str = "
            BEGIN TRANSACTION;
            CREATE TABLE IF NOT EXISTS cultivations_v2 (
              id INTEGER PRIMARY KEY AUTOINCREMENT,
              account_id INTEGER NOT NULL,
              name TEXT NOT NULL DEFAULT '',
              type TEXT NOT NULL,
              mode TEXT NOT NULL DEFAULT '2w',
              current_exp INTEGER NOT NULL DEFAULT 0,
              current_level INTEGER NOT NULL DEFAULT 0,
              target_level INTEGER NOT NULL DEFAULT 0,
              FOREIGN KEY(account_id) REFERENCES accounts(id) ON DELETE CASCADE
            );
            INSERT INTO cultivations_v2 (id, account_id, name, type, mode, current_exp, current_level, target_level)
              SELECT id, account_id, name, type, mode, current_exp, current_level, target_level FROM cultivations;
            DELETE FROM sqlite_sequence WHERE name = 'cultivations_v2';
            INSERT INTO sqlite_sequence (name, seq)
              SELECT 'cultivations_v2', seq FROM sqlite_sequence WHERE name = 'cultivations';
            DROP TABLE cultivations;
            ALTER TABLE cultivations_v2 RENAME TO cultivations;
            COMMIT;
            ";

/// Ends a transaction that a failed batch left open.
pub const ABANDON: &'static str = "ROLLBACK";

/// What the message of a store that cannot be opened starts with.
pub const OPEN_FAILED: &'static str = "打开数据库失败: ";

/// What the message of a store whose tables cannot be created starts with.
pub const CREATE_FAILED: &'static str = "初始化表失败: ";

/// What initialization does when a step fails.
#[derive(Debug, Clone, Copy, PartialEq, Eq)]
pub enum Reaction {
    /// Initialization fails with the step's error.
    Stop,
    /// The failure is swallowed and the next step runs.
    Ignore,
    /// The transaction that the step left open is abandoned, and the next
    /// step runs.
    Abandon,
}

/// One step of initialization.
#[derive(Debug, Clone, Copy, PartialEq, Eq)]
pub struct Step {
    pub sql: &'static str,
    /// Whether the text holds several statements.
    pub batch: bool,
    pub on_failure: Reaction,
}

/// The mathematical content of a [`Step`].
pub struct StepView {
    pub sql: Seq<char>,
    pub batch: bool,
    pub on_failure: Reaction,
}

impl View for Step {
    type V = StepView;

    open spec fn view(&self) -> StepView {
        StepView { sql: self.sql@, batch: self.batch, on_failure: self.on_failure }
    }
}

/// The contents of a list of steps.
pub open spec fn step_views(steps: Seq<Step>) -> Seq<StepView> {
    Seq::new(steps.len(), |i: int| steps[i]@)
}

/// The steps of initialization in their order: the tables, then the columns
/// that later versions added, the names of unnamed tracks, and the rebuild.
pub open spec fn schema_plan() -> Seq<StepView> {
    seq![
        StepView { sql: CREATE_TABLES@, batch: true, on_failure: Reaction::Stop },
        StepView { sql: ADD_CULTIVATION_MODE@, batch: false, on_failure: Reaction::Ignore },
        StepView { sql: ADD_CULTIVATION_EXP@, batch: false, on_failure: Reaction::Ignore },
        StepView { sql: ADD_CULTIVATION_NAME@, batch: false, on_failure: Reaction::Ignore },
        StepView { sql: ADD_ACCOUNT_GOLD@, batch: false, on_failure: Reaction::Ignore },
        StepView { sql: NAME_UNNAMED_CULTIVATIONS@, batch: false, on_failure: Reaction::Ignore },
        StepView { sql: REBUILD_CULTIVATIONS@, batch: true, on_failure: Reaction::Abandon },
    ]
}

/// Every step but the first is a migration, and every migration is
/// defensive: its failure does not stop the initialization.
pub proof fn lemma_migrations_are_defensive()
    ensures
        schema_plan().len() == 7,
        schema_plan()[0].on_failure == Reaction::Stop,
        forall|i: int| 1 <= i < 7 ==> (#[trigger] schema_plan()[i]).on_failure != Reaction::Stop,
{
    let p = schema_plan();
    assert(p[1].on_failure == Reaction::Ignore);
    assert(p[2].on_failure == Reaction::Ignore);
    assert(p[3].on_failure == Reaction::Ignore);
    assert(p[4].on_failure == Reaction::Ignore);
    assert(p[5].on_failure == Reaction::Ignore);
    assert(p[6].on_failure == Reaction::Abandon);
}

/// The steps of initialization in their order.
pub fn plan() -> (steps: Vec<Step>)
    ensures
        step_views(steps@) == schema_plan(),
{
    let steps = vec![
        Step { sql: CREATE_TABLES, batch: true, on_failure: Reaction::Stop },
        Step { sql: ADD_CULTIVATION_MODE, batch: false, on_failure: Reaction::Ignore },
        Step { sql: ADD_CULTIVATION_EXP, batch: false, on_failure: Reaction::Ignore },
        Step { sql: ADD_CULTIVATION_NAME, batch: false, on_failure: Reaction::Ignore },
        Step { sql: ADD_ACCOUNT_GOLD, batch: false, on_failure: Reaction::Ignore },
        Step { sql: NAME_UNNAMED_CULTIVATIONS, batch: false, on_failure: Reaction::Ignore },
        Step { sql: REBUILD_CULTIVATIONS, batch: true, on_failure: Reaction::Abandon },
    ];
    assert(step_views(steps@) =~= schema_plan());
    steps
}

/// What follows a step, given how it went.
pub enum Verdict {
    /// The next step runs.
    Proceed,
    /// The open transaction is abandoned, then the next step runs.
    AbandonAndProceed,
    /// Initialization fails with this message.
    Fail(String),
}

/// The mathematical content of a [`Verdict`].
pub enum VerdictView {
    Proceed,
    AbandonAndProceed,
    Fail(Seq<char>),
}

impl View for Verdict {
    type V = VerdictView;

    open spec fn view(&self) -> VerdictView {
        match *self {
            Verdict::Proceed => VerdictView::Proceed,
            Verdict::AbandonAndProceed => VerdictView::AbandonAndProceed,
            Verdict::Fail(s) => VerdictView::Fail(s@),
        }
    }
}

/// What follows a step with the given reaction whose outcome is `outcome`
/// (the engine's description of the failure, where it failed).
pub open spec fn verdict_of(on_failure: Reaction, outcome: Result<(), Seq<char>>) -> VerdictView {
    match outcome {
        Ok(()) => VerdictView::Proceed,
        Err(text) => match on_failure {
            Reaction::Stop => VerdictView::Fail(CREATE_FAILED@ + text),
            Reaction::Ignore => VerdictView::Proceed,
            Reaction::Abandon => VerdictView::AbandonAndProceed,
        },
    }
}

/// The content of the outcome of a step.
pub open spec fn outcome_view(outcome: Result<(), String>) -> Result<(), Seq<char>> {
    match outcome {
        Ok(()) => Ok(()),
        Err(s) => Err(s@),
    }
}

/// Decides what follows a step.
pub fn verdict(on_failure: Reaction, outcome: Result<(), String>) -> (v: Verdict)
    ensures
        v@ == verdict_of(on_failure, outcome_view(outcome)),
{
    match outcome {
        Ok(()) => Verdict::Proceed,
        Err(text) => match on_failure {
            Reaction::Stop => Verdict::Fail(String::from_str(CREATE_FAILED).concat(text.as_str())),
            Reaction::Ignore => Verdict::Proceed,
            Reaction::Abandon => Verdict::AbandonAndProceed,
        },
    }
}

/// The message of an initialization that could not open the store.
pub fn open_failure(text: String) -> (s: String)
    ensures
        s@ == OPEN_FAILED@ + text@,
{
    String::from_str(OPEN_FAILED).concat(text.as_str())
}

/// How an initialization ends that runs `steps` and meets `outcomes`, one for
/// each step that runs: with the failure of the first step that stops it, or
/// well.
pub open spec fn conclusion(steps: Seq<StepView>, outcomes: Seq<Result<(), Seq<char>>>) -> Result<
    (),
    Seq<char>,
>
    decreases steps.len(),
{
    if steps.len() == 0 || outcomes.len() == 0 {
        Ok(())
    } else {
        match verdict_of(steps[0].on_failure, outcomes[0]) {
            VerdictView::Fail(message) => Err(message),
            _ => conclusion(steps.drop_first(), outcomes.drop_first()),
        }
    }
}

/// No migration can stop an initialization: once the tables are created it
/// ends well, whatever the later steps meet. So a second initialization of a
/// store, on which the migrations fail because they are done, ends well too.
pub proof fn lemma_only_creation_stops(outcomes: Seq<Result<(), Seq<char>>>)
    requires
        outcomes.len() == schema_plan().len(),
    ensures
        match outcomes[0] {
            Ok(()) => conclusion(schema_plan(), outcomes) == Ok::<(), Seq<char>>(()),
            Err(text) => conclusion(schema_plan(), outcomes) == Err::<(), Seq<char>>(
                CREATE_FAILED@ + text,
            ),
        },
{
    lemma_migrations_are_defensive();
    lemma_tolerant_steps_end_well(schema_plan().drop_first(), outcomes.drop_first());
}

/// Steps of which none stops end well whatever they meet.
pub proof fn lemma_tolerant_steps_end_well(
    steps: Seq<StepView>,
    outcomes: Seq<Result<(), Seq<char>>>,
)
    requires
        forall|i: int| 0 <= i < steps.len() ==> steps[i].on_failure != Reaction::Stop,
    ensures
        conclusion(steps, outcomes) == Ok::<(), Seq<char>>(()),
    decreases steps.len(),
{
    if steps.len() > 0 && outcomes.len() > 0 {
        lemma_tolerant_steps_end_well(steps.drop_first(), outcomes.drop_first());
    }
}

} // verus!
