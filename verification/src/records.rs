//! The records that the store hands out, and how each is read from a result
//! row.

use vstd::prelude::*;
use crate::value::{
    check_row, int32_of, integer_in, integer_of, optional_int32_in, optional_int32_of,
    optional_text_in, optional_text_of, row_fault, text_in, text_of, Cell, Kind, RowError,
};

verus! {

/// A player profile.
#[derive(Debug, Clone, PartialEq, Eq)]
pub struct Account {
    pub id: i64,
    pub name: String,
    pub school: String,
    pub level: i32,
    pub experience: i64,
    pub gold: i64,
}

/// The mathematical content of an [`Account`].
pub struct AccountView {
    pub id: i64,
    pub name: Seq<char>,
    pub school: Seq<char>,
    pub level: i32,
    pub experience: i64,
    pub gold: i64,
}

impl View for Account {
    type V = AccountView;

    open spec fn view(&self) -> AccountView {
        AccountView {
            id: self.id,
            name: self.name@,
            school: self.school@,
            level: self.level,
            experience: self.experience,
            gold: self.gold,
        }
    }
}

/// A trainable ability of an account, of either kind.
#[derive(Debug, Clone, PartialEq, Eq)]
pub struct Skill {
    pub id: i64,
    pub account_id: i64,
    pub skill_name: String,
    pub current_level: i32,
    pub target_level: i32,
}

/// The mathematical content of a [`Skill`].
pub struct SkillView {
    pub id: i64,
    pub account_id: i64,
    pub skill_name: Seq<char>,
    pub current_level: i32,
    pub target_level: i32,
}

impl View for Skill {
    type V = SkillView;

    open spec fn view(&self) -> SkillView {
        SkillView {
            id: self.id,
            account_id: self.account_id,
            skill_name: self.skill_name@,
            current_level: self.current_level,
            target_level: self.target_level,
        }
    }
}

/// A training track of an account.
#[derive(Debug, Clone, PartialEq, Eq)]
pub struct Cultivation {
    pub id: i64,
    pub account_id: i64,
    pub name: String,
    pub type_: String,
    pub mode: String,
    pub current_exp: i32,
    pub current_level: i32,
    pub target_level: i32,
}

/// The mathematical content of a [`Cultivation`].
pub struct CultivationView {
    pub id: i64,
    pub account_id: i64,
    pub name: Seq<char>,
    pub type_: Seq<char>,
    pub mode: Seq<char>,
    pub current_exp: i32,
    pub current_level: i32,
    pub target_level: i32,
}

impl View for Cultivation {
    type V = CultivationView;

    open spec fn view(&self) -> CultivationView {
        CultivationView {
            id: self.id,
            account_id: self.account_id,
            name: self.name@,
            type_: self.type_@,
            mode: self.mode@,
            current_exp: self.current_exp,
            current_level: self.current_level,
            target_level: self.target_level,
        }
    }
}

/// One entry of the spend ledger.
#[derive(Debug, Clone, PartialEq, Eq)]
pub struct SpendLog {
    pub id: i64,
    pub account_id: i64,
    pub amount: i64,
    pub date: String,
    pub note: Option<String>,
    pub created_at: String,
}

/// The mathematical content of a [`SpendLog`].
pub struct SpendLogView {
    pub id: i64,
    pub account_id: i64,
    pub amount: i64,
    pub date: Seq<char>,
    pub note: Option<Seq<char>>,
    pub created_at: Seq<char>,
}

/// The content of a text that may be absent.
pub open spec fn optional_text(v: Option<String>) -> Option<Seq<char>> {
    match v {
        Some(s) => Some(s@),
        None => None,
    }
}

impl View for SpendLog {
    type V = SpendLogView;

    open spec fn view(&self) -> SpendLogView {
        SpendLogView {
            id: self.id,
            account_id: self.account_id,
            amount: self.amount,
            date: self.date@,
            note: optional_text(self.note),
            created_at: self.created_at@,
        }
    }
}

/// The amount spent over one day or one month.
#[derive(Debug, Clone, PartialEq, Eq)]
pub struct SpendSummary {
    pub date: String,
    pub total: i64,
}

/// The mathematical content of a [`SpendSummary`].
pub struct SpendSummaryView {
    pub date: Seq<char>,
    pub total: i64,
}

impl View for SpendSummary {
    type V = SpendSummaryView;

    open spec fn view(&self) -> SpendSummaryView {
        SpendSummaryView { date: self.date@, total: self.total }
    }
}

/// One entry of the change ledger.
#[derive(Debug, Clone, PartialEq, Eq)]
pub struct ChangeLog {
    pub id: i64,
    pub account_id: i64,
    pub category: String,
    pub name: String,
    pub from_level: Option<i32>,
    pub to_level: Option<i32>,
    pub from_exp: Option<i32>,
    pub to_exp: Option<i32>,
    pub consumed_exp: i64,
    pub consumed_money: i64,
    pub consumed_gang: i64,
    pub consumed_cultivation_exp: i64,
    pub date: String,
    pub created_at: String,
}

/// The mathematical content of a [`ChangeLog`].
pub struct ChangeLogView {
    pub id: i64,
    pub account_id: i64,
    pub category: Seq<char>,
    pub name: Seq<char>,
    pub from_level: Option<i32>,
    pub to_level: Option<i32>,
    pub from_exp: Option<i32>,
    pub to_exp: Option<i32>,
    pub consumed_exp: i64,
    pub consumed_money: i64,
    pub consumed_gang: i64,
    pub consumed_cultivation_exp: i64,
    pub date: Seq<char>,
    pub created_at: Seq<char>,
}

impl View for ChangeLog {
    type V = ChangeLogView;

    open spec fn view(&self) -> ChangeLogView {
        ChangeLogView {
            id: self.id,
            account_id: self.account_id,
            category: self.category@,
            name: self.name@,
            from_level: self.from_level,
            to_level: self.to_level,
            from_exp: self.from_exp,
            to_exp: self.to_exp,
            consumed_exp: self.consumed_exp,
            consumed_money: self.consumed_money,
            consumed_gang: self.consumed_gang,
            consumed_cultivation_exp: self.consumed_cultivation_exp,
            date: self.date@,
            created_at: self.created_at@,
        }
    }
}

/// A record that is read from one result row.
pub trait Record: Sized + View {
    /// Why the row does not hold such a record, if it does not.
    spec fn fault(cells: Seq<Cell>) -> Option<RowError>;

    /// The record that a row without fault holds.
    spec fn read(cells: Seq<Cell>) -> Self::V;

    /// Decodes the row: the record it holds, or the row's fault.
    fn from_row(cells: &Vec<Cell>) -> (r: Result<Self, RowError>)
        ensures
            match r {
                Ok(rec) => Self::fault(cells@) is None && rec@ == Self::read(cells@),
                Err(e) => Self::fault(cells@) == Some(e),
            },
    ;
}

/// The columns of an account.
pub open spec fn account_columns() -> Seq<Kind> {
    seq![Kind::Integer, Kind::Text, Kind::Text, Kind::Int32, Kind::Integer, Kind::Integer]
}

impl Record for Account {
    open spec fn fault(cells: Seq<Cell>) -> Option<RowError> {
        row_fault(account_columns(), cells)
    }

    open spec fn read(cells: Seq<Cell>) -> AccountView {
        AccountView {
            id: integer_in(cells[0]),
            name: text_in(cells[1]),
            school: text_in(cells[2]),
            level: integer_in(cells[3]) as i32,
            experience: integer_in(cells[4]),
            gold: integer_in(cells[5]),
        }
    }

    fn from_row(cells: &Vec<Cell>) -> (r: Result<Account, RowError>) {
        let columns = vec![
            Kind::Integer,
            Kind::Text,
            Kind::Text,
            Kind::Int32,
            Kind::Integer,
            Kind::Integer,
        ];
        assert(columns@ =~= account_columns());
        match check_row(&columns, cells) {
            Ok(()) => Ok(
                Account {
                    id: integer_of(&cells[0]),
                    name: text_of(&cells[1]),
                    school: text_of(&cells[2]),
                    level: int32_of(&cells[3]),
                    experience: integer_of(&cells[4]),
                    gold: integer_of(&cells[5]),
                },
            ),
            Err(e) => Err(e),
        }
    }
}

/// The columns of a skill, of either kind.
pub open spec fn skill_columns() -> Seq<Kind> {
    seq![Kind::Integer, Kind::Integer, Kind::Text, Kind::Int32, Kind::Int32]
}

impl Record for Skill {
    open spec fn fault(cells: Seq<Cell>) -> Option<RowError> {
        row_fault(skill_columns(), cells)
    }

    open spec fn read(cells: Seq<Cell>) -> SkillView {
        SkillView {
            id: integer_in(cells[0]),
            account_id: integer_in(cells[1]),
            skill_name: text_in(cells[2]),
            current_level: integer_in(cells[3]) as i32,
            target_level: integer_in(cells[4]) as i32,
        }
    }

    fn from_row(cells: &Vec<Cell>) -> (r: Result<Skill, RowError>) {
        let columns = vec![Kind::Integer, Kind::Integer, Kind::Text, Kind::Int32, Kind::Int32];
        assert(columns@ =~= skill_columns());
        match check_row(&columns, cells) {
            Ok(()) => Ok(
                Skill {
                    id: integer_of(&cells[0]),
                    account_id: integer_of(&cells[1]),
                    skill_name: text_of(&cells[2]),
                    current_level: int32_of(&cells[3]),
                    target_level: int32_of(&cells[4]),
                },
            ),
            Err(e) => Err(e),
        }
    }
}

/// The columns of a training track as the current schema stores it.
pub open spec fn cultivation_columns() -> Seq<Kind> {
    seq![
        Kind::Integer,
        Kind::Integer,
        Kind::Text,
        Kind::Text,
        Kind::Text,
        Kind::Int32,
        Kind::Int32,
        Kind::Int32,
    ]
}

/// The columns of a training track in a store that has no name column yet.
pub open spec fn unnamed_cultivation_columns() -> Seq<Kind> {
    seq![
        Kind::Integer,
        Kind::Integer,
        Kind::Text,
        Kind::Text,
        Kind::Int32,
        Kind::Int32,
        Kind::Int32,
    ]
}

/// A row of eight cells is read with its name; any other row is read as one
/// of a store without the name column, and its record has the empty name.
impl Record for Cultivation {
    open spec fn fault(cells: Seq<Cell>) -> Option<RowError> {
        if cells.len() == 8 {
            row_fault(cultivation_columns(), cells)
        } else {
            row_fault(unnamed_cultivation_columns(), cells)
        }
    }

    open spec fn read(cells: Seq<Cell>) -> CultivationView {
        if cells.len() == 8 {
            CultivationView {
                id: integer_in(cells[0]),
                account_id: integer_in(cells[1]),
                name: text_in(cells[2]),
                type_: text_in(cells[3]),
                mode: text_in(cells[4]),
                current_exp: integer_in(cells[5]) as i32,
                current_level: integer_in(cells[6]) as i32,
                target_level: integer_in(cells[7]) as i32,
            }
        } else {
            CultivationView {
                id: integer_in(cells[0]),
                account_id: integer_in(cells[1]),
                name: Seq::empty(),
                type_: text_in(cells[2]),
                mode: text_in(cells[3]),
                current_exp: integer_in(cells[4]) as i32,
                current_level: integer_in(cells[5]) as i32,
                target_level: integer_in(cells[6]) as i32,
            }
        }
    }

    fn from_row(cells: &Vec<Cell>) -> (r: Result<Cultivation, RowError>) {
        if cells.len() == 8 {
            let columns = vec![
                Kind::Integer,
                Kind::Integer,
                Kind::Text,
                Kind::Text,
                Kind::Text,
                Kind::Int32,
                Kind::Int32,
                Kind::Int32,
            ];
            assert(columns@ =~= cultivation_columns());
            match check_row(&columns, cells) {
                Ok(()) => Ok(
                    Cultivation {
                        id: integer_of(&cells[0]),
                        account_id: integer_of(&cells[1]),
                        name: text_of(&cells[2]),
                        type_: text_of(&cells[3]),
                        mode: text_of(&cells[4]),
                        current_exp: int32_of(&cells[5]),
                        current_level: int32_of(&cells[6]),
                        target_level: int32_of(&cells[7]),
                    },
                ),
                Err(e) => Err(e),
            }
        } else {
            let columns = vec![
                Kind::Integer,
                Kind::Integer,
                Kind::Text,
                Kind::Text,
                Kind::Int32,
                Kind::Int32,
                Kind::Int32,
            ];
            assert(columns@ =~= unnamed_cultivation_columns());
            match check_row(&columns, cells) {
                Ok(()) => Ok(
                    Cultivation {
                        id: integer_of(&cells[0]),
                        account_id: integer_of(&cells[1]),
                        name: String::new(),
                        type_: text_of(&cells[2]),
                        mode: text_of(&cells[3]),
                        current_exp: int32_of(&cells[4]),
                        current_level: int32_of(&cells[5]),
                        target_level: int32_of(&cells[6]),
                    },
                ),
                Err(e) => Err(e),
            }
        }
    }
}

/// A row of a store that has no name column yet, which is any row of another
/// width than eight, is read as the seven columns that such a store has, and
/// the record read from it has the empty name.
pub proof fn lemma_unnamed_rows_read_with_empty_name(cells: Seq<Cell>)
    requires
        cells.len() != 8,
    ensures
        Cultivation::fault(cells) == row_fault(unnamed_cultivation_columns(), cells),
        Cultivation::read(cells).name == Seq::<char>::empty(),
{
}

/// The columns of an entry of the spend ledger. The note may be NULL.
pub open spec fn spend_log_columns() -> Seq<Kind> {
    seq![Kind::Integer, Kind::Integer, Kind::Integer, Kind::Text, Kind::OptionalText, Kind::Text]
}

impl Record for SpendLog {
    open spec fn fault(cells: Seq<Cell>) -> Option<RowError> {
        row_fault(spend_log_columns(), cells)
    }

    open spec fn read(cells: Seq<Cell>) -> SpendLogView {
        SpendLogView {
            id: integer_in(cells[0]),
            account_id: integer_in(cells[1]),
            amount: integer_in(cells[2]),
            date: text_in(cells[3]),
            note: optional_text_in(cells[4]),
            created_at: text_in(cells[5]),
        }
    }

    fn from_row(cells: &Vec<Cell>) -> (r: Result<SpendLog, RowError>) {
        let columns = vec![
            Kind::Integer,
            Kind::Integer,
            Kind::Integer,
            Kind::Text,
            Kind::OptionalText,
            Kind::Text,
        ];
        assert(columns@ =~= spend_log_columns());
        match check_row(&columns, cells) {
            Ok(()) => Ok(
                SpendLog {
                    id: integer_of(&cells[0]),
                    account_id: integer_of(&cells[1]),
                    amount: integer_of(&cells[2]),
                    date: text_of(&cells[3]),
                    note: optional_text_of(&cells[4]),
                    created_at: text_of(&cells[5]),
                },
            ),
            Err(e) => Err(e),
        }
    }
}

/// The columns of an amount by day or by month.
pub open spec fn spend_summary_columns() -> Seq<Kind> {
    seq![Kind::Text, Kind::Integer]
}

impl Record for SpendSummary {
    open spec fn fault(cells: Seq<Cell>) -> Option<RowError> {
        row_fault(spend_summary_columns(), cells)
    }

    open spec fn read(cells: Seq<Cell>) -> SpendSummaryView {
        SpendSummaryView { date: text_in(cells[0]), total: integer_in(cells[1]) }
    }

    fn from_row(cells: &Vec<Cell>) -> (r: Result<SpendSummary, RowError>) {
        let columns = vec![Kind::Text, Kind::Integer];
        assert(columns@ =~= spend_summary_columns());
        match check_row(&columns, cells) {
            Ok(()) => Ok(SpendSummary { date: text_of(&cells[0]), total: integer_of(&cells[1]) }),
            Err(e) => Err(e),
        }
    }
}

/// The columns of an entry of the change ledger. Levels and experience may
/// be NULL.
pub open spec fn change_log_columns() -> Seq<Kind> {
    seq![
        Kind::Integer,
        Kind::Integer,
        Kind::Text,
        Kind::Text,
        Kind::OptionalInt32,
        Kind::OptionalInt32,
        Kind::OptionalInt32,
        Kind::OptionalInt32,
        Kind::Integer,
        Kind::Integer,
        Kind::Integer,
        Kind::Integer,
        Kind::Text,
        Kind::Text,
    ]
}

impl Record for ChangeLog {
    open spec fn fault(cells: Seq<Cell>) -> Option<RowError> {
        row_fault(change_log_columns(), cells)
    }

    open spec fn read(cells: Seq<Cell>) -> ChangeLogView {
        ChangeLogView {
            id: integer_in(cells[0]),
            account_id: integer_in(cells[1]),
            category: text_in(cells[2]),
            name: text_in(cells[3]),
            from_level: optional_int32_in(cells[4]),
            to_level: optional_int32_in(cells[5]),
            from_exp: optional_int32_in(cells[6]),
            to_exp: optional_int32_in(cells[7]),
            consumed_exp: integer_in(cells[8]),
            consumed_money: integer_in(cells[9]),
            consumed_gang: integer_in(cells[10]),
            consumed_cultivation_exp: integer_in(cells[11]),
            date: text_in(cells[12]),
            created_at: text_in(cells[13]),
        }
    }

    fn from_row(cells: &Vec<Cell>) -> (r: Result<ChangeLog, RowError>) {
        let columns = vec![
            Kind::Integer,
            Kind::Integer,
            Kind::Text,
            Kind::Text,
            Kind::OptionalInt32,
            Kind::OptionalInt32,
            Kind::OptionalInt32,
            Kind::OptionalInt32,
            Kind::Integer,
            Kind::Integer,
            Kind::Integer,
            Kind::Integer,
            Kind::Text,
            Kind::Text,
        ];
        assert(columns@ =~= change_log_columns());
        match check_row(&columns, cells) {
            Ok(()) => Ok(
                ChangeLog {
                    id: integer_of(&cells[0]),
                    account_id: integer_of(&cells[1]),
                    category: text_of(&cells[2]),
                    name: text_of(&cells[3]),
                    from_level: optional_int32_of(&cells[4]),
                    to_level: optional_int32_of(&cells[5]),
                    from_exp: optional_int32_of(&cells[6]),
                    to_exp: optional_int32_of(&cells[7]),
                    consumed_exp: integer_of(&cells[8]),
                    consumed_money: integer_of(&cells[9]),
                    consumed_gang: integer_of(&cells[10]),
                    consumed_cultivation_exp: integer_of(&cells[11]),
                    date: text_of(&cells[12]),
                    created_at: text_of(&cells[13]),
                },
            ),
            Err(e) => Err(e),
        }
    }
}

/// The index of the first row that does not decode, if there is one.
pub open spec fn first_faulty<T: Record>(rows: Seq<Vec<Cell>>, n: nat) -> Option<nat>
    decreases n,
{
    if n == 0 {
        None
    } else {
        match first_faulty::<T>(rows, (n - 1) as nat) {
            Some(j) => Some(j),
            None => if T::fault(rows[n - 1]@) is Some {
                Some((n - 1) as nat)
            } else {
                None
            },
        }
    }
}

/// What a list of rows decodes to: the record of each row in turn, or the
/// fault of the first row that has one.
pub open spec fn decoded<T: Record>(rows: Seq<Vec<Cell>>) -> Result<Seq<T::V>, RowError> {
    match first_faulty::<T>(rows, rows.len()) {
        Some(j) => Err(T::fault(rows[j as int]@)->Some_0),
        None => Ok(Seq::new(rows.len(), |i: int| T::read(rows[i]@))),
    }
}

/// The contents of a list of records.
pub open spec fn record_views<T: Record>(records: Seq<T>) -> Seq<T::V> {
    Seq::new(records.len(), |i: int| records[i]@)
}

proof fn lemma_first_faulty_stays<T: Record>(rows: Seq<Vec<Cell>>, n: nat, m: nat)
    requires
        n <= m,
        first_faulty::<T>(rows, n) is Some,
    ensures
        first_faulty::<T>(rows, m) == first_faulty::<T>(rows, n),
    decreases m,
{
    if n < m {
        lemma_first_faulty_stays::<T>(rows, n, (m - 1) as nat);
    }
}

/// Decodes every row of a result in turn, and stops at the first that has a
/// fault.
pub fn decode_rows<T: Record>(rows: &Vec<Vec<Cell>>) -> (r: Result<Vec<T>, RowError>)
    ensures
        match r {
            Ok(records) => decoded::<T>(rows@) == Ok::<Seq<T::V>, RowError>(
                record_views(records@),
            ),
            Err(e) => decoded::<T>(rows@) == Err::<Seq<T::V>, RowError>(e),
        },
{
    let mut records: Vec<T> = Vec::new();
    let mut i: usize = 0;
    while i < rows.len()
        invariant
            i <= rows@.len(),
            records@.len() == i,
            first_faulty::<T>(rows@, i as nat) is None,
            forall|k: int| 0 <= k < i ==> (#[trigger] records@[k])@ == T::read(rows@[k]@),
        decreases rows@.len() - i,
    {
        match T::from_row(&rows[i]) {
            Ok(rec) => records.push(rec),
            Err(e) => {
                proof {
                    assert(first_faulty::<T>(rows@, (i + 1) as nat) == Some(i as nat));
                    lemma_first_faulty_stays::<T>(rows@, (i + 1) as nat, rows@.len());
                }
                return Err(e);
            },
        }
        i = i + 1;
    }
    proof {
        assert(record_views(records@) =~= Seq::new(rows@.len(), |i: int| T::read(rows@[i]@)));
    }
    Ok(records)
}

} // verus!
