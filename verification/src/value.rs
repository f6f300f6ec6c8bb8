//! Plain values that cross the boundary to the storage engine: what is bound
//! to a statement's placeholders, and what is read back from a result row.

use vstd::prelude::*;

verus! {

/// A value bound to one placeholder of a statement.
#[derive(Debug, Clone, PartialEq, Eq)]
pub enum Param {
    Null,
    Integer(i64),
    Text(String),
}

/// The mathematical content of a [`Param`].
pub enum ParamView {
    Null,
    Integer(i64),
    Text(Seq<char>),
}

impl View for Param {
    type V = ParamView;

    open spec fn view(&self) -> ParamView {
        match *self {
            Param::Null => ParamView::Null,
            Param::Integer(i) => ParamView::Integer(i),
            Param::Text(s) => ParamView::Text(s@),
        }
    }
}

/// The contents of a parameter list, placeholder by placeholder.
pub open spec fn param_views(params: Seq<Param>) -> Seq<ParamView> {
    Seq::new(params.len(), |i: int| params[i]@)
}

/// What an optional integer binds as: the number, or NULL when absent.
pub open spec fn optional_integer_view(v: Option<i32>) -> ParamView {
    match v {
        Some(i) => ParamView::Integer(i as i64),
        None => ParamView::Null,
    }
}

/// What an optional text binds as: the text, or NULL when absent.
pub open spec fn optional_text_view(v: Option<String>) -> ParamView {
    match v {
        Some(s) => ParamView::Text(s@),
        None => ParamView::Null,
    }
}

impl Param {
    /// Binds an integer that may be absent.
    pub fn optional_integer(v: Option<i32>) -> (p: Param)
        ensures
            p@ == optional_integer_view(v),
    {
        match v {
            Some(i) => Param::Integer(i as i64),
            None => Param::Null,
        }
    }

    /// Binds a text that may be absent.
    pub fn optional_text(v: Option<String>) -> (p: Param)
        ensures
            p@ == optional_text_view(v),
    {
        match v {
            Some(s) => Param::Text(s),
            None => Param::Null,
        }
    }
}

/// A value read from one column of a result row. A floating-point cell is
/// carried as the bit pattern of its double, so that nothing is lost.
#[derive(Debug, Clone, PartialEq, Eq)]
pub enum Cell {
    Null,
    Integer(i64),
    Real(u64),
    Text(String),
    Blob(Vec<u8>),
}

/// The type a column of a record is decoded as.
#[derive(Debug, Clone, Copy, PartialEq, Eq)]
pub enum Kind {
    /// A 64-bit integer; NULL is refused.
    Integer,
    /// An integer that fits 32 bits; NULL is refused.
    Int32,
    /// A text; NULL is refused.
    Text,
    /// An integer that fits 32 bits, or NULL.
    OptionalInt32,
    /// A text, or NULL.
    OptionalText,
}

/// Why a result row could not be decoded.
#[derive(Debug, Clone, Copy, PartialEq, Eq)]
pub enum RowError {
    /// The row has another number of columns than the record.
    Shape { expected: usize, found: usize },
    /// The column holds a value of another type than the record's field.
    InvalidType { column: usize },
    /// The column holds an integer that the record's field cannot hold.
    OutOfRange { column: usize, value: i64 },
}

/// Whether an integer fits 32 bits.
pub open spec fn fits_i32(i: i64) -> bool {
    -0x8000_0000 <= i <= 0x7fff_ffff
}

/// What is wrong with cell `c` when it is read as `kind`, if anything.
pub open spec fn cell_fault(kind: Kind, c: Cell, column: usize) -> Option<RowError> {
    match (kind, c) {
        (Kind::Integer, Cell::Integer(_)) => None,
        (Kind::Int32, Cell::Integer(i)) | (Kind::OptionalInt32, Cell::Integer(i)) => if fits_i32(
            i,
        ) {
            None
        } else {
            Some(RowError::OutOfRange { column, value: i })
        },
        (Kind::Text, Cell::Text(_)) => None,
        (Kind::OptionalInt32, Cell::Null) => None,
        (Kind::OptionalText, Cell::Null) => None,
        (Kind::OptionalText, Cell::Text(_)) => None,
        _ => Some(RowError::InvalidType { column }),
    }
}

/// The first fault among the leading `n` columns of a row.
pub open spec fn fault_before(columns: Seq<Kind>, cells: Seq<Cell>, n: nat) -> Option<RowError>
    decreases n,
{
    if n == 0 {
        None
    } else {
        match fault_before(columns, cells, (n - 1) as nat) {
            Some(e) => Some(e),
            None => cell_fault(columns[n - 1], cells[n - 1], (n - 1) as usize),
        }
    }
}

/// Why a row does not decode as a record with the given columns: a wrong
/// number of cells, or else the fault of its leftmost faulty cell.
pub open spec fn row_fault(columns: Seq<Kind>, cells: Seq<Cell>) -> Option<RowError> {
    if cells.len() != columns.len() {
        Some(RowError::Shape { expected: columns.len() as usize, found: cells.len() as usize })
    } else {
        fault_before(columns, cells, columns.len())
    }
}

/// A row without fault has the record's width, and each of its cells reads as
/// the column's kind.
pub proof fn lemma_sound_row(columns: Seq<Kind>, cells: Seq<Cell>, n: nat)
    requires
        n <= columns.len(),
        n <= cells.len(),
        n <= usize::MAX,
        fault_before(columns, cells, n) is None,
    ensures
        forall|i: int| 0 <= i < n ==> cell_fault(columns[i], cells[i], i as usize) is None,
    decreases n,
{
    if n > 0 {
        lemma_sound_row(columns, cells, (n - 1) as nat);
    }
}

/// A fault among the leading columns stays the row's fault however many
/// columns follow.
pub proof fn lemma_first_fault_stays(columns: Seq<Kind>, cells: Seq<Cell>, n: nat, m: nat)
    requires
        n <= m,
        fault_before(columns, cells, n) is Some,
    ensures
        fault_before(columns, cells, m) == fault_before(columns, cells, n),
    decreases m,
{
    if n < m {
        lemma_first_fault_stays(columns, cells, n, (m - 1) as nat);
    }
}

/// Reads one cell as `kind`, and says what is wrong with it if it does not
/// read so.
pub fn check_cell(kind: Kind, c: &Cell, column: usize) -> (r: Result<(), RowError>)
    ensures
        match r {
            Ok(()) => cell_fault(kind, *c, column) is None,
            Err(e) => cell_fault(kind, *c, column) == Some(e),
        },
{
    match c {
        Cell::Integer(i) => match kind {
            Kind::Integer => Ok(()),
            Kind::Int32 | Kind::OptionalInt32 => if -0x8000_0000 <= *i && *i <= 0x7fff_ffff {
                Ok(())
            } else {
                Err(RowError::OutOfRange { column, value: *i })
            },
            _ => Err(RowError::InvalidType { column }),
        },
        Cell::Text(_) => match kind {
            Kind::Text | Kind::OptionalText => Ok(()),
            _ => Err(RowError::InvalidType { column }),
        },
        Cell::Null => match kind {
            Kind::OptionalInt32 | Kind::OptionalText => Ok(()),
            _ => Err(RowError::InvalidType { column }),
        },
        _ => Err(RowError::InvalidType { column }),
    }
}

/// Checks a whole row against the columns of a record.
pub fn check_row(columns: &Vec<Kind>, cells: &Vec<Cell>) -> (r: Result<(), RowError>)
    ensures
        match r {
            Ok(()) => row_fault(columns@, cells@) is None,
            Err(e) => row_fault(columns@, cells@) == Some(e),
        },
        r is Ok ==> cells@.len() == columns@.len() && forall|i: int|
            0 <= i < columns@.len() ==> cell_fault(columns@[i], cells@[i], i as usize) is None,
{
    if cells.len() != columns.len() {
        return Err(RowError::Shape { expected: columns.len(), found: cells.len() });
    }
    let mut i: usize = 0;
    while i < columns.len()
        invariant
            i <= columns@.len(),
            cells@.len() == columns@.len(),
            fault_before(columns@, cells@, i as nat) is None,
        decreases columns@.len() - i,
    {
        match check_cell(columns[i], &cells[i], i) {
            Ok(()) => {},
            Err(e) => {
                proof {
                    lemma_first_fault_stays(columns@, cells@, (i + 1) as nat, columns@.len());
                }
                return Err(e);
            },
        }
        i = i + 1;
    }
    proof {
        lemma_sound_row(columns@, cells@, columns@.len());
    }
    Ok(())
}

/// The integer in a cell.
pub open spec fn integer_in(c: Cell) -> i64 {
    match c {
        Cell::Integer(i) => i,
        _ => 0,
    }
}

/// The text in a cell.
pub open spec fn text_in(c: Cell) -> Seq<char> {
    match c {
        Cell::Text(s) => s@,
        _ => Seq::empty(),
    }
}

/// The integer in a cell that may be NULL.
pub open spec fn optional_int32_in(c: Cell) -> Option<i32> {
    match c {
        Cell::Integer(i) => Some(i as i32),
        _ => None,
    }
}

/// The text in a cell that may be NULL.
pub open spec fn optional_text_in(c: Cell) -> Option<Seq<char>> {
    match c {
        Cell::Text(s) => Some(s@),
        _ => None,
    }
}

pub(crate) fn integer_of(c: &Cell) -> (i: i64)
    requires
        cell_fault(Kind::Integer, *c, 0) is None,
    ensures
        i == integer_in(*c),
{
    match c {
        Cell::Integer(i) => *i,
        _ => 0,
    }
}

pub(crate) fn int32_of(c: &Cell) -> (i: i32)
    requires
        cell_fault(Kind::Int32, *c, 0) is None,
    ensures
        i == integer_in(*c),
{
    match c {
        Cell::Integer(i) => *i as i32,
        _ => 0,
    }
}

pub(crate) fn text_of(c: &Cell) -> (s: String)
    requires
        cell_fault(Kind::Text, *c, 0) is None,
    ensures
        s@ == text_in(*c),
{
    match c {
        Cell::Text(s) => s.clone(),
        _ => String::new(),
    }
}

pub(crate) fn optional_int32_of(c: &Cell) -> (v: Option<i32>)
    requires
        cell_fault(Kind::OptionalInt32, *c, 0) is None,
    ensures
        v == optional_int32_in(*c),
{
    match c {
        Cell::Integer(i) => Some(*i as i32),
        _ => None,
    }
}

pub(crate) fn optional_text_of(c: &Cell) -> (v: Option<String>)
    requires
        cell_fault(Kind::OptionalText, *c, 0) is None,
    ensures
        match v {
            Some(s) => optional_text_in(*c) == Some(s@),
            None => optional_text_in(*c) is None,
        },
{
    match c {
        Cell::Text(s) => Some(s.clone()),
        _ => None,
    }
}

} // verus!
