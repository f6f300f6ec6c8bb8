//! Numbers written out in decimal, and the wording of a row's fault.

use vstd::prelude::*;
use vstd::string::StringExecFns;
use crate::value::RowError;

verus! {

/// The character of one decimal digit.
pub open spec fn digit(d: nat) -> char {
    if d == 0 {
        '0'
    } else if d == 1 {
        '1'
    } else if d == 2 {
        '2'
    } else if d == 3 {
        '3'
    } else if d == 4 {
        '4'
    } else if d == 5 {
        '5'
    } else if d == 6 {
        '6'
    } else if d == 7 {
        '7'
    } else if d == 8 {
        '8'
    } else {
        '9'
    }
}

/// A natural number in decimal, without leading zeros.
pub open spec fn decimal(n: nat) -> Seq<char>
    decreases n,
{
    if n < 10 {
        seq![digit(n)]
    } else {
        decimal(n / 10).push(digit(n % 10))
    }
}

/// An integer in decimal, with a minus sign in front of a negative one.
pub open spec fn signed_decimal(i: int) -> Seq<char> {
    if i < 0 {
        seq!['-'] + decimal((-i) as nat)
    } else {
        decimal(i as nat)
    }
}

fn digit_text(d: u64) -> (s: &'static str)
    requires
        d < 10,
    ensures
        s@ == seq![digit(d as nat)],
{
    proof {
        reveal_strlit("0");
        reveal_strlit("1");
        reveal_strlit("2");
        reveal_strlit("3");
        reveal_strlit("4");
        reveal_strlit("5");
        reveal_strlit("6");
        reveal_strlit("7");
        reveal_strlit("8");
        reveal_strlit("9");
    }
    let s = if d == 0 {
        "0"
    } else if d == 1 {
        "1"
    } else if d == 2 {
        "2"
    } else if d == 3 {
        "3"
    } else if d == 4 {
        "4"
    } else if d == 5 {
        "5"
    } else if d == 6 {
        "6"
    } else if d == 7 {
        "7"
    } else if d == 8 {
        "8"
    } else {
        "9"
    };
    assert(s@ =~= seq![digit(d as nat)]);
    s
}

/// Writes a natural number in decimal.
pub fn decimal_text(n: u64) -> (s: String)
    ensures
        s@ == decimal(n as nat),
    decreases n,
{
    if n < 10 {
        String::from_str(digit_text(n))
    } else {
        let mut s = decimal_text(n / 10);
        s.append(digit_text(n % 10));
        assert(s@ =~= decimal((n / 10) as nat).push(digit((n % 10) as nat)));
        s
    }
}

/// Writes an integer in decimal.
pub fn signed_decimal_text(i: i64) -> (s: String)
    ensures
        s@ == signed_decimal(i as int),
{
    if i < 0 {
        let magnitude: u64 = (-(i as i128)) as u64;
        let mut s = String::from_str("-");
        proof {
            reveal_strlit("-");
        }
        let digits = decimal_text(magnitude);
        s.append(digits.as_str());
        assert(s@ =~= seq!['-'] + decimal((-i) as nat));
        s
    } else {
        decimal_text(i as u64)
    }
}

/// The wording of a row's fault.
pub open spec fn fault_text(e: RowError) -> Seq<char> {
    match e {
        RowError::Shape { expected, found } => "row has "@ + decimal(found as nat)
            + " columns where "@ + decimal(expected as nat) + " are expected"@,
        RowError::InvalidType { column } => "column "@ + decimal(column as nat)
            + " holds a value of an unexpected type"@,
        RowError::OutOfRange { column, value } => "column "@ + decimal(column as nat)
            + " holds the integer "@ + signed_decimal(value as int) + ", which is out of range"@,
    }
}

impl RowError {
    /// Says in words what is wrong with the row.
    pub fn message(&self) -> (s: String)
        ensures
            s@ == fault_text(*self),
    {
        match *self {
            RowError::Shape { expected, found } => {
                let mut s = String::from_str("row has ");
                s.append(decimal_text(found as u64).as_str());
                s.append(" columns where ");
                s.append(decimal_text(expected as u64).as_str());
                s.append(" are expected");
                s
            },
            RowError::InvalidType { column } => {
                let mut s = String::from_str("column ");
                s.append(decimal_text(column as u64).as_str());
                s.append(" holds a value of an unexpected type");
                s
            },
            RowError::OutOfRange { column, value } => {
                let mut s = String::from_str("column ");
                s.append(decimal_text(column as u64).as_str());
                s.append(" holds the integer ");
                s.append(signed_decimal_text(value).as_str());
                s.append(", which is out of range");
                s
            },
        }
    }
}

} // verus!
