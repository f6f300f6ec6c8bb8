//! The one compound operation of the store: a spend is an entry in the spend
//! ledger together with the same amount taken off the account's gold, and
//! the two are kept or dropped together.

use vstd::prelude::*;

verus! {

/// How the transaction of a spend is ended.
#[derive(Debug, Clone, PartialEq, Eq)]
pub enum Settlement {
    /// Both writes went well: the transaction is committed.
    Commit,
    /// A write failed: the transaction is rolled back, and the spend fails
    /// with this message.
    RollBack(String),
}

/// The mathematical content of a [`Settlement`].
pub enum SettlementView {
    Commit,
    RollBack(Seq<char>),
}

impl View for Settlement {
    type V = SettlementView;

    open spec fn view(&self) -> SettlementView {
        match *self {
            Settlement::Commit => SettlementView::Commit,
            Settlement::RollBack(s) => SettlementView::RollBack(s@),
        }
    }
}

/// The transaction is committed exactly when the entry was logged and the
/// gold was charged. Where the entry was not logged the charge is not tried,
/// and the failure of the entry is reported; else that of the charge.
pub open spec fn settlement_of(
    logged: Result<usize, String>,
    charged: Option<Result<usize, String>>,
) -> SettlementView {
    match logged {
        Err(e) => SettlementView::RollBack(e@),
        Ok(_) => match charged {
            Some(Ok(_)) => SettlementView::Commit,
            Some(Err(e)) => SettlementView::RollBack(e@),
            None => SettlementView::RollBack(CHARGE_NOT_TRIED@),
        },
    }
}

/// The failure of a spend whose entry was logged and whose gold was never
/// charged.
pub const CHARGE_NOT_TRIED: &'static str = "the gold was not charged";

/// Decides how the transaction of a spend ends, from the outcome of logging
/// the entry and that of charging the gold, if the charge was tried.
pub fn settle(logged: Result<usize, String>, charged: Option<Result<usize, String>>) -> (s:
    Settlement)
    ensures
        s@ == settlement_of(logged, charged),
{
    match logged {
        Err(e) => Settlement::RollBack(e),
        Ok(_) => match charged {
            Some(Ok(_)) => Settlement::Commit,
            Some(Err(e)) => Settlement::RollBack(e),
            None => Settlement::RollBack(CHARGE_NOT_TRIED.to_owned()),
        },
    }
}

/// Nothing of a spend is kept unless all of it is: a commit needs both
/// writes to have gone well, and with both gone well it is a commit.
pub proof fn lemma_all_or_nothing(
    logged: Result<usize, String>,
    charged: Option<Result<usize, String>>,
)
    ensures
        settlement_of(logged, charged) is Commit <==> (logged is Ok && charged matches Some(Ok(_))),
{
}

} // verus!
