//! The order in which each list of records is handed out. The spend ledger
//! comes by date, latest first, and among the entries of one date by
//! identifier, highest first. Dates are ordered as texts, byte by byte, which
//! for dates written year-month-day is the order of the calendar.

use vstd::prelude::*;
use vstd::utf8::encode_utf8;
use crate::records::{
    record_views, Account, AccountView, ChangeLog, ChangeLogView, Cultivation, CultivationView,
    Record, Skill, SkillView, SpendLog, SpendLogView, SpendSummary, SpendSummaryView,
};

verus! {

/// Whether `a` precedes `b` in the order of texts, looking from byte `i` on.
pub open spec fn before_from(a: Seq<u8>, b: Seq<u8>, i: int) -> bool
    decreases a.len() - i,
{
    if i < 0 || i >= b.len() {
        false
    } else if i >= a.len() {
        true
    } else if a[i] != b[i] {
        a[i] < b[i]
    } else {
        before_from(a, b, i + 1)
    }
}

/// Whether `a` precedes `b` in the order of texts: at the first byte where
/// they differ `a` has the lower, or `a` ends there and `b` goes on.
pub open spec fn before(a: Seq<u8>, b: Seq<u8>) -> bool {
    before_from(a, b, 0)
}

/// Of two texts at most one precedes the other.
pub proof fn lemma_before_is_asymmetric(a: Seq<u8>, b: Seq<u8>, i: int)
    requires
        before_from(a, b, i),
    ensures
        !before_from(b, a, i),
    decreases a.len() - i,
{
    if i < a.len() && a[i] == b[i] {
        lemma_before_is_asymmetric(a, b, i + 1);
    }
}

/// What precedes a text precedes every third text, or the third precedes
/// the text.
pub proof fn lemma_before_splits(a: Seq<u8>, b: Seq<u8>, c: Seq<u8>, i: int)
    requires
        before_from(a, c, i),
    ensures
        before_from(a, b, i) || before_from(b, c, i),
    decreases a.len() - i,
{
    if i < a.len() && i < b.len() && a[i] == b[i] && a[i] == c[i] {
        lemma_before_splits(a, b, c, i + 1);
    }
}

/// Two texts of which neither precedes the other are the same from byte `i`
/// on.
pub proof fn lemma_before_is_total(a: Seq<u8>, b: Seq<u8>, i: int)
    requires
        0 <= i <= a.len(),
        i <= b.len(),
        !before_from(a, b, i),
        !before_from(b, a, i),
    ensures
        a.len() == b.len(),
        forall|k: int| i <= k < a.len() ==> a[k] == b[k],
    decreases a.len() - i,
{
    if i < a.len() && i < b.len() {
        lemma_before_is_total(a, b, i + 1);
    }
}

/// How two texts stand to each other.
#[derive(Debug, Clone, Copy, PartialEq, Eq)]
pub enum Rank {
    Before,
    Same,
    After,
}

/// Ranks two texts byte by byte.
pub fn rank(a: &[u8], b: &[u8]) -> (r: Rank)
    ensures
        r == Rank::Before <==> before(a@, b@),
        r == Rank::After <==> before(b@, a@),
        r == Rank::Same <==> a@ == b@,
{
    let mut i: usize = 0;
    while i < a.len() && i < b.len()
        invariant
            i <= a@.len(),
            i <= b@.len(),
            forall|k: int| 0 <= k < i ==> a@[k] == b@[k],
            before(a@, b@) == before_from(a@, b@, i as int),
            before(b@, a@) == before_from(b@, a@, i as int),
        decreases a@.len() - i,
    {
        if a[i] < b[i] {
            assert(a@ != b@);
            return Rank::Before;
        }
        if a[i] > b[i] {
            assert(a@ != b@);
            return Rank::After;
        }
        i = i + 1;
    }
    if i < b.len() {
        Rank::Before
    } else if i < a.len() {
        Rank::After
    } else {
        assert(a@ =~= b@);
        Rank::Same
    }
}

/// A record with a place in the list it is handed out in.
pub trait Ranked: Record {
    /// Whether `x` must stand ahead of `y` in a list.
    spec fn ahead(x: Self::V, y: Self::V) -> bool;

    /// Of two records at most one must stand ahead of the other.
    proof fn ahead_is_asymmetric(x: Self::V, y: Self::V)
        requires
            Self::ahead(x, y),
        ensures
            !Self::ahead(y, x),
    ;

    /// What must stand ahead of a record must stand ahead of every third
    /// record, unless the third must itself stand ahead of the record.
    proof fn ahead_splits(x: Self::V, y: Self::V, z: Self::V)
        requires
            Self::ahead(x, z),
        ensures
            Self::ahead(x, y) || Self::ahead(y, z),
    ;

    /// Decides whether this record must stand ahead of `other`.
    fn is_ahead(&self, other: &Self) -> (r: bool)
        ensures
            r == Self::ahead(self@, other@),
    ;
}

/// Whether a list is in order: no record stands behind one that it must
/// stand ahead of.
pub open spec fn in_order<T: Ranked>(list: Seq<T::V>) -> bool {
    forall|i: int, j: int| 0 <= i < j < list.len() ==> !T::ahead(list[j], list[i])
}

/// Whether a list is strictly in order: each record must stand ahead of all
/// that follow it. No two records of such a list hold the same place.
pub open spec fn strictly_in_order<T: Ranked>(list: Seq<T::V>) -> bool {
    forall|i: int, j: int| 0 <= i < j < list.len() ==> T::ahead(list[i], list[j])
}

/// What must stand ahead of a record must stand ahead of all that the record
/// must stand ahead of.
pub proof fn lemma_ahead_is_transitive<T: Ranked>(x: T::V, y: T::V, z: T::V)
    requires
        T::ahead(x, y),
        T::ahead(y, z),
    ensures
        T::ahead(x, z),
{
    T::ahead_splits(x, z, y);
    if T::ahead(z, y) {
        T::ahead_is_asymmetric(y, z);
    }
}

/// Decides whether a list is strictly in order.
pub fn check_strict_order<T: Ranked>(records: &Vec<T>) -> (ok: bool)
    ensures
        ok == strictly_in_order::<T>(record_views(records@)),
        !ok ==> exists|k: int|
            0 < k < records@.len() && !T::ahead(
                #[trigger] record_views(records@)[k - 1],
                record_views(records@)[k],
            ),
{
    let ghost views = record_views(records@);
    let mut i: usize = 1;
    while i < records.len()
        invariant
            1 <= i,
            views == record_views(records@),
            forall|a: int, b: int| 0 <= a < b < i && b < views.len() ==> T::ahead(views[a], views[b]),
        decreases records@.len() - i,
    {
        assert(views[i - 1] == records@[i - 1]@);
        assert(views[i as int] == records@[i as int]@);
        if !records[i - 1].is_ahead(&records[i]) {
            return false;
        }
        assert forall|a: int, b: int| 0 <= a < b < i + 1 && b < views.len() implies T::ahead(
            views[a],
            views[b],
        ) by {
            if b == i && a < i - 1 {
                lemma_ahead_is_transitive::<T>(views[a], views[i - 1], views[i as int]);
            }
        }
        i = i + 1;
    }
    true
}

/// Accounts come by identifier, lowest first.
impl Ranked for Account {
    open spec fn ahead(x: AccountView, y: AccountView) -> bool {
        x.id < y.id
    }

    proof fn ahead_is_asymmetric(x: AccountView, y: AccountView) {
    }

    proof fn ahead_splits(x: AccountView, y: AccountView, z: AccountView) {
    }

    fn is_ahead(&self, other: &Account) -> (r: bool) {
        self.id < other.id
    }
}

/// Skills come by identifier, lowest first.
impl Ranked for Skill {
    open spec fn ahead(x: SkillView, y: SkillView) -> bool {
        x.id < y.id
    }

    proof fn ahead_is_asymmetric(x: SkillView, y: SkillView) {
    }

    proof fn ahead_splits(x: SkillView, y: SkillView, z: SkillView) {
    }

    fn is_ahead(&self, other: &Skill) -> (r: bool) {
        self.id < other.id
    }
}

/// Training tracks come by identifier, lowest first.
impl Ranked for Cultivation {
    open spec fn ahead(x: CultivationView, y: CultivationView) -> bool {
        x.id < y.id
    }

    proof fn ahead_is_asymmetric(x: CultivationView, y: CultivationView) {
    }

    proof fn ahead_splits(x: CultivationView, y: CultivationView, z: CultivationView) {
    }

    fn is_ahead(&self, other: &Cultivation) -> (r: bool) {
        self.id < other.id
    }
}

/// The change ledger comes by identifier, highest first.
impl Ranked for ChangeLog {
    open spec fn ahead(x: ChangeLogView, y: ChangeLogView) -> bool {
        x.id > y.id
    }

    proof fn ahead_is_asymmetric(x: ChangeLogView, y: ChangeLogView) {
    }

    proof fn ahead_splits(x: ChangeLogView, y: ChangeLogView, z: ChangeLogView) {
    }

    fn is_ahead(&self, other: &ChangeLog) -> (r: bool) {
        self.id > other.id
    }
}

/// The spend ledger comes by date, latest first, and among the entries of
/// one date by identifier, highest first.
impl Ranked for SpendLog {
    open spec fn ahead(x: SpendLogView, y: SpendLogView) -> bool {
        before(encode_utf8(y.date), encode_utf8(x.date)) || (encode_utf8(x.date) == encode_utf8(
            y.date,
        ) && x.id > y.id)
    }

    proof fn ahead_is_asymmetric(x: SpendLogView, y: SpendLogView) {
        let dx = encode_utf8(x.date);
        let dy = encode_utf8(y.date);
        if before(dy, dx) {
            lemma_before_is_asymmetric(dy, dx, 0);
        } else if before(dx, dy) {
            lemma_before_is_asymmetric(dx, dy, 0);
        }
    }

    proof fn ahead_splits(x: SpendLogView, y: SpendLogView, z: SpendLogView) {
        let dx = encode_utf8(x.date);
        let dy = encode_utf8(y.date);
        let dz = encode_utf8(z.date);
        if before(dz, dx) {
            lemma_before_splits(dz, dy, dx, 0);
        } else if !before(dy, dx) && !before(dx, dy) {
            lemma_before_is_total(dx, dy, 0);
            assert(dx =~= dy);
        }
    }

    fn is_ahead(&self, other: &SpendLog) -> (r: bool) {
        match rank(other.date.as_str().as_bytes(), self.date.as_str().as_bytes()) {
            Rank::Before => true,
            Rank::Same => self.id > other.id,
            Rank::After => false,
        }
    }
}

/// In a spend ledger that is strictly in order, no entry has a later date
/// than an entry before it, and of two entries of one date the one before
/// has the higher identifier.
pub proof fn lemma_ledger_order(ledger: Seq<SpendLogView>, i: int, j: int)
    requires
        strictly_in_order::<SpendLog>(ledger),
        0 <= i < j < ledger.len(),
    ensures
        !before(encode_utf8(ledger[i].date), encode_utf8(ledger[j].date)),
        ledger[i].date == ledger[j].date ==> ledger[i].id > ledger[j].id,
{
    assert(SpendLog::ahead(ledger[i], ledger[j]));
    SpendLog::ahead_is_asymmetric(ledger[i], ledger[j]);
    if before(encode_utf8(ledger[i].date), encode_utf8(ledger[j].date)) {
        lemma_before_is_asymmetric(encode_utf8(ledger[i].date), encode_utf8(ledger[j].date), 0);
    }
}

/// In a list of amounts by day or by month that is strictly in order, the
/// dates rise, so that none comes twice.
pub proof fn lemma_summary_order(list: Seq<SpendSummaryView>, i: int, j: int)
    requires
        strictly_in_order::<SpendSummary>(list),
        0 <= i < j < list.len(),
    ensures
        before(encode_utf8(list[i].date), encode_utf8(list[j].date)),
        list[i].date != list[j].date,
{
    assert(SpendSummary::ahead(list[i], list[j]));
    lemma_before_is_asymmetric(encode_utf8(list[i].date), encode_utf8(list[j].date), 0);
}

/// Summaries come by date, earliest first.
impl Ranked for SpendSummary {
    open spec fn ahead(x: SpendSummaryView, y: SpendSummaryView) -> bool {
        before(encode_utf8(x.date), encode_utf8(y.date))
    }

    proof fn ahead_is_asymmetric(x: SpendSummaryView, y: SpendSummaryView) {
        lemma_before_is_asymmetric(encode_utf8(x.date), encode_utf8(y.date), 0);
    }

    proof fn ahead_splits(x: SpendSummaryView, y: SpendSummaryView, z: SpendSummaryView) {
        lemma_before_splits(encode_utf8(x.date), encode_utf8(y.date), encode_utf8(z.date), 0);
    }

    fn is_ahead(&self, other: &SpendSummary) -> (r: bool) {
        match rank(self.date.as_str().as_bytes(), other.date.as_str().as_bytes()) {
            Rank::Before => true,
            _ => false,
        }
    }
}

/// Whether `to` holds the items of `from` in places that `place` and
/// `origin` tell: item `i` of `from` is item `place[i]` of `to`, and item `k`
/// of `to` is item `origin[k]` of `from`.
pub open spec fn rearranges<A>(from: Seq<A>, to: Seq<A>, place: Seq<int>, origin: Seq<int>) -> bool {
    &&& from.len() == to.len()
    &&& place.len() == from.len()
    &&& origin.len() == to.len()
    &&& forall|i: int|
        0 <= i < from.len() ==> {
            &&& 0 <= #[trigger] place[i] < to.len()
            &&& origin[place[i]] == i
            &&& to[place[i]] == from[i]
        }
    &&& forall|k: int|
        0 <= k < to.len() ==> {
            &&& 0 <= #[trigger] origin[k] < from.len()
            &&& place[origin[k]] == k
        }
}

/// Whether `to` holds the items of `from`, each as often as `from` holds it,
/// in whatever order.
pub open spec fn is_rearrangement<A>(from: Seq<A>, to: Seq<A>) -> bool {
    exists|place: Seq<int>, origin: Seq<int>| rearranges(from, to, place, origin)
}

/// Puts records in order. The result holds the records that were given, each
/// as often as it was given.
pub fn put_in_order<T: Ranked>(items: Vec<T>) -> (ordered: Vec<T>)
    ensures
        in_order::<T>(record_views(ordered@)),
        is_rearrangement(record_views(items@), record_views(ordered@)),
{
    let mut ordered: Vec<T> = Vec::new();
    let ghost all = record_views(items@);
    let ghost given = items@;
    let ghost mut place: Seq<int> = Seq::empty();
    let ghost mut origin: Seq<int> = Seq::empty();
    for item in it: items
        invariant
            it.seq() == given,
            all == record_views(given),
            in_order::<T>(record_views(ordered@)),
            rearranges(all.take(it.index() as int), record_views(ordered@), place, origin),
    {
        let ghost before_views = record_views(ordered@);
        let mut p: usize = ordered.len();
        while p > 0 && item.is_ahead(&ordered[p - 1])
            invariant
                p <= ordered@.len(),
                forall|k: int| p <= k < ordered@.len() ==> T::ahead(item@, (#[trigger] ordered@[k])@),
            decreases p,
        {
            p = p - 1;
        }
        ordered.insert(p, item);
        proof {
            let after_views = record_views(ordered@);
            assert(after_views =~= before_views.insert(p as int, item@));
            assert forall|i: int, j: int| 0 <= i < j < after_views.len() implies !T::ahead(
                after_views[j],
                after_views[i],
            ) by {
                if i == p {
                    // The new record must stand ahead of all that follow it.
                    assert(after_views[j] == before_views[j - 1]);
                    assert(before_views[j - 1] == ordered@[j]@);
                    T::ahead_is_asymmetric(item@, before_views[j - 1]);
                } else if j == p {
                    // It need not stand ahead of its neighbour, nor then of any
                    // record before that.
                    let neighbour = before_views[p - 1];
                    assert(after_views[i] == before_views[i]);
                    if T::ahead(item@, before_views[i]) {
                        T::ahead_splits(item@, neighbour, before_views[i]);
                    }
                } else {
                    let bi = if i < p { i } else { i - 1 };
                    let bj = if j < p { j } else { j - 1 };
                    assert(after_views[i] == before_views[bi]);
                    assert(after_views[j] == before_views[bj]);
                }
            }
            // The records behind the new one move one place on.
            let n = it.index() as int;
            let old_place = place;
            let old_origin = origin;
            place = Seq::new(
                (n + 1) as nat,
                |i: int|
                    if i == n {
                        p as int
                    } else if old_place[i] >= p {
                        old_place[i] + 1
                    } else {
                        old_place[i]
                    },
            );
            origin = old_origin.insert(p as int, n);
            let from = all.take(n + 1);
            assert(from[n] == item@);
            assert forall|i: int| 0 <= i < from.len() implies {
                &&& 0 <= #[trigger] place[i] < after_views.len()
                &&& origin[place[i]] == i
                &&& after_views[place[i]] == from[i]
            } by {
                if i < n {
                    assert(all.take(n)[i] == from[i]);
                    assert(0 <= old_place[i] < before_views.len());
                }
            }
            assert forall|k: int| 0 <= k < after_views.len() implies {
                &&& 0 <= #[trigger] origin[k] < from.len()
                &&& place[origin[k]] == k
            } by {
                if k < p {
                    assert(0 <= old_origin[k] < n);
                } else if k > p {
                    assert(0 <= old_origin[k - 1] < n);
                }
            }
        }
    }
    assert(all.take(given.len() as int) =~= all);
    ordered
}

} // verus!
