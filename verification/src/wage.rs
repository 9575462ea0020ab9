use vstd::prelude::*;

use crate::enumit::EnumIter;

verus! {

/// The pay-period prefix of a wage: the length of the period the amount is
/// stated for.
#[derive(Debug, PartialEq, Eq, Structural, Hash, Clone, Copy)]
pub enum Prefix {
    Hour,
    Day,
    Month,
}

/// The unit of a wage: the assumed length of one workday, in hours.
#[derive(Debug, PartialEq, Eq, Structural, Hash, Clone, Copy)]
pub enum Unit {
    Hour4,
    Hour6,
    Hour8,
}

/// Hours in one workday of the given unit.
pub open spec fn unit_hours(u: Unit) -> int {
    match u {
        Unit::Hour4 => 4,
        Unit::Hour6 => 6,
        Unit::Hour8 => 8,
    }
}

/// Hours in one period of the given prefix, assuming a workday of the given
/// unit: an hour is 1 hour, a day is one workday, a month is 30 workdays.
pub open spec fn period_hours(p: Prefix, u: Unit) -> int {
    match p {
        Prefix::Hour => 1,
        Prefix::Day => unit_hours(u),
        Prefix::Month => unit_hours(u) * 30,
    }
}

/// All prefixes, in declaration order.
pub open spec fn prefix_order() -> Seq<Prefix> {
    seq![Prefix::Hour, Prefix::Day, Prefix::Month]
}

/// All units, in declaration order.
pub open spec fn unit_order() -> Seq<Unit> {
    seq![Unit::Hour4, Unit::Hour6, Unit::Hour8]
}

impl Unit {
    /// A fresh enumeration of all units, in declaration order.
    pub fn iter() -> (r: EnumIter<Unit>)
        ensures
            r.wf(),
            r.all() == unit_order(),
            r.position() == 0,
    {
        let values: Vec<Unit> = vec![Unit::Hour4, Unit::Hour6, Unit::Hour8];
        proof {
            assert(values@ =~= unit_order());
        }
        EnumIter::new(values)
    }

    /// The display label of this unit.
    pub fn label(self) -> (r: &'static str)
        ensures
            self == Unit::Hour4 ==> r@ == "4 hours"@,
            self == Unit::Hour6 ==> r@ == "6 hours"@,
            self == Unit::Hour8 ==> r@ == "8 hours"@,
    {
        match self {
            Unit::Hour4 => "4 hours",
            Unit::Hour6 => "6 hours",
            Unit::Hour8 => "8 hours",
        }
    }

    /// The number of hours in one workday of this unit.
    pub fn value(self) -> (r: u32)
        ensures
            r == unit_hours(self),
    {
        match self {
            Unit::Hour4 => 4,
            Unit::Hour6 => 6,
            Unit::Hour8 => 8,
        }
    }
}

impl Prefix {
    /// A fresh enumeration of all prefixes, in declaration order.
    pub fn iter() -> (r: EnumIter<Prefix>)
        ensures
            r.wf(),
            r.all() == prefix_order(),
            r.position() == 0,
    {
        let values: Vec<Prefix> = vec![Prefix::Hour, Prefix::Day, Prefix::Month];
        proof {
            assert(values@ =~= prefix_order());
        }
        EnumIter::new(values)
    }

    /// The display label of this prefix.
    pub fn label(self) -> (r: &'static str)
        ensures
            self == Prefix::Hour ==> r@ == "Hour"@,
            self == Prefix::Day ==> r@ == "Day"@,
            self == Prefix::Month ==> r@ == "Month"@,
    {
        match self {
            Prefix::Hour => "Hour",
            Prefix::Day => "Day",
            Prefix::Month => "Month",
        }
    }

    /// The number of hours in one period of this prefix, given the workday
    /// length `unit`.
    pub fn to_hours(self, unit: Unit) -> (r: u32)
        ensures
            r == period_hours(self, unit),
    {
        match self {
            Prefix::Hour => 1,
            Prefix::Day => unit.value(),
            Prefix::Month => unit.value() * 30,
        }
    }
}

/// The unit of the cross-product cell at position `i`: cells are grouped by
/// unit, three prefixes to a group, units in declaration order.
pub open spec fn cell_unit(i: int) -> Unit {
    unit_order()[i / 3]
}

/// The prefix of the cross-product cell at position `i`: within each unit
/// group, prefixes come in declaration order.
pub open spec fn cell_prefix(i: int) -> Prefix {
    prefix_order()[i % 3]
}

/// The full cross-product table as a sequence of (unit, prefix) pairs:
/// one cell per combination, grouped by unit, nine cells in all.
pub open spec fn cells() -> Seq<(Unit, Prefix)> {
    Seq::new(9, |i: int| (cell_unit(i), cell_prefix(i)))
}

/// One cell of the cross-product table: a target (prefix, unit) pair
/// together with the number of hours in one target period. The wage value
/// of the cell is the hourly base rate multiplied by `hours`; that
/// multiplication is the caller's, since the base rate is an arbitrary
/// numeric amount.
#[derive(Debug, PartialEq, Eq, Structural, Clone, Copy)]
pub struct Conversion {
    pub prefix: Prefix,
    pub unit: Unit,
    pub hours: u32,
}

/// A lazy, restartable enumeration of the nine cells of the cross-product
/// table, grouped by unit (outer, declaration order), then by prefix
/// (inner, declaration order). Built from one enumeration of the units and
/// one of the prefixes; the prefix enumeration is restarted for each unit
/// group.
#[derive(Debug, Clone)]
pub struct WageIter {
    /// Enumerates the unit groups; always one step ahead of `current`.
    pub unit: EnumIter<Unit>,
    /// Enumerates the prefixes within the current unit group.
    pub prefix: EnumIter<Prefix>,
    /// The unit group now being emitted, or `None` once every group is done.
    pub current: Option<Unit>,
}

impl WageIter {
    /// The iterator's internal state is consistent: both enumerations walk
    /// the declaration orders, and `current` names the unit group that the
    /// unit enumeration last yielded, or is `None` once the unit
    /// enumeration is exhausted.
    pub open spec fn wf(self) -> bool {
        &&& self.unit.all() == unit_order()
        &&& self.prefix.all() == prefix_order()
        &&& 1 <= self.unit.position() <= 3
        &&& self.prefix.position() <= 3
        &&& match self.current {
            Some(u) => u == unit_order()[self.unit.position() - 1],
            None => self.unit.position() == 3,
        }
    }

    /// How many cells have been emitted so far (between 0 and 9).
    pub open spec fn emitted(self) -> int {
        match self.current {
            Some(_) => 3 * (self.unit.position() - 1) + self.prefix.position(),
            None => 9,
        }
    }

    /// The cells still to come, in emission order.
    pub open spec fn remaining_cells(self) -> Seq<(Unit, Prefix)> {
        cells().skip(self.emitted())
    }

    /// Start a fresh enumeration of the cross-product table, positioned
    /// before its first cell.
    pub fn new() -> (r: WageIter)
        ensures
            r.wf(),
            r.emitted() == 0,
    {
        let mut unit = Unit::iter();
        let current = unit.next();
        WageIter { unit, prefix: Prefix::iter(), current }
    }

    /// Emit the next cell of the table, or `None` once all nine cells have
    /// been emitted. Exhaustion is terminal: every later call also returns
    /// `None`.
    pub fn next(&mut self) -> (r: Option<Conversion>)
        requires
            old(self).wf(),
        ensures
            final(self).wf(),
            old(self).emitted() < 9 ==> (r matches Some(c) && c.unit == cell_unit(
                old(self).emitted(),
            ) && c.prefix == cell_prefix(old(self).emitted()) && c.hours == period_hours(
                c.prefix,
                c.unit,
            ) && final(self).emitted() == old(self).emitted() + 1),
            old(self).emitted() == 9 ==> (r is None && final(self).emitted() == 9),
    {
        let prefix = match self.prefix.next() {
            Some(p) => p,
            None => {
                self.current = self.unit.next();
                self.prefix = Prefix::iter();
                match self.prefix.next() {
                    Some(p) => p,
                    // A fresh prefix enumeration is never empty.
                    None => Prefix::Hour,
                }
            },
        };
        match self.current {
            None => None,
            Some(unit) => Some(
                Conversion { prefix, unit, hours: prefix.to_hours(unit) },
            ),
        }
    }
}

/// Position of a unit in the declaration order.
spec fn unit_index(u: Unit) -> int {
    match u {
        Unit::Hour4 => 0,
        Unit::Hour6 => 1,
        Unit::Hour8 => 2,
    }
}

/// Position of a prefix in the declaration order.
spec fn prefix_index(p: Prefix) -> int {
    match p {
        Prefix::Hour => 0,
        Prefix::Day => 1,
        Prefix::Month => 2,
    }
}

/// Every period/workday combination spans a strictly positive number of
/// hours, so normalizing by it never divides by zero.
pub proof fn lemma_hours_positive()
    ensures
        forall|p: Prefix, u: Unit| #[trigger] period_hours(p, u) > 0,
{
}

/// Scale invariants: a day spans the workday's hours, a month spans thirty
/// workdays, and an hour spans one hour, whatever the workday length.
pub proof fn lemma_scale_invariants()
    ensures
        forall|u: Unit| #[trigger] period_hours(Prefix::Hour, u) == 1,
        forall|u: Unit| #[trigger] period_hours(Prefix::Day, u) == unit_hours(u),
        forall|u: Unit| #[trigger] period_hours(Prefix::Month, u) == unit_hours(u) * 30,
{
}

/// Table completeness: the cross-product table has exactly nine cells, and
/// every (unit, prefix) combination appears in it exactly once.
pub proof fn lemma_table_complete()
    ensures
        cells().len() == 9,
        forall|u: Unit, p: Prefix| #[trigger] cells().contains((u, p)),
        forall|i: int, j: int|
            0 <= i < 9 && 0 <= j < 9 && #[trigger] cells()[i] == #[trigger] cells()[j] ==> i == j,
{
    assert forall|u: Unit, p: Prefix| #[trigger] cells().contains((u, p)) by {
        let i = 3 * unit_index(u) + prefix_index(p);
        assert(cells()[i] == (u, p));
    }
    assert forall|i: int, j: int|
        0 <= i < 9 && 0 <= j < 9 && #[trigger] cells()[i] == #[trigger] cells()[j] implies i
        == j by {
        assert(unit_index(cells()[i].0) == i / 3 && prefix_index(cells()[i].1) == i % 3);
        assert(unit_index(cells()[j].0) == j / 3 && prefix_index(cells()[j].1) == j % 3);
    }
}

/// Enumeration order: the table yields units in declaration order, three
/// cells to a group, and within each group the prefixes in declaration
/// order.
pub proof fn lemma_enumeration_order()
    ensures
        cells() == seq![
            (Unit::Hour4, Prefix::Hour),
            (Unit::Hour4, Prefix::Day),
            (Unit::Hour4, Prefix::Month),
            (Unit::Hour6, Prefix::Hour),
            (Unit::Hour6, Prefix::Day),
            (Unit::Hour6, Prefix::Month),
            (Unit::Hour8, Prefix::Hour),
            (Unit::Hour8, Prefix::Day),
            (Unit::Hour8, Prefix::Month),
        ],
{
    assert(cells() =~= seq![
        (Unit::Hour4, Prefix::Hour),
        (Unit::Hour4, Prefix::Day),
        (Unit::Hour4, Prefix::Month),
        (Unit::Hour6, Prefix::Hour),
        (Unit::Hour6, Prefix::Day),
        (Unit::Hour6, Prefix::Month),
        (Unit::Hour8, Prefix::Hour),
        (Unit::Hour8, Prefix::Day),
        (Unit::Hour8, Prefix::Month),
    ]);
}

/// Round trip, expansion first: a value converted from the hourly base to
/// any (prefix, unit) cell and then normalized back by the same cell's
/// hours is restored exactly.
pub proof fn lemma_round_trip(v: int, p: Prefix, u: Unit)
    ensures
        (v * period_hours(p, u)) / period_hours(p, u) == v,
{
    lemma_hours_positive();
    vstd::arithmetic::div_mod::lemma_div_multiples_vanish(v, period_hours(p, u));
}

/// Round trip, normalization first: a value that is an exact multiple of a
/// cell's hours, normalized by them and expanded again, is restored
/// exactly. (Without the divisibility requirement the normalized value is
/// truncated, and the round trip is only exact up to that truncation.)
pub proof fn lemma_round_trip_divisible(v: int, p: Prefix, u: Unit)
    requires
        v % period_hours(p, u) == 0,
    ensures
        (v / period_hours(p, u)) * period_hours(p, u) == v,
{
    lemma_hours_positive();
    vstd::arithmetic::div_mod::lemma_fundamental_div_mod(v, period_hours(p, u));
}

/// Determinism: what a table enumeration still has to emit depends only on
/// how many cells it has emitted, never on the internal shape of its
/// state — two enumerations that have emitted equally many cells agree on
/// every cell to come.
pub proof fn lemma_deterministic(a: WageIter, b: WageIter)
    requires
        a.wf(),
        b.wf(),
        a.emitted() == b.emitted(),
    ensures
        a.remaining_cells() == b.remaining_cells(),
{
}

} // verus!
