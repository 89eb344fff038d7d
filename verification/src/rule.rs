//! The neighborhood rule engine: one cell's next result from its current
//! condition and its eight neighbors' conditions.

use vstd::prelude::*;
use crate::pixel::CellCondition;

verus! {

/// Outcome of one rule evaluation. `Untouched` means "keep whatever color
/// was already there"; it is what lets team-colored captured cells persist
/// across ticks.
#[derive(PartialEq, Eq, Structural, Copy, Clone, Debug)]
pub enum CellResult {
    Empty,
    Active,
    Untouched,
}

/// 1 if the condition is `Active`, 0 otherwise.
pub open spec fn active_one(c: CellCondition) -> int {
    if c == CellCondition::Active {
        1
    } else {
        0
    }
}

/// Number of `Active` entries among the eight neighbor conditions.
pub open spec fn count_active(n: Seq<CellCondition>) -> int
    recommends
        n.len() == 8,
{
    active_one(n[0]) + active_one(n[1]) + active_one(n[2]) + active_one(n[3]) + active_one(n[4])
        + active_one(n[5]) + active_one(n[6]) + active_one(n[7])
}

/// The birth/survival/death rule:
/// an `Empty` cell with exactly three active neighbors spawns; any cell with
/// two or three active neighbors stays (or becomes) `Active`; an `Active`
/// cell with another neighbor count dies; every other cell is left untouched.
pub open spec fn spec_evaluate(current: CellCondition, n: Seq<CellCondition>) -> CellResult
    recommends
        n.len() == 8,
{
    let k = count_active(n);
    let spawn = current == CellCondition::Empty && k == 3;
    let survive = k == 2 || k == 3;
    let die = current == CellCondition::Active && !(k == 2 || k == 3);
    if spawn || survive {
        CellResult::Active
    } else if die {
        CellResult::Empty
    } else {
        CellResult::Untouched
    }
}

/// 1 if the condition is `Active`, 0 otherwise.
fn active_as_count(c: CellCondition) -> (r: u8)
    ensures
        r as int == active_one(c),
{
    if matches!(c, CellCondition::Active) {
        1
    } else {
        0
    }
}

/// Evaluates the rule for one cell.
pub fn evaluate(current: CellCondition, neighborhood: &[CellCondition; 8]) -> (r: CellResult)
    ensures
        r == spec_evaluate(current, neighborhood@),
{
    let k: u8 = active_as_count(neighborhood[0]) + active_as_count(neighborhood[1])
        + active_as_count(neighborhood[2]) + active_as_count(neighborhood[3]) + active_as_count(
        neighborhood[4],
    ) + active_as_count(neighborhood[5]) + active_as_count(neighborhood[6]) + active_as_count(
        neighborhood[7],
    );
    let spawn = matches!(current, CellCondition::Empty) && k == 3;
    let survive = k == 2 || k == 3;
    let die = matches!(current, CellCondition::Active) && !(k == 2 || k == 3);
    if spawn || survive {
        CellResult::Active
    } else if die {
        CellResult::Empty
    } else {
        CellResult::Untouched
    }
}

/// For conditions drawn from `{Empty, Active}` the rule is exactly the
/// birth/survival/death table: the cell is `Active` next when it has two or
/// three active neighbors, or is empty with exactly three; an active cell
/// with another count dies; an empty cell with another count stays empty
/// (reported as `Untouched`, which preserves the black sentinel).
pub proof fn lemma_rule_table(current: CellCondition, n: Seq<CellCondition>)
    requires
        n.len() == 8,
        current == CellCondition::Empty || current == CellCondition::Active,
    ensures
        spec_evaluate(current, n) == CellResult::Active <==> (count_active(n) == 2 || count_active(
            n,
        ) == 3 || (current == CellCondition::Empty && count_active(n) == 3)),
        spec_evaluate(current, n) == CellResult::Empty <==> (current == CellCondition::Active
            && count_active(n) != 2 && count_active(n) != 3),
        spec_evaluate(current, n) == CellResult::Untouched <==> (current == CellCondition::Empty
            && count_active(n) != 2 && count_active(n) != 3),
{
}

/// Untouched preservation: an `Owned` or `Enemy` cell whose neighborhood has
/// neither two nor three active entries is left untouched. (With two or
/// three active neighbors the rule emits `Active` even over a team-colored
/// cell, so those neighborhoods are excluded here.)
pub proof fn lemma_untouched_preservation(current: CellCondition, n: Seq<CellCondition>)
    requires
        n.len() == 8,
        current == CellCondition::Owned || current == CellCondition::Enemy,
        count_active(n) != 2,
        count_active(n) != 3,
    ensures
        spec_evaluate(current, n) == CellResult::Untouched,
{
}

} // verus!
