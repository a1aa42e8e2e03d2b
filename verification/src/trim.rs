//! How much of a system message is kept.
//!
//! The system ends its messages with a line terminator, and usually with a full
//! stop before it. Scanning back from the end of the text, the first unit that
//! is not a control character marks the cut: that unit and everything behind it
//! are dropped.

use vstd::prelude::*;

verus! {

/// The lowest code unit that does not count as a control character: the space.
pub const FIRST_PRINTABLE: u16 = 0x20;

/// Whether a UTF-16 code unit is a control character (below the space).
pub open spec fn is_control(unit: u16) -> bool {
    unit < FIRST_PRINTABLE
}

/// Whether every unit of `units` strictly between `from` and `to` is a control
/// character.
pub open spec fn all_control_between(units: Seq<u16>, from: int, to: int) -> bool {
    forall|j: int| from < j < to ==> is_control(#[trigger] units[j])
}

/// The number of leading units of a message of `count` units that are kept.
///
/// It is the greatest index below `count`, and above zero, that holds a unit
/// which is no control character; zero where there is no such index.
pub open spec fn kept_len(units: Seq<u16>, count: nat) -> nat
    decreases count,
{
    if count <= 1 {
        0
    } else if !is_control(units[count - 1]) {
        (count - 1) as nat
    } else {
        kept_len(units, (count - 1) as nat)
    }
}

/// The part of a message of `count` units that is kept.
pub open spec fn kept_units(units: Seq<u16>, count: nat) -> Seq<u16> {
    units.subrange(0, kept_len(units, count) as int)
}

/// `kept_len` is the one index that lies below `count`, has only control
/// characters between itself and `count`, and is either zero or the place of a
/// unit that is no control character.
pub proof fn lemma_kept_len_characterized(units: Seq<u16>, count: nat, k: nat)
    requires
        count <= units.len(),
    ensures
        kept_len(units, count) == k <==> {
            &&& k <= count
            &&& count > 0 ==> k < count
            &&& all_control_between(units, k as int, count as int)
            &&& k > 0 ==> !is_control(units[k as int])
        },
    decreases count,
{
    if count > 1 && is_control(units[count - 1]) {
        lemma_kept_len_characterized(units, (count - 1) as nat, k);
        if k < count - 1 {
            assert(all_control_between(units, k as int, count as int) <==> all_control_between(
                units,
                k as int,
                count - 1,
            )) by {
                if all_control_between(units, k as int, count - 1) {
                    assert forall|j: int| k < j < count implies is_control(
                        #[trigger] units[j],
                    ) by {}
                }
            }
        }
    } else if count > 1 {
        if k < count - 1 && all_control_between(units, k as int, count as int) {
            assert(is_control(units[count - 1]));
        }
    }
}

/// Where the trailing control characters of a message of `count` units begin:
/// the least index from which on every unit up to `count` is a control
/// character (`count` itself where the message does not end in one).
pub open spec fn control_run_start(units: Seq<u16>, count: nat) -> nat
    decreases count,
{
    if count == 0 || !is_control(units[count - 1]) {
        count
    } else {
        control_run_start(units, (count - 1) as nat)
    }
}

/// The kept part of a message holds none of its trailing control characters:
/// it ends one unit before they begin, so the last unit in front of them is
/// dropped with them. Where they begin at the first or second unit, nothing is
/// kept.
pub proof fn lemma_kept_before_control_run(units: Seq<u16>, count: nat)
    requires
        count <= units.len(),
    ensures
        control_run_start(units, count) >= 1 ==> kept_len(units, count) == control_run_start(
            units,
            count,
        ) - 1,
        control_run_start(units, count) == 0 ==> kept_len(units, count) == 0,
        kept_len(units, count) <= control_run_start(units, count),
    decreases count,
{
    if count >= 1 && is_control(units[count - 1]) {
        lemma_kept_before_control_run(units, (count - 1) as nat);
    }
}

/// Finds how many leading units of a message are kept.
///
/// `count` is the number of units that the system reported as written. The
/// scan starts at the index `count` itself, which lies past the text and is
/// always stepped over, so `units` is never read out of bounds.
pub fn trimmed_len(units: &[u16], count: usize) -> (kept: usize)
    requires
        count <= units@.len(),
    ensures
        kept == kept_len(units@, count as nat),
        kept <= count,
{
    if count == 0 {
        return 0;
    }
    let mut index: usize = count - 1;
    while index > 0 && units[index] < FIRST_PRINTABLE
        invariant
            index < count <= units@.len(),
            kept_len(units@, count as nat) == kept_len(units@, (index + 1) as nat),
        decreases index,
    {
        index -= 1;
    }
    index
}

} // verus!
