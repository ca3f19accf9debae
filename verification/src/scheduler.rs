//! Advances a population of guests by a bounded number of steps per tick.

use vstd::prelude::*;
use crate::cpu::{status_of, Cpu, StepResult};

verus! {

/// Gives every guest that still runs up to `budget` steps and reports the
/// status of each, in the order of `harts`.
///
/// A guest that faults stops there and then; the others are stepped as if it
/// were not present. What becomes of a guest depends on that guest alone.
pub fn step_all(harts: &mut Vec<Cpu>, budget: u32) -> (results: Vec<StepResult>)
    requires
        forall|i: int| 0 <= i < old(harts).len() ==> (#[trigger] old(harts)[i])@.wf(),
    ensures
        final(harts).len() == old(harts).len(),
        forall|i: int|
            0 <= i < old(harts).len() ==> (#[trigger] final(harts)[i])@ == old(harts)[i]@.run(
                budget as nat,
            ),
        forall|i: int| 0 <= i < final(harts).len() ==> (#[trigger] final(harts)[i])@.wf(),
        results.len() == old(harts).len(),
        forall|i: int|
            0 <= i < results.len() ==> #[trigger] results[i] == status_of(
                old(harts)[i]@.run(budget as nat),
            ),
{
    let mut results: Vec<StepResult> = Vec::new();
    let count: usize = harts.len();
    let mut index: usize = 0;
    while index < count
        invariant
            index <= count,
            count == harts.len(),
            harts.len() == old(harts).len(),
            results.len() == index,
            forall|i: int|
                0 <= i < index ==> (#[trigger] harts[i])@ == old(harts)[i]@.run(budget as nat),
            forall|i: int| index <= i < count ==> #[trigger] harts[i] == old(harts)[i],
            forall|i: int| 0 <= i < count ==> (#[trigger] harts[i])@.wf(),
            forall|i: int|
                0 <= i < index ==> #[trigger] results[i] == status_of(
                    old(harts)[i]@.run(budget as nat),
                ),
        decreases count - index,
    {
        let hart: &mut Cpu = &mut harts[index];
        hart.run(budget);
        let status: StepResult = hart.status();
        results.push(status);
        index += 1;
    }
    results
}

} // verus!
