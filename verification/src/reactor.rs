//! The reactor's wake deadline.
//!
//! Once per iteration the loop blocks on the socket until the earliest
//! engine-reported timeout across all connections — or not at all when a
//! connection's write phase was cut short by its burst window, which
//! demands an immediate next iteration.

use vstd::prelude::*;

verus! {

/// Compute how long the reactor may wait before the next iteration:
/// zero when a write phase requested immediate continuation, otherwise the
/// smallest engine-reported timeout, or no deadline when no engine
/// reports one. Timeouts are in milliseconds.
pub fn next_wait(continue_write: bool, timeouts: &Vec<Option<u64>>) -> (r: Option<u64>)
    ensures
        continue_write ==> r == Some(0u64),
        !continue_write ==> match r {
            Some(t) => (exists|i: int|
                0 <= i < timeouts@.len() && timeouts@[i] == Some(t)) && (forall|j: int|
                0 <= j < timeouts@.len() ==> (#[trigger] timeouts@[j] matches Some(v) ==> t
                    <= v)),
            None => forall|j: int| 0 <= j < timeouts@.len() ==> timeouts@[j] is None,
        },
{
    if continue_write {
        return Some(0);
    }
    let mut best: Option<u64> = None;
    let mut i: usize = 0;
    while i < timeouts.len()
        invariant
            i <= timeouts@.len(),
            match best {
                Some(t) => (exists|k: int| 0 <= k < i && timeouts@[k] == Some(t)) && (
                forall|j: int|
                    0 <= j < i ==> (#[trigger] timeouts@[j] matches Some(v) ==> t <= v)),
                None => forall|j: int| 0 <= j < i ==> timeouts@[j] is None,
            },
        decreases timeouts@.len() - i,
    {
        match timeouts[i] {
            Some(t) => {
                match best {
                    Some(b) => {
                        if t < b {
                            best = Some(t);
                        }
                    },
                    None => {
                        best = Some(t);
                    },
                }
            },
            None => {},
        }
        i = i + 1;
    }
    best
}

} // verus!
