//! A worked example of the capability contract: reach a target by steps.

use vstd::prelude::*;

use crate::contract::Ops;

verus! {

/// Operations for a simple problem of reaching a target count by unit
/// steps.
///
/// The model is a pair `(target, current)`. The decider returns `1` while
/// `current` is below `target`, `-1` while it is above, and `0` once they
/// meet; the actor adds the action to `current`; the mutater decrements a
/// positive `target` by one and records `-1` as the delta (a zero target is
/// left alone, with delta `0`); the undoer subtracts the delta from
/// `target` again. A sum that would leave `u32` range leaves the model
/// unchanged, so every operation is total.
#[derive(Clone, Copy)]
pub struct CounterOps;

/// `x + a` when that stays in `u32` range; `x` unchanged otherwise.
pub open spec fn shifted(x: u32, a: int) -> u32 {
    if 0 <= x + a <= u32::MAX {
        (x + a) as u32
    } else {
        x
    }
}

/// Executable counterpart of [`shifted`].
fn shift(x: u32, a: i64) -> (r: u32)
    ensures
        r == shifted(x, a as int),
{
    match (x as i64).checked_add(a) {
        Some(s) => {
            if 0 <= s && s <= u32::MAX as i64 {
                s as u32
            } else {
                x
            }
        },
        None => x,
    }
}

impl Ops for CounterOps {
    type Model = (u32, u32);

    type Action = i32;

    type Delta = i32;

    open spec fn decide_spec(m: (u32, u32)) -> i32 {
        if m.1 < m.0 {
            1
        } else if m.1 > m.0 {
            (-1) as i32
        } else {
            0
        }
    }

    open spec fn act_spec(m: (u32, u32), a: i32) -> (u32, u32) {
        (m.0, shifted(m.1, a as int))
    }

    open spec fn mutate_spec(m: (u32, u32)) -> (u32, u32) {
        if m.0 > 0 {
            ((m.0 - 1) as u32, m.1)
        } else {
            m
        }
    }

    open spec fn delta_spec(m: (u32, u32)) -> i32 {
        if m.0 > 0 {
            (-1) as i32
        } else {
            0
        }
    }

    open spec fn undo_spec(m: (u32, u32), d: i32) -> (u32, u32) {
        (shifted(m.0, -(d as int)), m.1)
    }

    proof fn lemma_undo_mutate(m: (u32, u32)) {
    }

    proof fn lemma_action_eq() {
        broadcast use vstd::laws_eq::group_laws_eq;

        reveal(vstd::laws_eq::obeys_concrete_eq);
        assert(vstd::laws_eq::obeys_concrete_eq::<i32>());
    }

    fn decide(&self, m: &(u32, u32)) -> i32 {
        if m.1 < m.0 {
            1
        } else if m.1 > m.0 {
            -1
        } else {
            0
        }
    }

    fn act(&self, m: &mut (u32, u32), a: i32) {
        m.1 = shift(m.1, a as i64);
    }

    fn mutate(&self, m: &mut (u32, u32)) -> i32 {
        if m.0 > 0 {
            m.0 = m.0 - 1;
            -1
        } else {
            0
        }
    }

    fn undo(&self, m: &mut (u32, u32), d: i32) {
        m.0 = shift(m.0, -(d as i64));
    }
}

} // verus!
