use vstd::prelude::*;
use crate::entity::Entity;
use crate::selection::budget::{
    lowered, raised,
    allocated_sum, fresh_rows, lemma_fresh_rows_sum, lemma_sum_allocated_update, make_fresh_rows,
    results_of, row_results, rows_within_available, sum_allocated,
};
use crate::util::{next_index, prev_index, step_next, step_prev};

verus! {

/// The primary victim's division of the Flood secondary loss (rule
/// 30.512): one row per secondary victim (victim, available, allocated),
/// the budget to divide, and a cursor over the rows.
#[derive(Debug)]
pub struct FloodSelectionState {
    pub acting_player: Option<Entity>,
    pub total_budget: usize,
    pub victims: Vec<(Entity, usize, usize)>,
    pub current_victim_index: usize,
}

impl Default for FloodSelectionState {
    fn default() -> (s: Self)
        ensures
            s.is_cleared(),
    {
        FloodSelectionState {
            acting_player: None,
            total_budget: 0,
            victims: Vec::new(),
            current_victim_index: 0,
        }
    }
}

impl FloodSelectionState {
    pub open spec fn is_cleared(self) -> bool {
        &&& self.acting_player is None
        &&& self.total_budget == 0
        &&& self.victims@.len() == 0
        &&& self.current_victim_index == 0
    }

    /// The allocation respects every victim's availability and the budget.
    pub open spec fn within_limits(self) -> bool {
        &&& rows_within_available(self.victims@)
        &&& sum_allocated(self.victims@) <= self.total_budget
    }

    /// The total allocated fits in a `usize`.
    pub open spec fn sum_fits(self) -> bool {
        sum_allocated(self.victims@) <= usize::MAX
    }

    /// Budget not yet allocated.
    pub open spec fn remaining(self) -> nat {
        if sum_allocated(self.victims@) <= self.total_budget {
            (self.total_budget - sum_allocated(self.victims@)) as nat
        } else {
            0
        }
    }

    /// The row under the cursor, if the cursor is on one.
    pub open spec fn current(self) -> Option<(Entity, usize, usize)> {
        if self.current_victim_index < self.victims@.len() {
            Some(self.victims@[self.current_victim_index as int])
        } else {
            None
        }
    }

    /// Sets up `player`'s division of `total_budget` among `victims`, each
    /// paired with what they can lose; nothing is allocated yet.
    pub fn populate(&mut self, player: Entity, victims: Vec<(Entity, usize)>, total_budget: usize)
        ensures
            final(self).acting_player == Some(player),
            final(self).total_budget == total_budget,
            final(self).victims@ == fresh_rows(victims@),
            final(self).current_victim_index == 0,
            final(self).within_limits(),
            final(self).sum_fits(),
    {
        self.acting_player = Some(player);
        self.total_budget = total_budget;
        self.victims = make_fresh_rows(victims);
        self.current_victim_index = 0;
        proof {
            lemma_fresh_rows_sum(victims@);
        }
    }

    pub fn clear(&mut self)
        ensures
            final(self).is_cleared(),
    {
        *self = Self::default();
    }

    pub fn allocated_total(&self) -> (t: usize)
        requires
            self.sum_fits(),
        ensures
            t == sum_allocated(self.victims@),
    {
        allocated_sum(&self.victims)
    }

    pub fn remaining_budget(&self) -> (r: usize)
        requires
            self.sum_fits(),
        ensures
            r == self.remaining(),
    {
        let allocated = self.allocated_total();
        if allocated <= self.total_budget {
            self.total_budget - allocated
        } else {
            0
        }
    }

    pub fn current_victim(&self) -> (c: Option<(Entity, usize, usize)>)
        ensures
            c == self.current(),
    {
        if self.current_victim_index < self.victims.len() {
            Some(self.victims[self.current_victim_index])
        } else {
            None
        }
    }

    pub fn next_victim(&mut self)
        requires
            old(self).victims@.len() > 0 ==> old(self).current_victim_index < usize::MAX,
        ensures
            *final(self) == (FloodSelectionState {
                current_victim_index: next_index(
                    old(self).current_victim_index as nat,
                    old(self).victims@.len(),
                ) as usize,
                ..*old(self)
            }),
    {
        self.current_victim_index = step_next(self.current_victim_index, self.victims.len());
    }

    pub fn prev_victim(&mut self)
        ensures
            *final(self) == (FloodSelectionState {
                current_victim_index: prev_index(
                    old(self).current_victim_index as nat,
                    old(self).victims@.len(),
                ) as usize,
                ..*old(self)
            }),
    {
        self.current_victim_index = step_prev(self.current_victim_index, self.victims.len());
    }

    /// Allocates one more point to the victim under the cursor, if budget
    /// remains and they can lose more; returns whether anything changed.
    pub fn increment_current(&mut self) -> (changed: bool)
        requires
            old(self).sum_fits(),
        ensures
            changed == (old(self).remaining() > 0 && (match old(self).current() {
                Some(r) => r.2 < r.1,
                None => false,
            })),
            changed ==> final(self).victims@ == raised(old(self).victims@, old(self).current_victim_index as int),
            !changed ==> final(self).victims@ == old(self).victims@,
            *final(self) == (FloodSelectionState { victims: final(self).victims, ..*old(self) }),
            final(self).sum_fits(),
            old(self).within_limits() ==> final(self).within_limits(),
    {
        if self.remaining_budget() == 0 {
            return false;
        }
        let idx = self.current_victim_index;
        if idx < self.victims.len() {
            let (e, available, allocated) = self.victims[idx];
            if allocated < available {
                proof {
                    lemma_sum_allocated_update(self.victims@, idx as int, (e, available, (allocated + 1) as usize));
                }
                self.victims.set(idx, (e, available, allocated + 1));
                return true;
            }
        }
        false
    }

    /// Takes one point back from the victim under the cursor, if they have
    /// any; returns whether anything changed.
    pub fn decrement_current(&mut self) -> (changed: bool)
        ensures
            changed == (match old(self).current() {
                Some(r) => r.2 > 0,
                None => false,
            }),
            changed ==> final(self).victims@ == lowered(old(self).victims@, old(self).current_victim_index as int),
            !changed ==> final(self).victims@ == old(self).victims@,
            *final(self) == (FloodSelectionState { victims: final(self).victims, ..*old(self) }),
            old(self).sum_fits() ==> final(self).sum_fits(),
            old(self).within_limits() ==> final(self).within_limits(),
    {
        let idx = self.current_victim_index;
        if idx < self.victims.len() {
            let (e, available, allocated) = self.victims[idx];
            if allocated > 0 {
                proof {
                    lemma_sum_allocated_update(self.victims@, idx as int, (e, available, (allocated - 1) as usize));
                }
                self.victims.set(idx, (e, available, allocated - 1));
                return true;
            }
        }
        false
    }

    /// The whole budget is allocated.
    pub fn selection_valid(&self) -> (b: bool)
        requires
            self.sum_fits(),
        ensures
            b == (self.remaining() == 0),
    {
        self.remaining_budget() == 0
    }

    /// The (victim, allocated) pairs; the state is cleared.
    pub fn take_result(&mut self) -> (r: Vec<(Entity, usize)>)
        ensures
            r@ == row_results(old(self).victims@),
            final(self).is_cleared(),
    {
        let result = results_of(&self.victims);
        self.clear();
        result
    }
}

/// A button of the Flood division panel.
#[derive(Debug, Clone, Copy, PartialEq, Eq, Structural)]
pub enum FloodButtonAction {
    PrevVictim,
    NextVictim,
    Increment,
    Decrement,
    Confirm,
}

impl FloodSelectionState {
    /// A press of `action`: moves the cursor or changes the allocation under
    /// it; `Confirm` with the whole budget allocated releases the human
    /// waiting on this choice, when exactly one is waiting.
    pub fn handle_button(&mut self, action: FloodButtonAction, human_waiting: &Vec<Entity>) -> (released: Option<Entity>)
        requires
            old(self).sum_fits(),
            action == FloodButtonAction::NextVictim && old(self).victims@.len() > 0 ==> old(self).current_victim_index
                < usize::MAX,
        ensures
            action == FloodButtonAction::PrevVictim ==> *final(self) == (FloodSelectionState {
                current_victim_index: prev_index(old(self).current_victim_index as nat, old(self).victims@.len()) as usize,
                ..*old(self)
            }),
            action == FloodButtonAction::NextVictim ==> *final(self) == (FloodSelectionState {
                current_victim_index: next_index(old(self).current_victim_index as nat, old(self).victims@.len()) as usize,
                ..*old(self)
            }),
            action == FloodButtonAction::Increment ==> {
                &&& *final(self) == (FloodSelectionState { victims: final(self).victims, ..*old(self) })
                &&& final(self).victims@ == match old(self).current() {
                    Some(r) => if old(self).remaining() > 0 && r.2 < r.1 {
                        raised(old(self).victims@, old(self).current_victim_index as int)
                    } else {
                        old(self).victims@
                    },
                    None => old(self).victims@,
                }
            },
            action == FloodButtonAction::Decrement ==> {
                &&& *final(self) == (FloodSelectionState { victims: final(self).victims, ..*old(self) })
                &&& final(self).victims@ == match old(self).current() {
                    Some(r) => if r.2 > 0 {
                        lowered(old(self).victims@, old(self).current_victim_index as int)
                    } else {
                        old(self).victims@
                    },
                    None => old(self).victims@,
                }
            },
            action == FloodButtonAction::Confirm ==> *final(self) == *old(self),
            released == if action == FloodButtonAction::Confirm && old(self).remaining() == 0 && human_waiting@.len() == 1 {
                Some(human_waiting@[0])
            } else {
                None
            },
    {
        match action {
            FloodButtonAction::PrevVictim => {
                self.prev_victim();
                None
            },
            FloodButtonAction::NextVictim => {
                self.next_victim();
                None
            },
            FloodButtonAction::Increment => {
                self.increment_current();
                None
            },
            FloodButtonAction::Decrement => {
                self.decrement_current();
                None
            },
            FloodButtonAction::Confirm => {
                if self.selection_valid() && human_waiting.len() == 1 {
                    Some(human_waiting[0])
                } else {
                    None
                }
            },
        }
    }
}

} // verus!
