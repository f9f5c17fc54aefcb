use vstd::prelude::*;
use crate::entity::Entity;
use crate::calamities::secondary_loss;

verus! {

/// Famine (rule 30.31): the primary victim loses 10 unit points, reduced by
/// 4 per Grain card used with Pottery; secondary victims share 20 points, no
/// more than 8 each.
#[derive(Debug, Clone, Default)]
pub struct FamineState {
    pub phase: FaminePhase,
    pub primary_loss: i32,
    pub secondary_total: i32,
    pub max_per_secondary: i32,
    pub grain_reduction: i32,
    /// Grain cards placed face up for the reduction: only as many as the
    /// loss needs.
    pub grain_cards_used: usize,
    pub secondary_allocations: Vec<(Entity, i32)>,
}

#[derive(Debug, Clone, Default, PartialEq, Eq, Structural)]
pub enum FaminePhase {
    #[default]
    ComputeLosses,
    SelectSecondaryVictims,
    ApplyPrimaryLoss,
    ApplySecondaryLosses,
    Complete,
}

/// Grain cards used against a loss of `loss` points when `held` are held:
/// enough to cancel the loss, at most those held.
pub open spec fn grain_cards_needed(loss: nat, held: nat) -> nat {
    let needed = if loss % 4 == 0 { loss / 4 } else { loss / 4 + 1 };
    if needed <= held { needed } else { held }
}

/// Sum of the points of a list of allocations.
pub open spec fn allocated_points(s: Seq<(Entity, i32)>) -> int
    decreases s.len(),
{
    if s.len() == 0 {
        0
    } else {
        allocated_points(s.drop_last()) + s.last().1 as int
    }
}

/// Every running total of the allocations, taken in order, fits in an `i32`.
pub open spec fn prefix_sums_fit(s: Seq<(Entity, i32)>) -> bool {
    forall|k: int|
        0 <= k <= s.len() ==> i32::MIN <= #[trigger] allocated_points(s.take(k)) <= i32::MAX
}

impl FamineState {
    pub fn new() -> (s: Self)
        ensures
            s.phase == FaminePhase::ComputeLosses,
            s.primary_loss == 10,
            s.secondary_total == 20,
            s.max_per_secondary == 8,
            s.grain_reduction == 0,
            s.grain_cards_used == 0,
            s.secondary_allocations@.len() == 0,
    {
        FamineState {
            phase: FaminePhase::ComputeLosses,
            primary_loss: 10,
            secondary_total: 20,
            max_per_secondary: 8,
            grain_reduction: 0,
            grain_cards_used: 0,
            secondary_allocations: Vec::new(),
        }
    }

    /// Pottery with Grain (rule 30.312): each Grain card used cancels four
    /// points of the primary loss; only as many as needed are used.
    pub fn with_grain_reduction(self, grain_count: usize, has_pottery: bool) -> (s: Self)
        requires
            has_pottery && grain_count > 0 ==> 4 * grain_cards_needed(
                if self.primary_loss < 0 { 0nat } else { self.primary_loss as nat },
                grain_count as nat,
            ) <= i32::MAX,
        ensures
            ({
                let loss: nat = if self.primary_loss < 0 { 0 } else { self.primary_loss as nat };
                let used = grain_cards_needed(loss, grain_count as nat);
                if has_pottery && grain_count > 0 {
                    s == (FamineState {
                        grain_cards_used: used as usize,
                        grain_reduction: (4 * used) as i32,
                        primary_loss: if self.primary_loss - 4 * used < 0 {
                            0
                        } else {
                            (self.primary_loss - 4 * used) as i32
                        },
                        ..self
                    })
                } else {
                    s == self
                }
            }),
    {
        let mut s = self;
        if has_pottery && grain_count > 0 {
            let loss: usize = if s.primary_loss < 0 { 0 } else { s.primary_loss as usize };
            let needed: usize = if loss % 4 == 0 { loss / 4 } else { loss / 4 + 1 };
            let used: usize = if needed <= grain_count { needed } else { grain_count };
            s.grain_cards_used = used;
            let reduction: i32 = (used * 4) as i32;
            s.grain_reduction = reduction;
            let left: i32 = s.primary_loss - reduction;
            s.primary_loss = if left < 0 { 0 } else { left };
        }
        s
    }

    /// Records that `victim` loses `points`, capped at the per-victim maximum.
    pub fn add_secondary_allocation(&mut self, victim: Entity, points: i32)
        ensures
            *final(self) == (FamineState {
                secondary_allocations: final(self).secondary_allocations,
                ..*old(self)
            }),
            final(self).secondary_allocations@ == old(self).secondary_allocations@.push(
                (victim, if points <= old(self).max_per_secondary {
                    points
                } else {
                    old(self).max_per_secondary
                }),
            ),
    {
        let clamped = if points <= self.max_per_secondary { points } else { self.max_per_secondary };
        self.secondary_allocations.push((victim, clamped));
    }

    /// Points of the secondary total not yet allocated.
    pub fn remaining_secondary_points(&self) -> (r: i32)
        requires
            prefix_sums_fit(self.secondary_allocations@),
            i32::MIN <= self.secondary_total - allocated_points(self.secondary_allocations@)
                <= i32::MAX,
        ensures
            r == self.secondary_total - allocated_points(self.secondary_allocations@),
    {
        let mut allocated: i32 = 0;
        let mut i: usize = 0;
        while i < self.secondary_allocations.len()
            invariant
                i <= self.secondary_allocations@.len(),
                prefix_sums_fit(self.secondary_allocations@),
                allocated == allocated_points(self.secondary_allocations@.take(i as int)),
            decreases self.secondary_allocations@.len() - i,
        {
            let ghost s = self.secondary_allocations@;
            assert(s.take(i + 1).drop_last() =~= s.take(i as int));
            assert(i32::MIN <= allocated_points(s.take(i + 1)) <= i32::MAX);
            allocated = allocated + self.secondary_allocations[i].1;
            i += 1;
        }
        assert(self.secondary_allocations@.take(i as int) =~= self.secondary_allocations@);
        self.secondary_total - allocated
    }
}

/// Law: the Pottery reduction never makes the primary loss negative, uses
/// no more Grain than held, and never more than the loss needs.
pub proof fn lemma_grain_reduction_bounds(loss: nat, held: nat)
    ensures
        grain_cards_needed(loss, held) <= held,
        4 * grain_cards_needed(loss, held) < loss + 4,
{
}

/// Divides the Famine secondary loss (rule 30.311); see
/// [`secondary_loss::secondary_allocation`].
pub fn allocate_secondary_loss(
    secondary_players: &[(Entity, usize)],
    total: usize,
    primary_choice: Option<&[(Entity, usize)]>,
) -> (res: Vec<(Entity, usize)>)
    ensures
        res@ == secondary_loss::secondary_allocation(
            secondary_players@,
            total as nat,
            match primary_choice {
                Some(c) => Some(c@),
                None => None,
            },
        ),
{
    secondary_loss::allocate(secondary_players, total, primary_choice)
}

} // verus!
