//! Famine, turn by turn (rule 30.31): the primary loss, then twenty points
//! shared by the players with units in the victim's areas, at most eight
//! each.
use vstd::prelude::*;
use crate::calamities::famine::{allocate_secondary_loss, FaminePhase, FamineState};
use crate::calamities::secondary_loss::{lemma_secondary_allocation_bounds, secondary_allocation, sum_points};
use crate::entity::Entity;
use crate::assoc::sum_values;
use crate::resolution::losses::{remove_unit_points, removal_in_order};
use crate::resolution::unit_loss::{
    automatic_loss, copy_rows, find_units, loss_step, next_loss_step, pair_rows, row_counts, rows_total, units_of, LossStep,
    PlayerUnits,
};
use crate::selection::unit_loss::{losses_of, selected_of, UnitLossSelectionState};
use crate::resolution::secondary::{
    choice_step, famine_secondaries, famine_secondary_victims, needs_choice, next_choice_step, row_areas, totals_fit,
    areas_of, ChoiceStep,
};
use crate::selection::budget::{fresh_rows, row_results};
use crate::selection::famine::FamineSelectionState;

verus! {

/// What one turn of a Famine does to the board.
#[derive(Debug, Clone)]
pub enum FamineAction {
    /// Nothing on the board changes.
    Nothing,
    /// The primary victim's tokens lost in each area, the cities they gave
    /// up, and the Grain cards to lock until next turn (rule 30.312), if any.
    PrimaryLoss { tokens: Vec<(Entity, usize)>, cities: Vec<Entity>, lock_grain: Option<usize> },
    /// The human `player` is asked to choose, and is waited for.
    AwaitChoice { player: Entity },
    /// A secondary victim's tokens lost in each area and the cities they gave up.
    SecondaryLoss { player: Entity, tokens: Vec<(Entity, usize)>, cities: Vec<Entity> },
    /// A secondary victim owing nothing, or unknown, is passed over.
    SecondarySkipped,
    /// The Famine is over.
    Finish,
}

impl FamineAction {
    /// Whether the next victim on the work list can be settled in the same turn.
    pub fn continues(&self) -> (b: bool)
        ensures
            b == (self is SecondaryLoss || self is SecondarySkipped),
    {
        match self {
            FamineAction::SecondaryLoss { .. } => true,
            FamineAction::SecondarySkipped => true,
            _ => false,
        }
    }
}

/// The allocation with its points as signed counts.
pub open spec fn as_signed(s: Seq<(Entity, usize)>) -> Seq<(Entity, i32)> {
    s.map_values(|p: (Entity, usize)| (p.0, p.1 as i32))
}

proof fn lemma_famine_secondaries_capped(
    players: Seq<PlayerUnits>,
    victim: Entity,
    primary: Seq<Entity>,
    cap: nat,
)
    ensures
        forall|i: int|
            0 <= i < famine_secondaries(players, victim, primary, cap).len() ==> (#[trigger] famine_secondaries(
                players,
                victim,
                primary,
                cap,
            )[i]).1 <= cap,
    decreases players.len(),
{
    if players.len() > 0 {
        let d = players.drop_last();
        lemma_famine_secondaries_capped(d, victim, primary, cap);
        let r = famine_secondaries(players, victim, primary, cap);
        let rest = famine_secondaries(d, victim, primary, cap);
        assert forall|i: int| 0 <= i < r.len() implies (#[trigger] r[i]).1 <= cap by {
            if i < rest.len() {
                assert(r[i] == rest[i]);
            }
        }
    }
}

/// A copy of the allocations.
fn copy_allocations(s: &Vec<(Entity, i32)>) -> (r: Vec<(Entity, i32)>)
    ensures
        r@ == s@,
{
    let mut r: Vec<(Entity, i32)> = Vec::new();
    let mut i: usize = 0;
    while i < s.len()
        invariant
            i <= s@.len(),
            r@ == s@.take(i as int),
        decreases s@.len() - i,
    {
        r.push(s[i]);
        i += 1;
        assert(r@ =~= s@.take(i as int));
    }
    assert(s@.take(i as int) =~= s@);
    r
}

/// The allocation as signed counts, when every count fits.
fn to_signed(s: &Vec<(Entity, usize)>) -> (r: Vec<(Entity, i32)>)
    requires
        forall|i: int| 0 <= i < s@.len() ==> (#[trigger] s@[i]).1 <= i32::MAX,
    ensures
        r@ == as_signed(s@),
{
    let mut r: Vec<(Entity, i32)> = Vec::new();
    let mut i: usize = 0;
    while i < s.len()
        invariant
            i <= s@.len(),
            forall|j: int| 0 <= j < s@.len() ==> (#[trigger] s@[j]).1 <= i32::MAX,
            r@ == as_signed(s@.take(i as int)),
        decreases s@.len() - i,
    {
        r.push((s[i].0, s[i].1 as i32));
        i += 1;
        assert(as_signed(s@.take(i as int)) =~= as_signed(s@.take(i - 1)).push((s@[i - 1].0, s@[i - 1].1 as i32)));
    }
    assert(s@.take(i as int) =~= s@);
    r
}

impl FamineState {
    /// One turn of the Famine for `victim` (described by `victim_units`);
    /// `players` describes every player. `division` is the human primary
    /// victim's division of the secondary loss, `losses` a human's choice of
    /// which of their own units go (rules 29.62/29.63).
    #[verifier::rlimit(60)]
    pub fn advance(
        &mut self,
        victim: Entity,
        victim_units: &PlayerUnits,
        players: &Vec<PlayerUnits>,
        division: &mut FamineSelectionState,
        losses: &mut UnitLossSelectionState,
    ) -> (a: FamineAction)
        requires
            old(self).max_per_secondary >= 0 ==> old(self).max_per_secondary <= i32::MAX,
            totals_fit(players@),
            sum_values(victim_units.areas@) <= usize::MAX,
        ensures
            final(self).primary_loss == old(self).primary_loss,
            final(self).secondary_total == old(self).secondary_total,
            final(self).max_per_secondary == old(self).max_per_secondary,
            final(self).grain_cards_used == old(self).grain_cards_used,
            final(self).grain_reduction == old(self).grain_reduction,
            // Rules 29.62/29.63: the primary victim's loss, chosen by a human owner.
            old(self).phase == FaminePhase::ComputeLosses ==> {
                let owed: nat = if old(self).primary_loss < 0 { 0 } else { old(self).primary_loss as nat };
                let lock = if old(self).grain_cards_used > 0 { Some(old(self).grain_cards_used) } else { None };
                &&& final(self).secondary_allocations == old(self).secondary_allocations
                &&& *final(division) == *old(division)
                &&& match loss_step(victim_units.is_human, sum_values(victim_units.areas@), owed,
                    old(losses).acting_player, victim_units.awaiting, victim) {
                    LossStep::Automatic => {
                        &&& final(self).phase == FaminePhase::SelectSecondaryVictims
                        &&& *final(losses) == *old(losses)
                        &&& a matches FamineAction::PrimaryLoss { tokens, cities, lock_grain }
                        &&& tokens@ == automatic_loss(victim_units.areas@, owed)
                        &&& cities@.len() == 0
                        &&& lock_grain == lock
                    },
                    LossStep::Prompt => {
                        &&& final(self).phase == FaminePhase::ComputeLosses
                        &&& a == FamineAction::AwaitChoice { player: victim }
                        &&& final(losses).acting_player == Some(victim)
                        &&& final(losses).calamity_name@ == "Famine"@
                        &&& final(losses).total_budget == owed
                        &&& final(losses).areas@ == crate::selection::budget::fresh_rows(victim_units.areas@)
                        &&& final(losses).cities@.len() == 0
                    },
                    LossStep::Wait => a is Nothing && final(self).phase == old(self).phase && *final(losses) == *old(losses),
                    LossStep::UseChoice => {
                        &&& final(self).phase == FaminePhase::SelectSecondaryVictims
                        &&& final(losses).is_cleared()
                        &&& a matches FamineAction::PrimaryLoss { tokens, cities, lock_grain }
                        &&& tokens@ == losses_of(old(losses).areas@)
                        &&& cities@ == selected_of(old(losses).cities@)
                        &&& lock_grain == lock
                    },
                }
            },
            // Rule 30.311: the division of the twenty points.
            old(self).phase == FaminePhase::SelectSecondaryVictims ==> {
                let cap: nat = if old(self).max_per_secondary < 0 { 0 } else { old(self).max_per_secondary as nat };
                let total: nat = if old(self).secondary_total < 0 { 0 } else { old(self).secondary_total as nat };
                let secondaries = famine_secondaries(players@, victim, areas_of(victim_units.areas@), cap);
                &&& *final(losses) == *old(losses)
                &&& if secondaries.len() == 0 {
                    &&& final(self).phase == FaminePhase::ApplySecondaryLosses
                    &&& final(self).secondary_allocations@.len() == 0
                    &&& a is Nothing
                    &&& *final(division) == *old(division)
                } else {
                    match choice_step(sum_points(secondaries) > total, victim_units.is_human, old(division).acting_player,
                        victim_units.awaiting, victim) {
                        ChoiceStep::Automatic => {
                            &&& final(self).phase == FaminePhase::ApplySecondaryLosses
                            &&& final(self).secondary_allocations@ == as_signed(secondary_allocation(secondaries, total, None))
                            &&& a is Nothing
                            &&& *final(division) == *old(division)
                        },
                        ChoiceStep::StartChoice => {
                            &&& final(self).phase == FaminePhase::SelectSecondaryVictims
                            &&& final(self).secondary_allocations == old(self).secondary_allocations
                            &&& a == FamineAction::AwaitChoice { player: victim }
                            &&& final(division).acting_player == Some(victim)
                            &&& final(division).total_budget == total
                            &&& final(division).victims@ == fresh_rows(secondaries)
                            &&& final(division).current_victim_index == 0
                        },
                        ChoiceStep::Wait => {
                            &&& final(self).phase == FaminePhase::SelectSecondaryVictims
                            &&& final(self).secondary_allocations == old(self).secondary_allocations
                            &&& a is Nothing
                            &&& *final(division) == *old(division)
                        },
                        ChoiceStep::UseChoice => {
                            &&& final(self).phase == FaminePhase::ApplySecondaryLosses
                            &&& final(self).secondary_allocations@ == as_signed(
                                secondary_allocation(secondaries, total, Some(row_results(old(division).victims@))),
                            )
                            &&& a is Nothing
                            &&& final(division).is_cleared()
                        },
                    }
                }
            },
            // Rule 30.311: each secondary victim chooses their own units; settled
            // victims leave the work list, so none is charged twice.
            old(self).phase == FaminePhase::ApplySecondaryLosses ==> {
                let list = old(self).secondary_allocations@;
                &&& *final(division) == *old(division)
                &&& if list.len() == 0 {
                    a is Nothing && final(self).phase == FaminePhase::Complete && final(self).secondary_allocations@.len() == 0
                        && *final(losses) == *old(losses)
                } else if list[0].1 <= 0 || units_of(players@, list[0].0) is None {
                    a is SecondarySkipped && final(self).phase == old(self).phase && final(self).secondary_allocations@ == list.drop_first()
                        && *final(losses) == *old(losses)
                } else {
                    let e = list[0].0;
                    let u = units_of(players@, e).unwrap();
                    let owed = list[0].1 as nat;
                    &&& final(self).phase == old(self).phase
                    &&& match loss_step(u.is_human, sum_values(u.areas@), owed, old(losses).acting_player, u.awaiting, e) {
                        LossStep::Automatic => {
                            &&& final(self).secondary_allocations@ == list.drop_first()
                            &&& *final(losses) == *old(losses)
                            &&& a matches FamineAction::SecondaryLoss { player, tokens, cities }
                            &&& player == e
                            &&& tokens@ == automatic_loss(u.areas@, owed)
                            &&& cities@.len() == 0
                        },
                        LossStep::Prompt => {
                            &&& final(self).secondary_allocations == old(self).secondary_allocations
                            &&& a == FamineAction::AwaitChoice { player: e }
                            &&& final(losses).acting_player == Some(e)
                            &&& final(losses).calamity_name@ == "Famine"@
                            &&& final(losses).total_budget == owed
                            &&& final(losses).areas@ == crate::selection::budget::fresh_rows(u.areas@)
                            &&& final(losses).cities@.len() == 0
                        },
                        LossStep::Wait => a is Nothing && final(self).secondary_allocations == old(self).secondary_allocations
                            && *final(losses) == *old(losses),
                        LossStep::UseChoice => {
                            &&& final(self).secondary_allocations@ == list.drop_first()
                            &&& final(losses).is_cleared()
                            &&& a matches FamineAction::SecondaryLoss { player, tokens, cities }
                            &&& player == e
                            &&& tokens@ == losses_of(old(losses).areas@)
                            &&& cities@ == selected_of(old(losses).cities@)
                        },
                    }
                }
            },
            old(self).phase == FaminePhase::ApplyPrimaryLoss ==> a is Nothing && *final(self) == *old(self)
                && *final(division) == *old(division) && *final(losses) == *old(losses),
            old(self).phase == FaminePhase::Complete ==> a is Finish && *final(self) == *old(self)
                && *final(division) == *old(division) && *final(losses) == *old(losses),
    {
        match self.phase {
            FaminePhase::ComputeLosses => {
                let owed: usize = if self.primary_loss < 0 { 0 } else { self.primary_loss as usize };
                let available: usize = match rows_total(&victim_units.areas) {
                    Some(n) => n,
                    None => 0,
                };
                let lock_grain = if self.grain_cards_used > 0 { Some(self.grain_cards_used) } else { None };
                match next_loss_step(victim_units.is_human, available, owed, losses.acting_player, victim_units.awaiting, victim) {
                    LossStep::Automatic => {
                        let removal = remove_unit_points(&row_counts(&victim_units.areas), self.primary_loss);
                        proof {
                            crate::resolution::losses::lemma_removal_in_order(
                                crate::resolution::unit_loss::counts_of(victim_units.areas@), owed as nat);
                        }
                        let tokens = pair_rows(&victim_units.areas, &removal);
                        self.phase = FaminePhase::SelectSecondaryVictims;
                        FamineAction::PrimaryLoss { tokens, cities: Vec::new(), lock_grain }
                    },
                    LossStep::Prompt => {
                        losses.populate(victim, "Famine", copy_rows(&victim_units.areas), Vec::new(), owed);
                        FamineAction::AwaitChoice { player: victim }
                    },
                    LossStep::Wait => FamineAction::Nothing,
                    LossStep::UseChoice => {
                        let (tokens, cities) = losses.take_allocation();
                        self.phase = FaminePhase::SelectSecondaryVictims;
                        FamineAction::PrimaryLoss { tokens, cities, lock_grain }
                    },
                }
            },
            FaminePhase::SelectSecondaryVictims => {
                let primary_areas = row_areas(&victim_units.areas);
                let secondaries = famine_secondary_victims(players, victim, &primary_areas, self.max_per_secondary);
                let ghost cap: nat = if self.max_per_secondary < 0 { 0 } else { self.max_per_secondary as nat };
                if secondaries.len() == 0 {
                    self.secondary_allocations = Vec::new();
                    self.phase = FaminePhase::ApplySecondaryLosses;
                    return FamineAction::Nothing;
                }
                let total: usize = if self.secondary_total < 0 { 0 } else { self.secondary_total as usize };
                proof {
                    lemma_famine_secondaries_capped(players@, victim, primary_areas@, cap);
                }
                let needs = needs_choice(&secondaries, total);
                match next_choice_step(needs, victim_units.is_human, division.acting_player, victim_units.awaiting, victim) {
                    ChoiceStep::Automatic => {
                        let allocation = allocate_secondary_loss(secondaries.as_slice(), total, None);
                        proof {
                            lemma_secondary_allocation_bounds(secondaries@, total as nat, None);
                        }
                        self.secondary_allocations = to_signed(&allocation);
                        self.phase = FaminePhase::ApplySecondaryLosses;
                        FamineAction::Nothing
                    },
                    ChoiceStep::StartChoice => {
                        division.populate(victim, secondaries, total);
                        FamineAction::AwaitChoice { player: victim }
                    },
                    ChoiceStep::Wait => FamineAction::Nothing,
                    ChoiceStep::UseChoice => {
                        let choice = division.take_result();
                        let allocation = allocate_secondary_loss(secondaries.as_slice(), total, Some(choice.as_slice()));
                        proof {
                            lemma_secondary_allocation_bounds(secondaries@, total as nat, Some(choice@));
                        }
                        self.secondary_allocations = to_signed(&allocation);
                        self.phase = FaminePhase::ApplySecondaryLosses;
                        FamineAction::Nothing
                    },
                }
            },
            FaminePhase::ApplySecondaryLosses => {
                if self.secondary_allocations.len() == 0 {
                    self.phase = FaminePhase::Complete;
                    return FamineAction::Nothing;
                }
                let (e, owed_signed) = self.secondary_allocations[0];
                if owed_signed <= 0 {
                    self.secondary_allocations.remove(0);
                    return FamineAction::SecondarySkipped;
                }
                let idx = match find_units(players, e) {
                    None => {
                        self.secondary_allocations.remove(0);
                        return FamineAction::SecondarySkipped;
                    },
                    Some(i) => i,
                };
                let u = &players[idx];
                let owed: usize = owed_signed as usize;
                assert(sum_values(players@[idx as int].areas@) <= usize::MAX);
                let available: usize = match rows_total(&u.areas) {
                    Some(n) => n,
                    None => 0,
                };
                match next_loss_step(u.is_human, available, owed, losses.acting_player, u.awaiting, e) {
                    LossStep::Automatic => {
                        let removal = remove_unit_points(&row_counts(&u.areas), owed_signed);
                        proof {
                            crate::resolution::losses::lemma_removal_in_order(
                                crate::resolution::unit_loss::counts_of(u.areas@), owed as nat);
                        }
                        let tokens = pair_rows(&u.areas, &removal);
                        self.secondary_allocations.remove(0);
                        FamineAction::SecondaryLoss { player: e, tokens, cities: Vec::new() }
                    },
                    LossStep::Prompt => {
                        losses.populate(e, "Famine", copy_rows(&u.areas), Vec::new(), owed);
                        FamineAction::AwaitChoice { player: e }
                    },
                    LossStep::Wait => FamineAction::Nothing,
                    LossStep::UseChoice => {
                        let (tokens, cities) = losses.take_allocation();
                        self.secondary_allocations.remove(0);
                        FamineAction::SecondaryLoss { player: e, tokens, cities }
                    },
                }
            },
            FaminePhase::ApplyPrimaryLoss => FamineAction::Nothing,
            FaminePhase::Complete => FamineAction::Finish,
        }
    }
}

} // verus!
