//! Epidemic, turn by turn (rules 30.61-30.615): the primary victim's loss,
//! then twenty-five points shared by the players with units in the
//! victim's areas.
use vstd::prelude::*;
use crate::calamities::epidemic::{
    allocate_removal_leaving_one_per_area, allocate_secondary_loss, removal_leaving_one, EpidemicPhase, EpidemicState,
};
use crate::calamities::secondary_loss::{secondary_allocation, sum_points};
use crate::entity::Entity;
use crate::assoc::sum_values;
use crate::resolution::cities::{first_cities, first_n};
use crate::resolution::famine::as_signed;
use crate::resolution::unit_loss::{
    all_but_one, counts_of, find_units, loss_step, next_loss_step, pair_rows, paired, row_counts, rows_leaving_one,
    rows_total, units_of, LossStep, PlayerUnits,
};
use crate::selection::unit_loss::{losses_of, selected_of, UnitLossSelectionState};
use crate::resolution::losses::{epidemic_cities_taken, epidemic_points_left, spend_epidemic_budget_on_cities};
use crate::resolution::secondary::{
    areas_of, choice_step, epidemic_secondaries, epidemic_secondary_victims, needs_choice, next_choice_step, row_areas,
    ChoiceStep,
};
use crate::selection::budget::{fresh_rows, row_results};
use crate::selection::epidemic::EpidemicSelectionState;

verus! {

/// What one turn of an Epidemic does to the board.
#[derive(Debug, Clone)]
pub enum EpidemicAction {
    /// Nothing on the board changes.
    Nothing,
    /// These cities of `player` are eliminated, four points each (rule 30.612).
    DestroyCities { player: Entity, cities: Vec<Entity> },
    /// The primary victim's tokens lost in each area, and cities given up.
    PrimaryLoss { tokens: Vec<(Entity, usize)>, cities: Vec<Entity> },
    /// The human `player` is asked to choose, and is waited for.
    AwaitChoice { player: Entity },
    /// The secondary loss has been divided among the victims.
    SecondaryDivided,
    /// A secondary victim's tokens lost in each area, and cities given up.
    SecondaryLoss { player: Entity, tokens: Vec<(Entity, usize)>, cities: Vec<Entity> },
    /// A secondary victim owing nothing, or unknown, is passed over.
    SecondarySkipped,
    /// The Epidemic is over.
    Finish,
}

impl EpidemicAction {
    /// Whether the work on the secondary victims can go on in the same turn.
    pub fn continues(&self) -> (b: bool)
        ensures
            b == (self is SecondaryDivided || self is SecondaryLoss || self is SecondarySkipped
                || self is DestroyCities),
    {
        match self {
            EpidemicAction::SecondaryDivided => true,
            EpidemicAction::SecondaryLoss { .. } => true,
            EpidemicAction::SecondarySkipped => true,
            EpidemicAction::DestroyCities { .. } => true,
            _ => false,
        }
    }
}

/// The tokens each area loses when `points` are taken without asking,
/// leaving one token in every area (rule 30.612).
pub open spec fn automatic_loss_leaving_one(rows: Seq<(Entity, usize)>, points: nat) -> Seq<(Entity, usize)> {
    paired(rows, removal_leaving_one(counts_of(rows), points))
}

proof fn lemma_removal_leaving_one_len(counts: Seq<usize>, points: nat)
    ensures
        removal_leaving_one(counts, points).len() == counts.len(),
{
    crate::calamities::epidemic::lemma_removal_leaving_one(counts, points);
}

impl EpidemicState {
    /// One turn of the Epidemic for `victim` (described by `victim_units`);
    /// `players` describes every player and `medicine_holders` lists those
    /// holding Medicine. `division` is the human primary victim's division
    /// of the secondary loss, `losses` a human's choice of which of their own
    /// units go (rules 29.62/29.63).
    #[verifier::rlimit(80)]
    pub fn advance(
        &mut self,
        victim: Entity,
        victim_units: &PlayerUnits,
        players: &Vec<PlayerUnits>,
        medicine_holders: &Vec<Entity>,
        division: &mut EpidemicSelectionState,
        losses: &mut UnitLossSelectionState,
    ) -> (a: EpidemicAction)
        requires
            sum_values(all_but_one(victim_units.areas@)) <= usize::MAX,
            forall|i: int| 0 <= i < players@.len() ==> sum_values(all_but_one((#[trigger] players@[i]).areas@)) <= usize::MAX,
        ensures
            final(self).primary_loss == old(self).primary_loss,
            final(self).secondary_loss == old(self).secondary_loss,
            final(self).immune_player == old(self).immune_player,
            // Rule 30.612: the victim's cities go first, four points each.
            old(self).phase == EpidemicPhase::ComputeEffects ==> {
                &&& final(self).phase == EpidemicPhase::ApplyPrimaryLoss
                &&& final(self).primary_tokens_remaining == epidemic_points_left(victim_units.cities@.len(), old(self).primary_loss as int)
                &&& *final(division) == *old(division)
                &&& *final(losses) == *old(losses)
                &&& a matches EpidemicAction::DestroyCities { player, cities }
                &&& player == victim
                &&& cities@ == first_n(victim_units.cities@, epidemic_cities_taken(victim_units.cities@.len(), old(self).primary_loss as int))
            },
            // The rest comes off tokens, one kept in each area, chosen by a human owner.
            old(self).phase == EpidemicPhase::ApplyPrimaryLoss ==> {
                let owed: nat = if old(self).primary_tokens_remaining < 0 { 0 } else { old(self).primary_tokens_remaining as nat };
                let offered = all_but_one(victim_units.areas@);
                &&& *final(division) == *old(division)
                &&& final(self).primary_tokens_remaining == old(self).primary_tokens_remaining
                &&& match loss_step(victim_units.is_human, sum_values(offered), owed, old(losses).acting_player,
                    victim_units.awaiting, victim) {
                    LossStep::Automatic => {
                        &&& final(self).phase == EpidemicPhase::ApplySecondaryLosses
                        &&& *final(losses) == *old(losses)
                        &&& a matches EpidemicAction::PrimaryLoss { tokens, cities }
                        &&& tokens@ == automatic_loss_leaving_one(victim_units.areas@, owed)
                        &&& cities@.len() == 0
                    },
                    LossStep::Prompt => {
                        &&& final(self).phase == EpidemicPhase::ApplyPrimaryLoss
                        &&& a == EpidemicAction::AwaitChoice { player: victim }
                        &&& final(losses).acting_player == Some(victim)
                        &&& final(losses).calamity_name@ == "Epidemic"@
                        &&& final(losses).total_budget == owed
                        &&& final(losses).areas@ == crate::selection::budget::fresh_rows(offered)
                        &&& final(losses).cities@.len() == 0
                    },
                    LossStep::Wait => a is Nothing && final(self).phase == old(self).phase && *final(losses) == *old(losses),
                    LossStep::UseChoice => {
                        &&& final(self).phase == EpidemicPhase::ApplySecondaryLosses
                        &&& final(losses).is_cleared()
                        &&& a matches EpidemicAction::PrimaryLoss { tokens, cities }
                        &&& tokens@ == losses_of(old(losses).areas@)
                        &&& cities@ == selected_of(old(losses).cities@)
                    },
                }
            },
            // Rule 30.611: the twenty-five points are divided once ...
            old(self).phase == EpidemicPhase::ApplySecondaryLosses && !old(self).secondary_divided ==> {
                let total: nat = if old(self).secondary_loss < 0 { 0 } else { old(self).secondary_loss as nat };
                let secondaries = epidemic_secondaries(players@, victim, old(self).immune_player,
                    areas_of(victim_units.areas@), medicine_holders@);
                &&& *final(losses) == *old(losses)
                &&& if secondaries.len() == 0 {
                    a is Nothing && final(self).phase == EpidemicPhase::Complete && *final(division) == *old(division)
                } else {
                    match choice_step(sum_points(secondaries) > total, victim_units.is_human, old(division).acting_player,
                        victim_units.awaiting, victim) {
                        ChoiceStep::Automatic => {
                            &&& final(self).phase == EpidemicPhase::ApplySecondaryLosses
                            &&& final(self).secondary_divided
                            &&& final(self).secondary_allocations@ == as_signed(secondary_allocation(secondaries, total, None))
                            &&& *final(division) == *old(division)
                            &&& a is SecondaryDivided
                        },
                        ChoiceStep::StartChoice => {
                            &&& final(self).phase == EpidemicPhase::ApplySecondaryLosses
                            &&& !final(self).secondary_divided
                            &&& a == EpidemicAction::AwaitChoice { player: victim }
                            &&& final(division).acting_player == Some(victim)
                            &&& final(division).total_budget == total
                            &&& final(division).victims@ == fresh_rows(secondaries)
                            &&& final(division).current_victim_index == 0
                        },
                        ChoiceStep::Wait => {
                            &&& final(self).phase == EpidemicPhase::ApplySecondaryLosses
                            &&& !final(self).secondary_divided
                            &&& a is Nothing
                            &&& *final(division) == *old(division)
                        },
                        ChoiceStep::UseChoice => {
                            &&& final(self).phase == EpidemicPhase::ApplySecondaryLosses
                            &&& final(self).secondary_divided
                            &&& final(self).secondary_allocations@ == as_signed(
                                secondary_allocation(secondaries, total, Some(row_results(old(division).victims@))),
                            )
                            &&& final(division).is_cleared()
                            &&& a is SecondaryDivided
                        },
                    }
                }
            },
            // ... then each victim in turn loses cities first, then tokens
            // (one kept per area), choosing their own units when human.
            old(self).phase == EpidemicPhase::ApplySecondaryLosses && old(self).secondary_divided ==> {
                let list = old(self).secondary_allocations@;
                &&& *final(division) == *old(division)
                &&& final(self).secondary_divided
                &&& if list.len() == 0 {
                    a is Nothing && final(self).phase == EpidemicPhase::Complete && *final(losses) == *old(losses)
                } else if list[0].1 <= 0 || units_of(players@, list[0].0) is None {
                    a is SecondarySkipped && final(self).phase == old(self).phase
                        && final(self).secondary_allocations@ == list.drop_first() && *final(losses) == *old(losses)
                } else {
                    let e = list[0].0;
                    let u = units_of(players@, e).unwrap();
                    let owed = list[0].1 as nat;
                    &&& final(self).phase == old(self).phase
                    &&& if !old(self).secondary_cities_spent@.contains(e) {
                        &&& *final(losses) == *old(losses)
                        &&& final(self).secondary_cities_spent@ == old(self).secondary_cities_spent@.push(e)
                        &&& final(self).secondary_allocations@ == list.update(0, (e, epidemic_points_left(u.cities@.len(), owed as int) as i32))
                        &&& a matches EpidemicAction::DestroyCities { player, cities }
                        &&& player == e
                        &&& cities@ == first_n(u.cities@, epidemic_cities_taken(u.cities@.len(), owed as int))
                    } else {
                        &&& final(self).secondary_cities_spent == old(self).secondary_cities_spent
                        &&& match loss_step(u.is_human, sum_values(all_but_one(u.areas@)), owed, old(losses).acting_player,
                            u.awaiting, e) {
                            LossStep::Automatic => {
                                &&& final(self).secondary_allocations@ == list.drop_first()
                                &&& *final(losses) == *old(losses)
                                &&& a matches EpidemicAction::SecondaryLoss { player, tokens, cities }
                                &&& player == e
                                &&& tokens@ == automatic_loss_leaving_one(u.areas@, owed)
                                &&& cities@.len() == 0
                            },
                            LossStep::Prompt => {
                                &&& final(self).secondary_allocations == old(self).secondary_allocations
                                &&& a == EpidemicAction::AwaitChoice { player: e }
                                &&& final(losses).acting_player == Some(e)
                                &&& final(losses).calamity_name@ == "Epidemic"@
                                &&& final(losses).total_budget == owed
                                &&& final(losses).areas@ == crate::selection::budget::fresh_rows(all_but_one(u.areas@))
                                &&& final(losses).cities@.len() == 0
                            },
                            LossStep::Wait => a is Nothing && final(self).secondary_allocations == old(self).secondary_allocations
                                && *final(losses) == *old(losses),
                            LossStep::UseChoice => {
                                &&& final(self).secondary_allocations@ == list.drop_first()
                                &&& final(losses).is_cleared()
                                &&& a matches EpidemicAction::SecondaryLoss { player, tokens, cities }
                                &&& player == e
                                &&& tokens@ == losses_of(old(losses).areas@)
                                &&& cities@ == selected_of(old(losses).cities@)
                            },
                        }
                    }
                }
            },
            old(self).phase == EpidemicPhase::Complete ==> a is Finish && *final(self) == *old(self)
                && *final(division) == *old(division) && *final(losses) == *old(losses),
    {
        match self.phase {
            EpidemicPhase::ComputeEffects => {
                let (n, left) = spend_epidemic_budget_on_cities(victim_units.cities.len(), self.primary_loss);
                self.primary_tokens_remaining = left;
                self.phase = EpidemicPhase::ApplyPrimaryLoss;
                EpidemicAction::DestroyCities { player: victim, cities: first_cities(&victim_units.cities, n) }
            },
            EpidemicPhase::ApplyPrimaryLoss => {
                let owed: usize = if self.primary_tokens_remaining < 0 { 0 } else { self.primary_tokens_remaining as usize };
                let offered = rows_leaving_one(&victim_units.areas);
                let available: usize = match rows_total(&offered) {
                    Some(n) => n,
                    None => 0,
                };
                match next_loss_step(victim_units.is_human, available, owed, losses.acting_player, victim_units.awaiting, victim) {
                    LossStep::Automatic => {
                        let removal = allocate_removal_leaving_one_per_area(row_counts(&victim_units.areas).as_slice(), owed);
                        proof {
                            lemma_removal_leaving_one_len(counts_of(victim_units.areas@), owed as nat);
                        }
                        let tokens = pair_rows(&victim_units.areas, &removal);
                        self.phase = EpidemicPhase::ApplySecondaryLosses;
                        EpidemicAction::PrimaryLoss { tokens, cities: Vec::new() }
                    },
                    LossStep::Prompt => {
                        losses.populate(victim, "Epidemic", offered, Vec::new(), owed);
                        EpidemicAction::AwaitChoice { player: victim }
                    },
                    LossStep::Wait => EpidemicAction::Nothing,
                    LossStep::UseChoice => {
                        let (tokens, cities) = losses.take_allocation();
                        self.phase = EpidemicPhase::ApplySecondaryLosses;
                        EpidemicAction::PrimaryLoss { tokens, cities }
                    },
                }
            },
            EpidemicPhase::ApplySecondaryLosses => {
                if !self.secondary_divided {
                    let primary_areas = row_areas(&victim_units.areas);
                    let secondaries = epidemic_secondary_victims(players, victim, self.immune_player, &primary_areas, medicine_holders);
                    if secondaries.len() == 0 {
                        self.phase = EpidemicPhase::Complete;
                        return EpidemicAction::Nothing;
                    }
                    let total: usize = if self.secondary_loss < 0 { 0 } else { self.secondary_loss as usize };
                    proof {
                        lemma_epidemic_secondaries_capped(players@, victim, self.immune_player, primary_areas@, medicine_holders@);
                    }
                    let needs = needs_choice(&secondaries, total);
                    return match next_choice_step(needs, victim_units.is_human, division.acting_player, victim_units.awaiting, victim) {
                        ChoiceStep::Automatic => {
                            let allocation = allocate_secondary_loss(secondaries.as_slice(), total, None);
                            proof {
                                crate::calamities::secondary_loss::lemma_secondary_allocation_bounds(secondaries@, total as nat, None);
                            }
                            self.secondary_allocations = signed_allocations(&allocation);
                            self.secondary_divided = true;
                            EpidemicAction::SecondaryDivided
                        },
                        ChoiceStep::StartChoice => {
                            division.populate(victim, secondaries, total);
                            EpidemicAction::AwaitChoice { player: victim }
                        },
                        ChoiceStep::Wait => EpidemicAction::Nothing,
                        ChoiceStep::UseChoice => {
                            let choice = division.take_result();
                            let allocation = allocate_secondary_loss(secondaries.as_slice(), total, Some(choice.as_slice()));
                            proof {
                                crate::calamities::secondary_loss::lemma_secondary_allocation_bounds(secondaries@, total as nat, Some(choice@));
                            }
                            self.secondary_allocations = signed_allocations(&allocation);
                            self.secondary_divided = true;
                            EpidemicAction::SecondaryDivided
                        },
                    };
                }
                if self.secondary_allocations.len() == 0 {
                    self.phase = EpidemicPhase::Complete;
                    return EpidemicAction::Nothing;
                }
                let (e, owed_signed) = self.secondary_allocations[0];
                if owed_signed <= 0 {
                    self.secondary_allocations.remove(0);
                    return EpidemicAction::SecondarySkipped;
                }
                let idx = match find_units(players, e) {
                    None => {
                        self.secondary_allocations.remove(0);
                        return EpidemicAction::SecondarySkipped;
                    },
                    Some(i) => i,
                };
                let u = &players[idx];
                if !crate::util::contains_entity(&self.secondary_cities_spent, e) {
                    let (n, left) = spend_epidemic_budget_on_cities(u.cities.len(), owed_signed);
                    self.secondary_cities_spent.push(e);
                    self.secondary_allocations.set(0, (e, left));
                    return EpidemicAction::DestroyCities { player: e, cities: first_cities(&u.cities, n) };
                }
                let owed: usize = owed_signed as usize;
                let offered = rows_leaving_one(&u.areas);
                assert(sum_values(all_but_one(players@[idx as int].areas@)) <= usize::MAX);
                let available: usize = match rows_total(&offered) {
                    Some(n) => n,
                    None => 0,
                };
                match next_loss_step(u.is_human, available, owed, losses.acting_player, u.awaiting, e) {
                    LossStep::Automatic => {
                        let removal = allocate_removal_leaving_one_per_area(row_counts(&u.areas).as_slice(), owed);
                        proof {
                            lemma_removal_leaving_one_len(counts_of(u.areas@), owed as nat);
                        }
                        let tokens = pair_rows(&u.areas, &removal);
                        self.secondary_allocations.remove(0);
                        EpidemicAction::SecondaryLoss { player: e, tokens, cities: Vec::new() }
                    },
                    LossStep::Prompt => {
                        losses.populate(e, "Epidemic", offered, Vec::new(), owed);
                        EpidemicAction::AwaitChoice { player: e }
                    },
                    LossStep::Wait => EpidemicAction::Nothing,
                    LossStep::UseChoice => {
                        let (tokens, cities) = losses.take_allocation();
                        self.secondary_allocations.remove(0);
                        EpidemicAction::SecondaryLoss { player: e, tokens, cities }
                    },
                }
            },
            EpidemicPhase::Complete => EpidemicAction::Finish,
        }
    }
}

proof fn lemma_epidemic_secondaries_capped(
    players: Seq<PlayerUnits>,
    victim: Entity,
    immune: Option<Entity>,
    primary: Seq<Entity>,
    medicine: Seq<Entity>,
)
    ensures
        forall|i: int|
            0 <= i < epidemic_secondaries(players, victim, immune, primary, medicine).len()
                ==> (#[trigger] epidemic_secondaries(players, victim, immune, primary, medicine)[i]).1 <= 10,
    decreases players.len(),
{
    if players.len() > 0 {
        let d = players.drop_last();
        lemma_epidemic_secondaries_capped(d, victim, immune, primary, medicine);
        let r = epidemic_secondaries(players, victim, immune, primary, medicine);
        let rest = epidemic_secondaries(d, victim, immune, primary, medicine);
        assert forall|i: int| 0 <= i < r.len() implies (#[trigger] r[i]).1 <= 10 by {
            if i < rest.len() {
                assert(r[i] == rest[i]);
            }
        }
    }
}

/// The allocation with its points as signed counts, every one being small.
fn signed_allocations(s: &Vec<(Entity, usize)>) -> (r: Vec<(Entity, i32)>)
    requires
        forall|i: int| 0 <= i < s@.len() ==> (#[trigger] s@[i]).1 <= i32::MAX,
    ensures
        r@ == as_signed(s@),
{
    let mut r: Vec<(Entity, i32)> = Vec::new();
    let mut i: usize = 0;
    while i < s.len()
        invariant
            i <= s@.len(),
            forall|j: int| 0 <= j < s@.len() ==> (#[trigger] s@[j]).1 <= i32::MAX,
            r@ == as_signed(s@.take(i as int)),
        decreases s@.len() - i,
    {
        r.push((s[i].0, s[i].1 as i32));
        i += 1;
        assert(as_signed(s@.take(i as int)) =~= as_signed(s@.take(i - 1)).push((s@[i - 1].0, s@[i - 1].1 as i32)));
    }
    assert(s@.take(i as int) =~= s@);
    r
}

} // verus!
