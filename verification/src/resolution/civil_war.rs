//! Civil War, turn by turn (rules 30.41-30.415): the beneficiary, the two
//! picks that make up the first faction, the victim's choice of faction,
//! and the transfer of the other one.
use vstd::prelude::*;
use crate::calamities::civil_war::{
    cities_removed, owed_after_cities, owed_after_tokens, tokens_removed, CivilWarPhase, CivilWarState, FactionChoice,
};
use crate::entity::Entity;
use crate::resolution::cities::{first_cities, first_n};
use crate::selection::civil_war::{CivilWarSelectionState, CivilWarUiRole};
use crate::util::{concat_entities, contains_entity, copy_entities, entities_without, without};

verus! {

/// Rule 30.411: the beneficiary is `stocks[i]`: another player than the
/// victim with the most tokens in stock, the last listed among equals.
pub open spec fn is_beneficiary(stocks: Seq<(Entity, usize)>, victim: Entity, i: int) -> bool {
    &&& 0 <= i < stocks.len()
    &&& stocks[i].0 != victim
    &&& forall|j: int| 0 <= j < stocks.len() && (#[trigger] stocks[j]).0 != victim ==> stocks[j].1 <= stocks[i].1
    &&& forall|j: int| i < j < stocks.len() && (#[trigger] stocks[j]).0 != victim ==> stocks[j].1 < stocks[i].1
}

/// The beneficiary, given every player's tokens in stock.
pub fn choose_beneficiary(stocks: &Vec<(Entity, usize)>, victim: Entity) -> (r: Option<Entity>)
    ensures
        r is None <==> forall|j: int| 0 <= j < stocks@.len() ==> (#[trigger] stocks@[j]).0 == victim,
        r matches Some(b) ==> exists|i: int| is_beneficiary(stocks@, victim, i) && stocks@[i].0 == b,
{
    let mut best: Option<usize> = None;
    let mut k: usize = 0;
    while k < stocks.len()
        invariant
            k <= stocks@.len(),
            best is None ==> forall|j: int| 0 <= j < k ==> (#[trigger] stocks@[j]).0 == victim,
            best matches Some(i) ==> {
                &&& i < k
                &&& stocks@[i as int].0 != victim
                &&& forall|j: int| 0 <= j < k && (#[trigger] stocks@[j]).0 != victim ==> stocks@[j].1 <= stocks@[i as int].1
                &&& forall|j: int| i < j < k && (#[trigger] stocks@[j]).0 != victim ==> stocks@[j].1 < stocks@[i as int].1
            },
        decreases stocks@.len() - k,
    {
        if stocks[k].0 != victim {
            let better = match best {
                None => true,
                Some(i) => stocks[k].1 >= stocks[i].1,
            };
            if better {
                best = Some(k);
            }
        }
        k += 1;
    }
    match best {
        None => None,
        Some(i) => {
            assert(is_beneficiary(stocks@, victim, i as int));
            Some(stocks[i].0)
        },
    }
}

/// An automatic pick of `target` points: tokens first, one point each, then
/// cities, five points each, until the target is reached or nothing is left.
pub open spec fn auto_tokens(tokens: Seq<Entity>, target: nat) -> Seq<Entity> {
    first_n(tokens, tokens_removed(tokens.len(), target))
}

pub open spec fn auto_cities(tokens: Seq<Entity>, cities: Seq<Entity>, target: nat) -> Seq<Entity> {
    first_n(cities, cities_removed(cities.len(), owed_after_tokens(tokens.len(), target)))
}

pub fn auto_pick(tokens: &Vec<Entity>, cities: &Vec<Entity>, target: usize) -> (r: (Vec<Entity>, Vec<Entity>))
    requires
        target <= usize::MAX - 5,
    ensures
        r.0@ == auto_tokens(tokens@, target as nat),
        r.1@ == auto_cities(tokens@, cities@, target as nat),
{
    let mut pts: usize = 0;
    let mut take_tokens: Vec<Entity> = Vec::new();
    while pts < tokens.len() && pts < target
        invariant
            pts <= tokens@.len(),
            pts <= target,
            take_tokens@ == tokens@.take(pts as int),
        decreases tokens@.len() - pts,
    {
        take_tokens.push(tokens[pts]);
        pts += 1;
        assert(take_tokens@ =~= tokens@.take(pts as int));
    }
    let t = pts;
    let mut take_cities: Vec<Entity> = Vec::new();
    let mut k: usize = 0;
    while k < cities.len() && pts < target
        invariant
            t == tokens_removed(tokens@.len(), target as nat),
            k <= cities@.len(),
            pts == t + 5 * k,
            k > 0 ==> t + 5 * (k - 1) < target,
            target <= usize::MAX - 5,
            take_cities@ == cities@.take(k as int),
        decreases cities@.len() - k,
    {
        take_cities.push(cities[k]);
        k += 1;
        pts += 5;
        assert(take_cities@ =~= cities@.take(k as int));
    }
    (take_tokens, take_cities)
}

/// Rule 30.414 applied to a first faction (victim's tokens and cities, then
/// the beneficiary's) and a second faction: five points leave each, tokens
/// before cities, the beneficiary's part of the first faction first.
pub open spec fn penalized(
    vu: Seq<Entity>,
    vc: Seq<Entity>,
    bu: Seq<Entity>,
    bc: Seq<Entity>,
    su: Seq<Entity>,
    sc: Seq<Entity>,
) -> (Seq<Entity>, Seq<Entity>, Seq<Entity>, Seq<Entity>, Seq<Entity>, Seq<Entity>) {
    let r1 = owed_after_tokens(bu.len(), 5);
    let r2 = owed_after_cities(bc.len(), r1);
    let r3 = owed_after_tokens(vu.len(), r2);
    (
        vu.take(vu.len() - tokens_removed(vu.len(), r2)),
        vc.take(vc.len() - cities_removed(vc.len(), r3)),
        bu.take(bu.len() - tokens_removed(bu.len(), 5)),
        bc.take(bc.len() - cities_removed(bc.len(), r1)),
        su.take(su.len() - tokens_removed(su.len(), 5)),
        sc.take(sc.len() - cities_removed(sc.len(), owed_after_tokens(su.len(), 5))),
    )
}

/// `new` is `old` once the first faction (`vu`, `vc`, `bu`, `bc`) is final on
/// a board of `fu` tokens and `fc` cities: the second faction is the rest of
/// the board, the Military penalty is taken from both, and the victim is to
/// choose which faction to keep (rules 30.413-30.415).
pub open spec fn finalized(
    new: CivilWarState,
    old: CivilWarState,
    vu: Seq<Entity>,
    vc: Seq<Entity>,
    bu: Seq<Entity>,
    bc: Seq<Entity>,
    fu: Seq<Entity>,
    fc: Seq<Entity>,
) -> bool {
    let su = without(fu, vu + bu);
    let sc = without(fc, vc + bc);
    let p = if old.military_penalty { penalized(vu, vc, bu, bc, su, sc) } else { (vu, vc, bu, bc, su, sc) };
    &&& new.victim_selected_units@ == p.0
    &&& new.victim_selected_cities@ == p.1
    &&& new.beneficiary_selected_units@ == p.2
    &&& new.beneficiary_selected_cities@ == p.3
    &&& new.second_faction_units@ == p.4
    &&& new.second_faction_cities@ == p.5
    &&& new.phase == CivilWarPhase::VictimChoosesFaction
    &&& new.beneficiary == old.beneficiary
    &&& new.victim_selection_points == old.victim_selection_points
    &&& new.beneficiary_selection_points == old.beneficiary_selection_points
    &&& new.kept_faction == old.kept_faction
    &&& new.philosophy_override == old.philosophy_override
    &&& new.military_penalty == old.military_penalty
}

/// What one turn of a Civil War does to the board.
#[derive(Debug, Clone)]
pub enum CivilWarAction {
    /// Nothing on the board changes.
    Nothing,
    /// The human `player` is asked to choose, and is waited for.
    AwaitChoice { player: Entity },
    /// The faction the victim does not keep goes to `to` (rule 30.415):
    /// its tokens return to the victim's stock and are replaced by `to`'s,
    /// and its cities become `to`'s.
    Transfer { units: Vec<Entity>, cities: Vec<Entity>, to: Entity },
    /// The Civil War is over.
    Finish,
}

impl CivilWarState {
    /// Fixes the first faction and derives the second from the victim's
    /// whole board (`full_units`, `full_cities`).
    pub fn finalize_first_faction(&mut self, full_units: &Vec<Entity>, full_cities: &Vec<Entity>)
        ensures
            finalized(
                *final(self),
                *old(self),
                old(self).victim_selected_units@,
                old(self).victim_selected_cities@,
                old(self).beneficiary_selected_units@,
                old(self).beneficiary_selected_cities@,
                full_units@,
                full_cities@,
            ),
    {
        self.compute_second_faction(copy_entities(full_units), copy_entities(full_cities));
        self.apply_military_penalty_to_first_faction();
        self.apply_military_penalty_to_second_faction();
        self.phase = CivilWarPhase::VictimChoosesFaction;
    }

    /// One turn of the Civil War for `victim`, whose tokens on the board are
    /// `victim_tokens` (area by area) and whose cities are `victim_cities`.
    /// `stocks` gives every player's tokens in stock and `military_holders`
    /// those holding Military; the flags say who is human and who is still
    /// choosing.
    #[verifier::rlimit(60)]
    pub fn advance(
        &mut self,
        victim: Entity,
        victim_tokens: &Vec<Entity>,
        victim_cities: &Vec<Entity>,
        stocks: &Vec<(Entity, usize)>,
        military_holders: &Vec<Entity>,
        victim_is_human: bool,
        victim_awaiting: bool,
        beneficiary_is_human: bool,
        beneficiary_awaiting: bool,
        selection: &mut CivilWarSelectionState,
    ) -> (a: CivilWarAction)
        requires
            old(self).victim_selection_points <= usize::MAX - 5,
            old(self).beneficiary_selection_points <= usize::MAX - 5,
            old(self).phase == CivilWarPhase::VictimChoosesFaction ==> old(self).points_fit(),
        ensures
            final(self).victim_selection_points == old(self).victim_selection_points,
            final(self).beneficiary_selection_points == old(self).beneficiary_selection_points,
            final(self).philosophy_override == old(self).philosophy_override,
            old(self).phase == CivilWarPhase::DetermineBeneficiary ==> {
                &&& a is Nothing
                &&& *final(selection) == *old(selection)
                &&& if forall|j: int| 0 <= j < stocks@.len() ==> (#[trigger] stocks@[j]).0 == victim {
                    *final(self) == (CivilWarState { phase: CivilWarPhase::Complete, ..*old(self) })
                } else {
                    exists|i: int| {
                        &&& is_beneficiary(stocks@, victim, i)
                        &&& #[trigger] stocks@[i].0 == stocks@[i].0
                        &&& *final(self) == (CivilWarState {
                            beneficiary: Some(stocks@[i].0),
                            military_penalty: old(self).military_penalty || military_holders@.contains(victim)
                                || military_holders@.contains(stocks@[i].0),
                            phase: if old(self).philosophy_override {
                                CivilWarPhase::BeneficiarySelectsUnits
                            } else {
                                CivilWarPhase::VictimSelectsUnits
                            },
                            ..*old(self)
                        })
                    }
                }
            },
            old(self).phase == CivilWarPhase::VictimSelectsUnits ==> {
                if victim_is_human && old(selection).acting_player is None {
                    &&& a == CivilWarAction::AwaitChoice { player: victim }
                    &&& *final(self) == *old(self)
                    &&& final(selection).set_up_for(*old(selection), victim, CivilWarUiRole::Victim,
                        victim_tokens@.len() as usize, victim_cities@, old(self).victim_selection_points)
                } else if victim_is_human && victim_awaiting {
                    a is Nothing && *final(self) == *old(self) && *final(selection) == *old(selection)
                } else if victim_is_human && old(selection).acting_player == Some(victim) {
                    &&& a is Nothing
                    &&& final(selection).is_cleared()
                    &&& *final(self) == (CivilWarState {
                        phase: CivilWarPhase::BeneficiarySelectsUnits,
                        victim_selected_units: final(self).victim_selected_units,
                        victim_selected_cities: final(self).victim_selected_cities,
                        ..*old(self)
                    })
                    &&& final(self).victim_selected_units@ == old(self).victim_selected_units@
                        + first_n(victim_tokens@, old(selection).selected_token_count as nat)
                    &&& final(self).victim_selected_cities@ == old(self).victim_selected_cities@
                        + old(selection).selected_cities@
                } else {
                    &&& a is Nothing
                    &&& *final(selection) == *old(selection)
                    &&& *final(self) == (CivilWarState {
                        phase: CivilWarPhase::BeneficiarySelectsUnits,
                        victim_selected_units: final(self).victim_selected_units,
                        victim_selected_cities: final(self).victim_selected_cities,
                        ..*old(self)
                    })
                    &&& final(self).victim_selected_units@ == old(self).victim_selected_units@
                        + auto_tokens(victim_tokens@, old(self).victim_selection_points as nat)
                    &&& final(self).victim_selected_cities@ == old(self).victim_selected_cities@
                        + auto_cities(victim_tokens@, victim_cities@, old(self).victim_selection_points as nat)
                }
            },
            old(self).phase == CivilWarPhase::BeneficiarySelectsUnits ==> match old(self).beneficiary {
                None => a is Nothing && *final(selection) == *old(selection)
                    && *final(self) == (CivilWarState { phase: CivilWarPhase::TransferFaction, ..*old(self) }),
                Some(b) => {
                    let pool_units = without(victim_tokens@, old(self).victim_selected_units@);
                    let pool_cities = without(victim_cities@, old(self).victim_selected_cities@);
                    if beneficiary_is_human && old(selection).acting_player is None {
                        &&& a == CivilWarAction::AwaitChoice { player: b }
                        &&& *final(self) == *old(self)
                        &&& final(selection).set_up_for(*old(selection), b, CivilWarUiRole::Beneficiary,
                            pool_units.len() as usize, pool_cities, old(self).beneficiary_selection_points)
                    } else if beneficiary_is_human && beneficiary_awaiting {
                        a is Nothing && *final(self) == *old(self) && *final(selection) == *old(selection)
                    } else if beneficiary_is_human && old(selection).acting_player == Some(b) {
                        &&& a is Nothing
                        &&& final(selection).is_cleared()
                        &&& finalized(*final(self), *old(self), old(self).victim_selected_units@,
                            old(self).victim_selected_cities@,
                            first_n(pool_units, old(selection).selected_token_count as nat),
                            old(selection).selected_cities@, victim_tokens@, victim_cities@)
                    } else {
                        &&& a is Nothing
                        &&& *final(selection) == *old(selection)
                        &&& finalized(*final(self), *old(self), old(self).victim_selected_units@,
                            old(self).victim_selected_cities@,
                            auto_tokens(pool_units, old(self).beneficiary_selection_points as nat),
                            auto_cities(pool_units, pool_cities, old(self).beneficiary_selection_points as nat),
                            victim_tokens@, victim_cities@)
                    }
                },
            },
            old(self).phase == CivilWarPhase::VictimChoosesFaction ==> {
                if !(old(self).second_faction_units@.len() > 0 || old(self).second_faction_cities@.len() > 0) {
                    // Rule 30.413: no second faction, no Civil War.
                    a is Nothing && *final(selection) == *old(selection)
                        && *final(self) == (CivilWarState { phase: CivilWarPhase::Complete, ..*old(self) })
                } else if victim_is_human && old(selection).acting_player is None {
                    &&& a == CivilWarAction::AwaitChoice { player: victim }
                    &&& *final(self) == *old(self)
                    &&& *final(selection) == (CivilWarSelectionState {
                        acting_player: Some(victim),
                        role: CivilWarUiRole::ChooseFaction,
                        first_faction_points: (old(self).victim_points() + old(self).beneficiary_points()) as usize,
                        second_faction_points: old(self).second_points() as usize,
                        chosen_faction: None,
                        ..*old(selection)
                    })
                } else if victim_is_human && victim_awaiting {
                    a is Nothing && *final(self) == *old(self) && *final(selection) == *old(selection)
                } else if victim_is_human && old(selection).acting_player == Some(victim) {
                    &&& a is Nothing
                    &&& final(selection).is_cleared()
                    &&& *final(self) == (CivilWarState {
                        kept_faction: Some(match old(selection).chosen_faction {
                            Some(c) => c,
                            None => FactionChoice::First,
                        }),
                        phase: CivilWarPhase::TransferFaction,
                        ..*old(self)
                    })
                } else {
                    &&& a is Nothing
                    &&& *final(selection) == *old(selection)
                    &&& *final(self) == (CivilWarState {
                        kept_faction: Some(
                            if old(self).second_points() > old(self).victim_points() + old(self).beneficiary_points() {
                                FactionChoice::Second
                            } else {
                                FactionChoice::First
                            },
                        ),
                        phase: CivilWarPhase::TransferFaction,
                        ..*old(self)
                    })
                }
            },
            old(self).phase == CivilWarPhase::TransferFaction ==> {
                &&& *final(selection) == *old(selection)
                &&& *final(self) == (CivilWarState { phase: CivilWarPhase::Complete, ..*old(self) })
                &&& match old(self).beneficiary {
                    None => a is Nothing,
                    Some(b) => a matches CivilWarAction::Transfer { units, cities, to } && to == b
                        && units@ == match old(self).kept_faction {
                            Some(FactionChoice::First) => old(self).second_faction_units@,
                            _ => old(self).victim_selected_units@ + old(self).beneficiary_selected_units@,
                        }
                        && cities@ == match old(self).kept_faction {
                            Some(FactionChoice::First) => old(self).second_faction_cities@,
                            _ => old(self).victim_selected_cities@ + old(self).beneficiary_selected_cities@,
                        },
                }
            },
            old(self).phase == CivilWarPhase::Complete ==> a is Finish && *final(self) == *old(self)
                && *final(selection) == *old(selection),
    {
        match self.phase {
            CivilWarPhase::DetermineBeneficiary => {
                match choose_beneficiary(stocks, victim) {
                    Some(b) => {
                        if contains_entity(military_holders, victim) || contains_entity(military_holders, b) {
                            self.military_penalty = true;
                        }
                        self.beneficiary = Some(b);
                        self.phase = if self.philosophy_override {
                            CivilWarPhase::BeneficiarySelectsUnits
                        } else {
                            CivilWarPhase::VictimSelectsUnits
                        };
                    },
                    None => {
                        self.phase = CivilWarPhase::Complete;
                    },
                }
                CivilWarAction::Nothing
            },
            CivilWarPhase::VictimSelectsUnits => {
                if victim_is_human && selection.acting_player.is_none() {
                    selection.populate_victim(victim, victim_tokens.len(), copy_entities(victim_cities), self.victim_selection_points);
                    CivilWarAction::AwaitChoice { player: victim }
                } else if victim_is_human && victim_awaiting {
                    CivilWarAction::Nothing
                } else if victim_is_human && selection.acting_player == Some(victim) {
                    let (count, cities) = selection.take_result();
                    let units = first_cities(victim_tokens, count);
                    self.victim_selected_units = concat_entities(&self.victim_selected_units, &units);
                    self.victim_selected_cities = concat_entities(&self.victim_selected_cities, &cities);
                    self.phase = CivilWarPhase::BeneficiarySelectsUnits;
                    CivilWarAction::Nothing
                } else {
                    let (units, cities) = auto_pick(victim_tokens, victim_cities, self.victim_selection_points);
                    self.victim_selected_units = concat_entities(&self.victim_selected_units, &units);
                    self.victim_selected_cities = concat_entities(&self.victim_selected_cities, &cities);
                    self.phase = CivilWarPhase::BeneficiarySelectsUnits;
                    CivilWarAction::Nothing
                }
            },
            CivilWarPhase::BeneficiarySelectsUnits => {
                let b = match self.beneficiary {
                    None => {
                        self.phase = CivilWarPhase::TransferFaction;
                        return CivilWarAction::Nothing;
                    },
                    Some(b) => b,
                };
                let pool_units = entities_without(copy_entities(victim_tokens), &self.victim_selected_units);
                let pool_cities = entities_without(copy_entities(victim_cities), &self.victim_selected_cities);
                if beneficiary_is_human && selection.acting_player.is_none() {
                    selection.populate_beneficiary(b, pool_units.len(), pool_cities, self.beneficiary_selection_points);
                    CivilWarAction::AwaitChoice { player: b }
                } else if beneficiary_is_human && beneficiary_awaiting {
                    CivilWarAction::Nothing
                } else if beneficiary_is_human && selection.acting_player == Some(b) {
                    let (count, cities) = selection.take_result();
                    self.beneficiary_selected_units = first_cities(&pool_units, count);
                    self.beneficiary_selected_cities = cities;
                    self.finalize_first_faction(victim_tokens, victim_cities);
                    CivilWarAction::Nothing
                } else {
                    let (units, cities) = auto_pick(&pool_units, &pool_cities, self.beneficiary_selection_points);
                    self.beneficiary_selected_units = units;
                    self.beneficiary_selected_cities = cities;
                    self.finalize_first_faction(victim_tokens, victim_cities);
                    CivilWarAction::Nothing
                }
            },
            CivilWarPhase::VictimChoosesFaction => {
                if !self.has_second_faction() {
                    self.phase = CivilWarPhase::Complete;
                    CivilWarAction::Nothing
                } else if victim_is_human && selection.acting_player.is_none() {
                    selection.populate_faction_choice(victim, self.first_faction_points(), self.second_faction_points());
                    CivilWarAction::AwaitChoice { player: victim }
                } else if victim_is_human && victim_awaiting {
                    CivilWarAction::Nothing
                } else if victim_is_human && selection.acting_player == Some(victim) {
                    let choice = match selection.take_faction_choice() {
                        Some(c) => c,
                        None => FactionChoice::First,
                    };
                    self.kept_faction = Some(choice);
                    self.phase = CivilWarPhase::TransferFaction;
                    CivilWarAction::Nothing
                } else {
                    let choice = self.default_ai_faction_choice();
                    self.kept_faction = Some(choice);
                    self.phase = CivilWarPhase::TransferFaction;
                    CivilWarAction::Nothing
                }
            },
            CivilWarPhase::TransferFaction => {
                self.phase = CivilWarPhase::Complete;
                match self.beneficiary {
                    None => CivilWarAction::Nothing,
                    Some(b) => CivilWarAction::Transfer {
                        units: self.transferring_units(),
                        cities: self.transferring_cities(),
                        to: b,
                    },
                }
            },
            CivilWarPhase::Complete => CivilWarAction::Finish,
        }
    }
}

} // verus!
