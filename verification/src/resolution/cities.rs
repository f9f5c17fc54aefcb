//! The calamities that take cities, turn by turn: Superstition, Slave
//! Revolt, Civil Disorder, Iconoclasm and Heresy, Treachery and Piracy.
use vstd::prelude::*;
use crate::calamities::civil_disorder::{cities_reduced, CivilDisorderPhase, CivilDisorderState};
use crate::calamities::iconoclasm_heresy::{IconoclasmHeresyPhase, IconoclasmHeresyState};
use crate::calamities::piracy::{PiracyPhase, PiracyState};
use crate::calamities::slave_revolt::{revolt_cities, SlaveRevoltPhase, SlaveRevoltState};
use crate::calamities::superstition::{SuperstitionPhase, SuperstitionState};
use crate::calamities::treachery::{TreacheryPhase, TreacheryState};
use crate::entity::Entity;
use crate::resolution::board::{city_owner_at, city_owner_of, coastal_at, is_coastal, BoardArea};
use crate::resolution::flood::{choose_fallback_city, fallback_city};
use crate::selection::calamity::CalamitySelectionState;
use crate::util::{concat_entities, contains_entity, copy_entities};

verus! {

/// What one turn of a city-taking calamity does to the board.
#[derive(Debug, Clone)]
pub enum CityAction {
    /// Nothing on the board changes.
    Nothing,
    /// The human player is asked to choose cities.
    AwaitChoice,
    /// These cities are reduced.
    Reduce { cities: Vec<Entity> },
    /// These cities go to player `to`.
    Transfer { cities: Vec<Entity>, to: Entity },
    /// The Pirate nation must be found or created, then reported with
    /// [`PiracyState::record_pirate_nation`].
    NeedPirateNation,
    /// The calamity is over.
    Finish,
}

/// The chosen cities after offering `cities` in turn to a selection already
/// holding `sel`, which takes a city only while it holds fewer than `cap`.
pub open spec fn selected_after(sel: Seq<Entity>, cities: Seq<Entity>, cap: nat) -> Seq<Entity> {
    if sel.len() >= cap {
        sel
    } else {
        let room = (cap - sel.len()) as nat;
        sel + cities.take(if room <= cities.len() { room as int } else { cities.len() as int })
    }
}

/// Offers each of `cities` in turn to the selection (see [`selected_after`]).
pub fn select_each(selected: &mut Vec<Entity>, cities: &Vec<Entity>, cap: usize)
    ensures
        final(selected)@ == selected_after(old(selected)@, cities@, cap as nat),
{
    let ghost start = selected@;
    let mut i: usize = 0;
    while i < cities.len()
        invariant
            i <= cities@.len(),
            selected@ == selected_after(start, cities@.take(i as int), cap as nat),
        decreases cities@.len() - i,
    {
        if selected.len() < cap {
            selected.push(cities[i]);
        }
        i += 1;
        assert(selected@ =~= selected_after(start, cities@.take(i as int), cap as nat));
    }
    assert(cities@.take(i as int) =~= cities@);
}

/// The first `n` cities, or all when there are fewer.
pub open spec fn first_n(cities: Seq<Entity>, n: nat) -> Seq<Entity> {
    cities.take(if n <= cities.len() { n as int } else { cities.len() as int })
}

pub fn first_cities(cities: &Vec<Entity>, n: usize) -> (r: Vec<Entity>)
    ensures
        r@ == first_n(cities@, n as nat),
{
    let mut r: Vec<Entity> = Vec::new();
    let mut i: usize = 0;
    while i < cities.len() && i < n
        invariant
            i <= cities@.len(),
            i <= n,
            r@ == cities@.take(i as int),
        decreases cities@.len() - i,
    {
        r.push(cities[i]);
        i += 1;
        assert(r@ =~= cities@.take(i as int));
    }
    r
}

impl SuperstitionState {
    /// One turn of Superstition for `victim`, owning `victim_cities`.
    pub fn advance(
        &mut self,
        victim: Entity,
        victim_cities: &Vec<Entity>,
        is_human: bool,
        awaiting: bool,
        selection: &mut CalamitySelectionState,
    ) -> (a: CityAction)
        ensures
            final(self).cities_to_reduce == old(self).cities_to_reduce,
            old(self).phase == SuperstitionPhase::ComputeEffects ==> {
                if old(self).cities_to_reduce == 0 {
                    a is Nothing && final(self).phase == SuperstitionPhase::Complete
                        && final(self).selected_cities == old(self).selected_cities && *final(selection) == *old(selection)
                } else if is_human {
                    &&& a is AwaitChoice
                    &&& final(self).phase == SuperstitionPhase::SelectCities
                    &&& final(self).selected_cities == old(self).selected_cities
                    &&& final(selection).player == Some(victim)
                    &&& final(selection).available_cities@ == victim_cities@
                    &&& final(selection).selected_cities@.len() == 0
                    &&& final(selection).required_count == old(self).cities_to_reduce
                    &&& final(selection).calamity_name@ == "Superstition"@
                    &&& final(selection).current_index == 0
                } else {
                    &&& a is Nothing
                    &&& final(self).phase == SuperstitionPhase::ApplyEffects
                    &&& final(self).selected_cities@ == selected_after(
                        old(self).selected_cities@,
                        first_n(victim_cities@, old(self).cities_to_reduce as nat),
                        old(self).cities_to_reduce as nat,
                    )
                    &&& *final(selection) == *old(selection)
                }
            },
            old(self).phase == SuperstitionPhase::SelectCities ==> a is Nothing && if awaiting {
                *final(self) == *old(self) && *final(selection) == *old(selection)
            } else {
                &&& final(self).phase == SuperstitionPhase::ApplyEffects
                &&& final(self).selected_cities@ == selected_after(
                    old(self).selected_cities@,
                    old(selection).selected_cities@,
                    old(self).cities_to_reduce as nat,
                )
                &&& final(selection).is_cleared()
            },
            old(self).phase == SuperstitionPhase::ApplyEffects ==> {
                &&& a matches CityAction::Reduce { cities }
                &&& cities@ == old(self).selected_cities@
                &&& final(self).phase == SuperstitionPhase::Complete
                &&& final(self).selected_cities == old(self).selected_cities
                &&& *final(selection) == *old(selection)
            },
            old(self).phase == SuperstitionPhase::Complete ==> a is Finish && *final(self) == *old(self)
                && *final(selection) == *old(selection),
    {
        match self.phase {
            SuperstitionPhase::ComputeEffects => {
                if self.cities_to_reduce == 0 {
                    self.phase = SuperstitionPhase::Complete;
                    CityAction::Nothing
                } else if is_human {
                    selection.populate(victim, copy_entities(victim_cities), self.cities_to_reduce, "Superstition");
                    self.phase = SuperstitionPhase::SelectCities;
                    CityAction::AwaitChoice
                } else {
                    let chosen = first_cities(victim_cities, self.cities_to_reduce);
                    select_each(&mut self.selected_cities, &chosen, self.cities_to_reduce);
                    self.phase = SuperstitionPhase::ApplyEffects;
                    CityAction::Nothing
                }
            },
            SuperstitionPhase::SelectCities => {
                if !awaiting {
                    let chosen = selection.take_selected_cities();
                    select_each(&mut self.selected_cities, &chosen, self.cities_to_reduce);
                    self.phase = SuperstitionPhase::ApplyEffects;
                }
                CityAction::Nothing
            },
            SuperstitionPhase::ApplyEffects => {
                self.phase = SuperstitionPhase::Complete;
                CityAction::Reduce { cities: copy_entities(&self.selected_cities) }
            },
            SuperstitionPhase::Complete => CityAction::Finish,
        }
    }
}

impl SlaveRevoltState {
    /// One turn of the Slave Revolt for `victim`, with `on_board_tokens`
    /// tokens on the board and owning `victim_cities`.
    pub fn advance(
        &mut self,
        victim: Entity,
        on_board_tokens: usize,
        victim_cities: &Vec<Entity>,
        is_human: bool,
        awaiting: bool,
        selection: &mut CalamitySelectionState,
    ) -> (a: CityAction)
        ensures
            final(self).tokens_cannot_support == old(self).tokens_cannot_support,
            old(self).phase == SlaveRevoltPhase::ComputeEffects ==> {
                let n = revolt_cities(old(self).tokens_cannot_support as nat, on_board_tokens as nat, victim_cities@.len());
                &&& final(self).cities_to_reduce == n
                &&& if n == 0 {
                    a is Nothing && final(self).phase == SlaveRevoltPhase::Complete
                        && final(self).selected_cities == old(self).selected_cities && *final(selection) == *old(selection)
                } else if is_human {
                    &&& a is AwaitChoice
                    &&& final(self).phase == SlaveRevoltPhase::SelectCities
                    &&& final(self).selected_cities == old(self).selected_cities
                    &&& final(selection).player == Some(victim)
                    &&& final(selection).available_cities@ == victim_cities@
                    &&& final(selection).selected_cities@.len() == 0
                    &&& final(selection).required_count == n
                    &&& final(selection).calamity_name@ == "Slave Revolt"@
                    &&& final(selection).current_index == 0
                } else {
                    &&& a is Nothing
                    &&& final(self).phase == SlaveRevoltPhase::ApplyEffects
                    &&& final(self).selected_cities@ == selected_after(
                        old(self).selected_cities@,
                        first_n(victim_cities@, n),
                        n,
                    )
                    &&& *final(selection) == *old(selection)
                }
            },
            old(self).phase == SlaveRevoltPhase::SelectCities ==> a is Nothing && if awaiting {
                *final(self) == *old(self) && *final(selection) == *old(selection)
            } else {
                &&& final(self).phase == SlaveRevoltPhase::ApplyEffects
                &&& final(self).cities_to_reduce == old(self).cities_to_reduce
                &&& final(self).selected_cities@ == selected_after(
                    old(self).selected_cities@,
                    old(selection).selected_cities@,
                    old(self).cities_to_reduce as nat,
                )
                &&& final(selection).is_cleared()
            },
            old(self).phase == SlaveRevoltPhase::ApplyEffects ==> {
                &&& a matches CityAction::Reduce { cities }
                &&& cities@ == old(self).selected_cities@
                &&& final(self).phase == SlaveRevoltPhase::Complete
                &&& final(self).cities_to_reduce == old(self).cities_to_reduce
                &&& final(self).selected_cities == old(self).selected_cities
                &&& *final(selection) == *old(selection)
            },
            old(self).phase == SlaveRevoltPhase::Complete ==> a is Finish && *final(self) == *old(self)
                && *final(selection) == *old(selection),
    {
        match self.phase {
            SlaveRevoltPhase::ComputeEffects => {
                self.compute_cities_to_reduce(on_board_tokens, victim_cities.len());
                if self.cities_to_reduce == 0 {
                    self.phase = SlaveRevoltPhase::Complete;
                    CityAction::Nothing
                } else if is_human {
                    selection.populate(victim, copy_entities(victim_cities), self.cities_to_reduce, "Slave Revolt");
                    self.phase = SlaveRevoltPhase::SelectCities;
                    CityAction::AwaitChoice
                } else {
                    let chosen = first_cities(victim_cities, self.cities_to_reduce);
                    select_each(&mut self.selected_cities, &chosen, self.cities_to_reduce);
                    self.phase = SlaveRevoltPhase::ApplyEffects;
                    CityAction::Nothing
                }
            },
            SlaveRevoltPhase::SelectCities => {
                if !awaiting {
                    let chosen = selection.take_selected_cities();
                    select_each(&mut self.selected_cities, &chosen, self.cities_to_reduce);
                    self.phase = SlaveRevoltPhase::ApplyEffects;
                }
                CityAction::Nothing
            },
            SlaveRevoltPhase::ApplyEffects => {
                self.phase = SlaveRevoltPhase::Complete;
                CityAction::Reduce { cities: copy_entities(&self.selected_cities) }
            },
            SlaveRevoltPhase::Complete => CityAction::Finish,
        }
    }
}

impl CivilDisorderState {
    /// One turn of Civil Disorder for `victim`, owning `victim_cities`.
    pub fn advance(
        &mut self,
        victim: Entity,
        victim_cities: &Vec<Entity>,
        is_human: bool,
        awaiting: bool,
        selection: &mut CalamitySelectionState,
    ) -> (a: CityAction)
        requires
            old(self).cities_modifier <= i32::MAX - 3,
        ensures
            final(self).cities_modifier == old(self).cities_modifier,
            old(self).phase == CivilDisorderPhase::ComputeEffects ==> {
                let n = cities_reduced(victim_cities@.len(), old(self).cities_modifier as int);
                &&& final(self).cities_to_reduce == n
                &&& if n == 0 {
                    a is Nothing && final(self).phase == CivilDisorderPhase::Complete
                        && final(self).selected_cities == old(self).selected_cities && *final(selection) == *old(selection)
                } else if is_human {
                    &&& a is AwaitChoice
                    &&& final(self).phase == CivilDisorderPhase::SelectCities
                    &&& final(self).selected_cities == old(self).selected_cities
                    &&& final(selection).player == Some(victim)
                    &&& final(selection).available_cities@ == victim_cities@
                    &&& final(selection).selected_cities@.len() == 0
                    &&& final(selection).required_count == n
                    &&& final(selection).calamity_name@ == "Civil Disorder"@
                    &&& final(selection).current_index == 0
                } else {
                    &&& a is Nothing
                    &&& final(self).phase == CivilDisorderPhase::ApplyEffects
                    &&& final(self).selected_cities@ == selected_after(
                        old(self).selected_cities@,
                        first_n(victim_cities@, n),
                        n,
                    )
                    &&& *final(selection) == *old(selection)
                }
            },
            old(self).phase == CivilDisorderPhase::SelectCities ==> a is Nothing && if awaiting {
                *final(self) == *old(self) && *final(selection) == *old(selection)
            } else {
                &&& final(self).phase == CivilDisorderPhase::ApplyEffects
                &&& final(self).cities_to_reduce == old(self).cities_to_reduce
                &&& final(self).selected_cities@ == selected_after(
                    old(self).selected_cities@,
                    old(selection).selected_cities@,
                    old(self).cities_to_reduce as nat,
                )
                &&& final(selection).is_cleared()
            },
            old(self).phase == CivilDisorderPhase::ApplyEffects ==> {
                &&& a matches CityAction::Reduce { cities }
                &&& cities@ == old(self).selected_cities@
                &&& final(self).phase == CivilDisorderPhase::Complete
                &&& final(self).cities_to_reduce == old(self).cities_to_reduce
                &&& final(self).selected_cities == old(self).selected_cities
                &&& *final(selection) == *old(selection)
            },
            old(self).phase == CivilDisorderPhase::Complete ==> a is Finish && *final(self) == *old(self)
                && *final(selection) == *old(selection),
    {
        match self.phase {
            CivilDisorderPhase::ComputeEffects => {
                self.compute_cities_to_reduce(victim_cities.len());
                if self.cities_to_reduce == 0 {
                    self.phase = CivilDisorderPhase::Complete;
                    CityAction::Nothing
                } else if is_human {
                    selection.populate(victim, copy_entities(victim_cities), self.cities_to_reduce, "Civil Disorder");
                    self.phase = CivilDisorderPhase::SelectCities;
                    CityAction::AwaitChoice
                } else {
                    let chosen = first_cities(victim_cities, self.cities_to_reduce);
                    select_each(&mut self.selected_cities, &chosen, self.cities_to_reduce);
                    self.phase = CivilDisorderPhase::ApplyEffects;
                    CityAction::Nothing
                }
            },
            CivilDisorderPhase::SelectCities => {
                if !awaiting {
                    let chosen = selection.take_selected_cities();
                    select_each(&mut self.selected_cities, &chosen, self.cities_to_reduce);
                    self.phase = CivilDisorderPhase::ApplyEffects;
                }
                CityAction::Nothing
            },
            CivilDisorderPhase::ApplyEffects => {
                self.phase = CivilDisorderPhase::Complete;
                CityAction::Reduce { cities: copy_entities(&self.selected_cities) }
            },
            CivilDisorderPhase::Complete => CityAction::Finish,
        }
    }
}


/// Rule 30.818/30.819: the two cities the Iconoclasm victim orders reduced
/// from other players, taken in turn from each eligible player's cities (not
/// the victim's, not the trader's, not a Theology holder's), at most one
/// from a Philosophy holder, until `left` are taken.
pub open spec fn iconoclasm_secondary(
    players: Seq<(Entity, Vec<Entity>)>,
    victim: Entity,
    immune: Option<Entity>,
    theology: Seq<Entity>,
    philosophy: Seq<Entity>,
    left: nat,
) -> Seq<Entity>
    decreases players.len(),
{
    if players.len() == 0 {
        Seq::empty()
    } else {
        let q = players[0];
        let rest = players.drop_first();
        if q.0 != victim && Some(q.0) != immune && q.1@.len() > 0 && !theology.contains(q.0) {
            let most: nat = if philosophy.contains(q.0) && left >= 1 { 1 } else { left };
            let k: nat = if most <= q.1@.len() { most } else { q.1@.len() };
            q.1@.take(k as int) + iconoclasm_secondary(rest, victim, immune, theology, philosophy, (left - k) as nat)
        } else {
            iconoclasm_secondary(rest, victim, immune, theology, philosophy, left)
        }
    }
}

pub fn iconoclasm_secondary_cities(
    players: &Vec<(Entity, Vec<Entity>)>,
    victim: Entity,
    immune: Option<Entity>,
    theology_holders: &Vec<Entity>,
    philosophy_holders: &Vec<Entity>,
    count: usize,
) -> (r: Vec<Entity>)
    ensures
        r@ == iconoclasm_secondary(players@, victim, immune, theology_holders@, philosophy_holders@, count as nat),
{
    let mut r: Vec<Entity> = Vec::new();
    let mut left: usize = count;
    let mut i: usize = 0;
    assert(players@.skip(0) =~= players@);
    while i < players.len()
        invariant
            i <= players@.len(),
            iconoclasm_secondary(players@, victim, immune, theology_holders@, philosophy_holders@, count as nat)
                == r@ + iconoclasm_secondary(players@.skip(i as int), victim, immune, theology_holders@, philosophy_holders@, left as nat),
        decreases players@.len() - i,
    {
        let ghost rest = players@.skip(i as int);
        assert(rest[0] == players@[i as int]);
        assert(rest.drop_first() =~= players@.skip(i + 1));
        let q = &players[i];
        if q.0 != victim && Some(q.0) != immune && q.1.len() > 0 && !contains_entity(theology_holders, q.0) {
            let most: usize = if contains_entity(philosophy_holders, q.0) && left >= 1 { 1 } else { left };
            let k: usize = if most <= q.1.len() { most } else { q.1.len() };
            let taken = first_cities(&q.1, k);
            let ghost before = r@;
            let mut j: usize = 0;
            while j < taken.len()
                invariant
                    j <= taken@.len(),
                    r@ == before + taken@.take(j as int),
                decreases taken@.len() - j,
            {
                r.push(taken[j]);
                j += 1;
                assert(r@ =~= before + taken@.take(j as int));
            }
            assert(taken@.take(j as int) =~= taken@);
            left = left - k;
            assert(r@ + iconoclasm_secondary(players@.skip(i + 1), victim, immune, theology_holders@, philosophy_holders@, left as nat)
                =~= before + (q.1@.take(k as int) + iconoclasm_secondary(players@.skip(i + 1), victim, immune, theology_holders@, philosophy_holders@, left as nat)));
        }
        i += 1;
    }
    assert(players@.skip(i as int) =~= Seq::<(Entity, Vec<Entity>)>::empty());
    assert(r@ + Seq::<Entity>::empty() =~= r@);
    r
}

impl IconoclasmHeresyState {
    /// One turn of Iconoclasm and Heresy for `victim`, owning
    /// `victim_cities`; `players` lists every player with their cities.
    pub fn advance(
        &mut self,
        victim: Entity,
        victim_cities: &Vec<Entity>,
        players: &Vec<(Entity, Vec<Entity>)>,
        theology_holders: &Vec<Entity>,
        philosophy_holders: &Vec<Entity>,
        is_human: bool,
        awaiting: bool,
        selection: &mut CalamitySelectionState,
    ) -> (a: CityAction)
        ensures
            final(self).cities_to_reduce == old(self).cities_to_reduce,
            final(self).secondary_cities == old(self).secondary_cities,
            final(self).immune_player == old(self).immune_player,
            old(self).phase == IconoclasmHeresyPhase::ComputeEffects ==> {
                if old(self).cities_to_reduce == 0 {
                    a is Nothing && final(self).phase == IconoclasmHeresyPhase::ApplySecondaryLosses
                        && final(self).selected_cities == old(self).selected_cities && *final(selection) == *old(selection)
                } else if is_human {
                    &&& a is AwaitChoice
                    &&& final(self).phase == IconoclasmHeresyPhase::SelectCities
                    &&& final(self).selected_cities == old(self).selected_cities
                    &&& final(selection).player == Some(victim)
                    &&& final(selection).available_cities@ == victim_cities@
                    &&& final(selection).selected_cities@.len() == 0
                    &&& final(selection).required_count == old(self).cities_to_reduce
                    &&& final(selection).calamity_name@ == "Iconoclasm & Heresy"@
                    &&& final(selection).current_index == 0
                } else {
                    &&& a is Nothing
                    &&& final(self).phase == IconoclasmHeresyPhase::ApplySecondaryLosses
                    &&& final(self).selected_cities@ == selected_after(
                        old(self).selected_cities@,
                        first_n(victim_cities@, old(self).cities_to_reduce as nat),
                        old(self).cities_to_reduce as nat,
                    )
                    &&& *final(selection) == *old(selection)
                }
            },
            old(self).phase == IconoclasmHeresyPhase::SelectCities ==> a is Nothing && if awaiting {
                *final(self) == *old(self) && *final(selection) == *old(selection)
            } else {
                &&& final(self).phase == IconoclasmHeresyPhase::ApplySecondaryLosses
                &&& final(self).selected_cities@ == selected_after(
                    old(self).selected_cities@,
                    old(selection).selected_cities@,
                    old(self).cities_to_reduce as nat,
                )
                &&& final(selection).is_cleared()
            },
            old(self).phase == IconoclasmHeresyPhase::ApplySecondaryLosses ==> {
                &&& a matches CityAction::Reduce { cities }
                &&& cities@ == old(self).selected_cities@ + iconoclasm_secondary(
                    players@,
                    victim,
                    old(self).immune_player,
                    theology_holders@,
                    philosophy_holders@,
                    old(self).secondary_cities as nat,
                )
                &&& final(self).phase == IconoclasmHeresyPhase::Complete
                &&& final(self).selected_cities == old(self).selected_cities
                &&& *final(selection) == *old(selection)
            },
            old(self).phase == IconoclasmHeresyPhase::SelectSecondaryVictims ==> a is Nothing
                && *final(self) == *old(self) && *final(selection) == *old(selection),
            old(self).phase == IconoclasmHeresyPhase::Complete ==> a is Finish && *final(self) == *old(self)
                && *final(selection) == *old(selection),
    {
        match self.phase {
            IconoclasmHeresyPhase::ComputeEffects => {
                if self.cities_to_reduce == 0 {
                    self.phase = IconoclasmHeresyPhase::ApplySecondaryLosses;
                    CityAction::Nothing
                } else if is_human {
                    selection.populate(victim, copy_entities(victim_cities), self.cities_to_reduce, "Iconoclasm & Heresy");
                    self.phase = IconoclasmHeresyPhase::SelectCities;
                    CityAction::AwaitChoice
                } else {
                    let chosen = first_cities(victim_cities, self.cities_to_reduce);
                    select_each(&mut self.selected_cities, &chosen, self.cities_to_reduce);
                    self.phase = IconoclasmHeresyPhase::ApplySecondaryLosses;
                    CityAction::Nothing
                }
            },
            IconoclasmHeresyPhase::SelectCities => {
                if !awaiting {
                    let chosen = selection.take_selected_cities();
                    select_each(&mut self.selected_cities, &chosen, self.cities_to_reduce);
                    self.phase = IconoclasmHeresyPhase::ApplySecondaryLosses;
                }
                CityAction::Nothing
            },
            IconoclasmHeresyPhase::ApplySecondaryLosses => {
                let secondary = iconoclasm_secondary_cities(
                    players,
                    victim,
                    self.immune_player,
                    theology_holders,
                    philosophy_holders,
                    self.secondary_cities,
                );
                self.phase = IconoclasmHeresyPhase::Complete;
                CityAction::Reduce { cities: concat_entities(&self.selected_cities, &secondary) }
            },
            IconoclasmHeresyPhase::SelectSecondaryVictims => CityAction::Nothing,
            IconoclasmHeresyPhase::Complete => CityAction::Finish,
        }
    }
}

impl TreacheryState {
    /// One turn of Treachery for `victim`, owning `victim_cities`; the card
    /// was traded by `traded_by`, if anyone.
    pub fn advance(
        &mut self,
        victim: Entity,
        victim_cities: &Vec<Entity>,
        traded_by: Option<Entity>,
        is_human: bool,
        awaiting: bool,
        selection: &mut CalamitySelectionState,
    ) -> (a: CityAction)
        ensures
            old(self).phase == TreacheryPhase::SelectCity ==> {
                if !is_human {
                    &&& a is Nothing
                    &&& *final(selection) == *old(selection)
                    &&& if victim_cities@.len() > 0 {
                        *final(self) == (TreacheryState {
                            phase: TreacheryPhase::ApplyEffects,
                            city_to_replace: Some(victim_cities@[0]),
                            beneficiary: traded_by,
                        })
                    } else {
                        *final(self) == (TreacheryState { phase: TreacheryPhase::Complete, ..*old(self) })
                    }
                } else if awaiting {
                    a is Nothing && *final(self) == *old(self) && *final(selection) == *old(selection)
                } else if old(selection).player == Some(victim) {
                    &&& a is Nothing
                    &&& final(selection).is_cleared()
                    &&& final(self).phase == TreacheryPhase::ApplyEffects
                    &&& if old(selection).selected_cities@.len() > 0 {
                        final(self).city_to_replace == Some(old(selection).selected_cities@[0])
                            && final(self).beneficiary == traded_by
                    } else {
                        final(self).city_to_replace == old(self).city_to_replace
                            && final(self).beneficiary == old(self).beneficiary
                    }
                } else if victim_cities@.len() == 0 {
                    a is Nothing && *final(selection) == *old(selection)
                        && *final(self) == (TreacheryState { phase: TreacheryPhase::Complete, ..*old(self) })
                } else {
                    &&& a is AwaitChoice
                    &&& *final(self) == *old(self)
                    &&& final(selection).player == Some(victim)
                    &&& final(selection).available_cities@ == victim_cities@
                    &&& final(selection).selected_cities@.len() == 0
                    &&& final(selection).required_count == 1
                    &&& final(selection).calamity_name@ == "Treachery"@
                    &&& final(selection).current_index == 0
                }
            },
            // Rules 30.221/30.222: the city goes to the trader, or is reduced.
            old(self).phase == TreacheryPhase::ApplyEffects ==> {
                &&& *final(self) == (TreacheryState { phase: TreacheryPhase::Complete, ..*old(self) })
                &&& *final(selection) == *old(selection)
                &&& match (old(self).city_to_replace, old(self).beneficiary) {
                    (Some(c), Some(b)) => a matches CityAction::Transfer { cities, to } && cities@ == seq![c] && to == b,
                    (Some(c), None) => a matches CityAction::Reduce { cities } && cities@ == seq![c],
                    (None, _) => a is Nothing,
                }
            },
            old(self).phase == TreacheryPhase::Complete ==> a is Finish && *final(self) == *old(self)
                && *final(selection) == *old(selection),
    {
        match self.phase {
            TreacheryPhase::SelectCity => {
                if !is_human {
                    if victim_cities.len() > 0 {
                        self.city_to_replace = Some(victim_cities[0]);
                        self.beneficiary = traded_by;
                        self.phase = TreacheryPhase::ApplyEffects;
                    } else {
                        self.phase = TreacheryPhase::Complete;
                    }
                    CityAction::Nothing
                } else if awaiting {
                    CityAction::Nothing
                } else if selection.player == Some(victim) {
                    let chosen = selection.take_selected_cities();
                    if chosen.len() > 0 {
                        self.city_to_replace = Some(chosen[0]);
                        self.beneficiary = traded_by;
                    }
                    self.phase = TreacheryPhase::ApplyEffects;
                    CityAction::Nothing
                } else if victim_cities.len() == 0 {
                    self.phase = TreacheryPhase::Complete;
                    CityAction::Nothing
                } else {
                    selection.populate(victim, copy_entities(victim_cities), 1, "Treachery");
                    CityAction::AwaitChoice
                }
            },
            TreacheryPhase::ApplyEffects => {
                self.phase = TreacheryPhase::Complete;
                match (self.city_to_replace, self.beneficiary) {
                    (Some(c), Some(b)) => CityAction::Transfer { cities: vec![c], to: b },
                    (Some(c), None) => CityAction::Reduce { cities: vec![c] },
                    (None, _) => CityAction::Nothing,
                }
            },
            TreacheryPhase::Complete => CityAction::Finish,
        }
    }
}


/// The cities among `cities` that touch the sea, in order.
pub open spec fn coastal_of(s: Seq<BoardArea>, cities: Seq<Entity>) -> Seq<Entity>
    decreases cities.len(),
{
    if cities.len() == 0 {
        cities
    } else if coastal_at(s, cities.last()) {
        coastal_of(s, cities.drop_last()).push(cities.last())
    } else {
        coastal_of(s, cities.drop_last())
    }
}

pub fn coastal_cities(areas: &Vec<BoardArea>, cities: &Vec<Entity>) -> (r: Vec<Entity>)
    ensures
        r@ == coastal_of(areas@, cities@),
{
    let mut r: Vec<Entity> = Vec::new();
    let mut i: usize = 0;
    while i < cities.len()
        invariant
            i <= cities@.len(),
            r@ == coastal_of(areas@, cities@.take(i as int)),
        decreases cities@.len() - i,
    {
        assert(cities@.take(i + 1).drop_last() =~= cities@.take(i as int));
        assert(cities@.take(i + 1).last() == cities@[i as int]);
        if is_coastal(areas, cities[i]) {
            r.push(cities[i]);
        }
        i += 1;
    }
    assert(cities@.take(i as int) =~= cities@);
    r
}

/// Rule 30.911: the primary victim's cities the pirates take: their first
/// two coastal cities, or their first two cities when none is coastal.
pub open spec fn piracy_primary(s: Seq<BoardArea>, cities: Seq<Entity>) -> Seq<Entity> {
    if coastal_of(s, cities).len() > 0 {
        first_n(coastal_of(s, cities), 2)
    } else {
        first_n(cities, 2)
    }
}

/// Rule 30.912: one city from each player other than the victim and the
/// trader that owns any: their first coastal city, else their first city.
pub open spec fn piracy_candidates(
    s: Seq<BoardArea>,
    players: Seq<(Entity, Vec<Entity>)>,
    victim: Entity,
    immune: Option<Entity>,
) -> Seq<Entity>
    decreases players.len(),
{
    if players.len() == 0 {
        Seq::empty()
    } else {
        let rest = piracy_candidates(s, players.drop_last(), victim, immune);
        let q = players.last();
        if q.0 != victim && Some(q.0) != immune && q.1@.len() > 0 {
            rest.push(fallback_city(s, q.1@).unwrap())
        } else {
            rest
        }
    }
}

pub fn piracy_secondary_candidates(
    areas: &Vec<BoardArea>,
    players: &Vec<(Entity, Vec<Entity>)>,
    victim: Entity,
    immune: Option<Entity>,
) -> (r: Vec<Entity>)
    ensures
        r@ == piracy_candidates(areas@, players@, victim, immune),
{
    let mut r: Vec<Entity> = Vec::new();
    let mut i: usize = 0;
    while i < players.len()
        invariant
            i <= players@.len(),
            r@ == piracy_candidates(areas@, players@.take(i as int), victim, immune),
        decreases players@.len() - i,
    {
        assert(players@.take(i + 1).drop_last() =~= players@.take(i as int));
        assert(players@.take(i + 1).last() == players@[i as int]);
        let q = &players[i];
        if q.0 != victim && Some(q.0) != immune && q.1.len() > 0 {
            match choose_fallback_city(areas, &q.1) {
                Some(c) => r.push(c),
                None => {},
            }
        }
        i += 1;
    }
    assert(players@.take(i as int) =~= players@);
    r
}

/// The cities among `cities` where a city still stands, in order.
pub open spec fn still_built(s: Seq<BoardArea>, cities: Seq<Entity>) -> Seq<Entity>
    decreases cities.len(),
{
    if cities.len() == 0 {
        cities
    } else if city_owner_at(s, cities.last()) is Some {
        still_built(s, cities.drop_last()).push(cities.last())
    } else {
        still_built(s, cities.drop_last())
    }
}

pub fn cities_still_built(areas: &Vec<BoardArea>, cities: &Vec<Entity>) -> (r: Vec<Entity>)
    ensures
        r@ == still_built(areas@, cities@),
{
    let mut r: Vec<Entity> = Vec::new();
    let mut i: usize = 0;
    while i < cities.len()
        invariant
            i <= cities@.len(),
            r@ == still_built(areas@, cities@.take(i as int)),
        decreases cities@.len() - i,
    {
        assert(cities@.take(i + 1).drop_last() =~= cities@.take(i as int));
        assert(cities@.take(i + 1).last() == cities@[i as int]);
        if city_owner_of(areas, cities[i]).is_some() {
            r.push(cities[i]);
        }
        i += 1;
    }
    assert(cities@.take(i as int) =~= cities@);
    r
}

impl PiracyState {
    /// Records the Pirate nation that takes the cities.
    pub fn record_pirate_nation(&mut self, pirate: Entity)
        ensures
            *final(self) == (PiracyState {
                pirate_nation: Some(pirate),
                phase: PiracyPhase::SelectCoastalCities,
                ..*old(self)
            }),
    {
        self.pirate_nation = Some(pirate);
        self.phase = PiracyPhase::SelectCoastalCities;
    }

    /// One turn of Piracy for `victim`, owning `victim_cities`; `players`
    /// lists every player with their cities, and the card was traded by
    /// `traded_by`, if anyone.
    pub fn advance(
        &mut self,
        victim: Entity,
        victim_cities: &Vec<Entity>,
        players: &Vec<(Entity, Vec<Entity>)>,
        areas: &Vec<BoardArea>,
        traded_by: Option<Entity>,
        is_human: bool,
        awaiting: bool,
        selection: &mut CalamitySelectionState,
    ) -> (a: CityAction)
        ensures
            final(self).pirate_nation == old(self).pirate_nation,
            old(self).phase == PiracyPhase::EnsurePirateNation ==> a is NeedPirateNation
                && *final(self) == *old(self) && *final(selection) == *old(selection),
            old(self).phase == PiracyPhase::SelectCoastalCities ==> {
                &&& a is Nothing
                &&& *final(selection) == *old(selection)
                &&& final(self).phase == PiracyPhase::SelectSecondaryVictims
                &&& final(self).cities_to_replace@ == piracy_primary(areas@, victim_cities@)
                &&& final(self).secondary_cities == old(self).secondary_cities
            },
            old(self).phase == PiracyPhase::SelectSecondaryVictims ==> {
                let candidates = piracy_candidates(areas@, players@, victim, traded_by);
                &&& final(self).cities_to_replace == old(self).cities_to_replace
                &&& if is_human && old(selection).player is None && !awaiting {
                    if candidates.len() < 2 {
                        &&& a is Nothing
                        &&& *final(selection) == *old(selection)
                        &&& final(self).phase == PiracyPhase::ApplyEffects
                        &&& final(self).secondary_cities@ == candidates
                    } else {
                        &&& a is AwaitChoice
                        &&& final(self).phase == old(self).phase
                        &&& final(self).secondary_cities == old(self).secondary_cities
                        &&& final(selection).player == Some(victim)
                        &&& final(selection).available_cities@ == candidates
                        &&& final(selection).selected_cities@.len() == 0
                        &&& final(selection).required_count == 2
                        &&& final(selection).calamity_name@ == "Piracy — Select 2 secondary victims"@
                        &&& final(selection).current_index == 0
                    }
                } else if is_human && awaiting {
                    a is Nothing && *final(self) == *old(self) && *final(selection) == *old(selection)
                } else if is_human && old(selection).player == Some(victim) {
                    &&& a is Nothing
                    &&& final(selection).is_cleared()
                    &&& final(self).phase == PiracyPhase::ApplyEffects
                    &&& final(self).secondary_cities@ == old(selection).selected_cities@
                } else {
                    &&& a is Nothing
                    &&& *final(selection) == *old(selection)
                    &&& final(self).phase == PiracyPhase::ApplyEffects
                    &&& final(self).secondary_cities@ == first_n(candidates, 2)
                }
            },
            old(self).phase == PiracyPhase::ApplyEffects ==> {
                &&& *final(selection) == *old(selection)
                &&& final(self).phase == PiracyPhase::Complete
                &&& final(self).cities_to_replace == old(self).cities_to_replace
                &&& final(self).secondary_cities == old(self).secondary_cities
                &&& match old(self).pirate_nation {
                    Some(p) => a matches CityAction::Transfer { cities, to } && to == p && cities@ == still_built(
                        areas@,
                        old(self).cities_to_replace@ + old(self).secondary_cities@,
                    ),
                    None => a is Nothing,
                }
            },
            old(self).phase == PiracyPhase::Complete ==> a is Finish && *final(self) == *old(self)
                && *final(selection) == *old(selection),
    {
        match self.phase {
            PiracyPhase::EnsurePirateNation => CityAction::NeedPirateNation,
            PiracyPhase::SelectCoastalCities => {
                let coastal = coastal_cities(areas, victim_cities);
                self.cities_to_replace = if coastal.len() > 0 {
                    first_cities(&coastal, 2)
                } else {
                    first_cities(victim_cities, 2)
                };
                self.phase = PiracyPhase::SelectSecondaryVictims;
                CityAction::Nothing
            },
            PiracyPhase::SelectSecondaryVictims => {
                if is_human && selection.player.is_none() && !awaiting {
                    let available = piracy_secondary_candidates(areas, players, victim, traded_by);
                    if available.len() < 2 {
                        self.secondary_cities = available;
                        self.phase = PiracyPhase::ApplyEffects;
                        CityAction::Nothing
                    } else {
                        selection.populate(victim, available, 2, "Piracy — Select 2 secondary victims");
                        CityAction::AwaitChoice
                    }
                } else if is_human && awaiting {
                    CityAction::Nothing
                } else if is_human && selection.player == Some(victim) {
                    self.secondary_cities = selection.take_selected_cities();
                    self.phase = PiracyPhase::ApplyEffects;
                    CityAction::Nothing
                } else {
                    let available = piracy_secondary_candidates(areas, players, victim, traded_by);
                    self.secondary_cities = first_cities(&available, 2);
                    self.phase = PiracyPhase::ApplyEffects;
                    CityAction::Nothing
                }
            },
            PiracyPhase::ApplyEffects => {
                self.phase = PiracyPhase::Complete;
                match self.pirate_nation {
                    Some(p) => {
                        let all = concat_entities(&self.cities_to_replace, &self.secondary_cities);
                        CityAction::Transfer { cities: cities_still_built(areas, &all), to: p }
                    },
                    None => CityAction::Nothing,
                }
            },
            PiracyPhase::Complete => CityAction::Finish,
        }
    }
}

} // verus!
