use vstd::prelude::*;
use crate::calamities::civil_war::FactionChoice;
use crate::entity::Entity;
use crate::util::{
    contains_entity, first_index, next_index, prev_index, position_of, step_next, step_prev,
    lemma_first_index,
};

verus! {

/// Whether the acting player is the Civil War victim, the beneficiary, or
/// the victim choosing which faction to keep (rule 30.415).
#[derive(Debug, Default, Clone, PartialEq, Eq, Structural)]
pub enum CivilWarUiRole {
    #[default]
    Victim,
    Beneficiary,
    ChooseFaction,
}

/// A human's Civil War selection: tokens (as a count) and cities picked
/// towards a target of unit points (the victim must reach it, the
/// beneficiary may not exceed it), or the victim's faction choice.
#[derive(Debug)]
pub struct CivilWarSelectionState {
    pub acting_player: Option<Entity>,
    pub role: CivilWarUiRole,
    pub target_points: usize,
    pub total_available_tokens: usize,
    pub selected_token_count: usize,
    pub available_cities: Vec<Entity>,
    pub selected_cities: Vec<Entity>,
    pub current_city_index: usize,
    pub showing_cities: bool,
    pub first_faction_points: usize,
    pub second_faction_points: usize,
    pub chosen_faction: Option<FactionChoice>,
}

impl Default for CivilWarSelectionState {
    fn default() -> (s: Self)
        ensures
            s.is_cleared(),
    {
        CivilWarSelectionState {
            acting_player: None,
            role: CivilWarUiRole::Victim,
            target_points: 0,
            total_available_tokens: 0,
            selected_token_count: 0,
            available_cities: Vec::new(),
            selected_cities: Vec::new(),
            current_city_index: 0,
            showing_cities: false,
            first_faction_points: 0,
            second_faction_points: 0,
            chosen_faction: None,
        }
    }
}

impl CivilWarSelectionState {
    pub open spec fn is_cleared(self) -> bool {
        &&& self.acting_player is None
        &&& self.role == CivilWarUiRole::Victim
        &&& self.target_points == 0
        &&& self.total_available_tokens == 0
        &&& self.selected_token_count == 0
        &&& self.available_cities@.len() == 0
        &&& self.selected_cities@.len() == 0
        &&& self.current_city_index == 0
        &&& !self.showing_cities
        &&& self.first_faction_points == 0
        &&& self.second_faction_points == 0
        &&& self.chosen_faction is None
    }

    /// Unit points picked: one per token, five per city.
    pub open spec fn points(self) -> nat {
        self.selected_token_count as nat + 5 * self.selected_cities@.len()
    }

    pub open spec fn points_fit(self) -> bool {
        self.points() + 5 <= usize::MAX
    }

    pub open spec fn current(self) -> Option<Entity> {
        if self.current_city_index < self.available_cities@.len() {
            Some(self.available_cities@[self.current_city_index as int])
        } else {
            None
        }
    }

    /// Whether one more token may be picked.
    pub open spec fn may_add_token(self) -> bool {
        &&& self.selected_token_count < self.total_available_tokens
        &&& (self.role == CivilWarUiRole::Beneficiary ==> self.points() < self.target_points)
    }

    /// Whether `self` is `old` set up for a selection by `player` in `role`.
    pub open spec fn set_up_for(
        self,
        old: Self,
        player: Entity,
        role: CivilWarUiRole,
        tokens: usize,
        cities: Seq<Entity>,
        target: usize,
    ) -> bool {
        &&& self.acting_player == Some(player)
        &&& self.role == role
        &&& self.target_points == target
        &&& self.total_available_tokens == tokens
        &&& self.selected_token_count == 0
        &&& self.available_cities@ == cities
        &&& self.selected_cities@.len() == 0
        &&& self.current_city_index == 0
        &&& !self.showing_cities
        &&& self.first_faction_points == old.first_faction_points
        &&& self.second_faction_points == old.second_faction_points
        &&& self.chosen_faction == old.chosen_faction
    }

    /// The victim picks at least `target` points from `total_tokens` tokens and `cities`.
    pub fn populate_victim(&mut self, player: Entity, total_tokens: usize, cities: Vec<Entity>, target: usize)
        ensures
            final(self).set_up_for(*old(self), player, CivilWarUiRole::Victim, total_tokens, cities@, target),
    {
        self.acting_player = Some(player);
        self.role = CivilWarUiRole::Victim;
        self.target_points = target;
        self.total_available_tokens = total_tokens;
        self.selected_token_count = 0;
        self.available_cities = cities;
        self.selected_cities.clear();
        self.current_city_index = 0;
        self.showing_cities = false;
    }

    /// The beneficiary picks at most `target` points from what remains.
    pub fn populate_beneficiary(
        &mut self,
        player: Entity,
        pool_tokens: usize,
        pool_cities: Vec<Entity>,
        target: usize,
    )
        ensures
            final(self).set_up_for(
                *old(self),
                player,
                CivilWarUiRole::Beneficiary,
                pool_tokens,
                pool_cities@,
                target,
            ),
    {
        self.acting_player = Some(player);
        self.role = CivilWarUiRole::Beneficiary;
        self.target_points = target;
        self.total_available_tokens = pool_tokens;
        self.selected_token_count = 0;
        self.available_cities = pool_cities;
        self.selected_cities.clear();
        self.current_city_index = 0;
        self.showing_cities = false;
    }

    /// The victim chooses which faction to keep (rule 30.415).
    pub fn populate_faction_choice(&mut self, player: Entity, first_faction_points: usize, second_faction_points: usize)
        ensures
            *final(self) == (CivilWarSelectionState {
                acting_player: Some(player),
                role: CivilWarUiRole::ChooseFaction,
                first_faction_points,
                second_faction_points,
                chosen_faction: None,
                ..*old(self)
            }),
    {
        self.acting_player = Some(player);
        self.role = CivilWarUiRole::ChooseFaction;
        self.first_faction_points = first_faction_points;
        self.second_faction_points = second_faction_points;
        self.chosen_faction = None;
    }

    pub fn choose_faction(&mut self, choice: FactionChoice)
        ensures
            *final(self) == (CivilWarSelectionState { chosen_faction: Some(choice), ..*old(self) }),
    {
        self.chosen_faction = Some(choice);
    }

    /// The chosen faction; the state is cleared.
    pub fn take_faction_choice(&mut self) -> (c: Option<FactionChoice>)
        ensures
            c == old(self).chosen_faction,
            final(self).is_cleared(),
    {
        let choice = self.chosen_faction;
        self.clear();
        choice
    }

    pub fn clear(&mut self)
        ensures
            final(self).is_cleared(),
    {
        *self = Self::default();
    }

    pub fn current_points(&self) -> (p: usize)
        requires
            self.points() <= usize::MAX,
        ensures
            p == self.points(),
    {
        self.selected_token_count + self.selected_cities.len() * 5
    }

    /// The victim must reach the target; any pick of the beneficiary, and
    /// the faction choice, is valid.
    pub fn selection_valid(&self) -> (b: bool)
        requires
            self.points() <= usize::MAX,
        ensures
            b == match self.role {
                CivilWarUiRole::Victim => self.points() >= self.target_points,
                _ => true,
            },
    {
        match self.role {
            CivilWarUiRole::Victim => self.current_points() >= self.target_points,
            _ => true,
        }
    }

    /// Picks one more token, if one is left and, for the beneficiary, the
    /// target is not yet reached.
    pub fn increment_tokens(&mut self)
        ensures
            *final(self) == (CivilWarSelectionState {
                selected_token_count: if old(self).may_add_token() {
                    (old(self).selected_token_count + 1) as usize
                } else {
                    old(self).selected_token_count
                },
                ..*old(self)
            }),
            old(self).selected_token_count <= old(self).total_available_tokens ==> final(self).selected_token_count
                <= final(self).total_available_tokens,
            old(self).role == CivilWarUiRole::Beneficiary && old(self).points() <= old(self).target_points
                ==> final(self).points() <= final(self).target_points,
    {
        if self.selected_token_count < self.total_available_tokens {
            let room: bool = match self.role {
                CivilWarUiRole::Beneficiary => {
                    let cities = self.selected_cities.len();
                    if cities > self.target_points / 5 {
                        false
                    } else {
                        self.selected_token_count < self.target_points - cities * 5
                    }
                },
                _ => true,
            };
            if room {
                self.selected_token_count = self.selected_token_count + 1;
            }
        }
    }

    /// Puts back one picked token, if any.
    pub fn decrement_tokens(&mut self)
        ensures
            *final(self) == (CivilWarSelectionState {
                selected_token_count: if old(self).selected_token_count > 0 {
                    (old(self).selected_token_count - 1) as usize
                } else {
                    0
                },
                ..*old(self)
            }),
    {
        if self.selected_token_count > 0 {
            self.selected_token_count = self.selected_token_count - 1;
        }
    }

    pub fn current_city(&self) -> (c: Option<Entity>)
        ensures
            c == self.current(),
    {
        if self.current_city_index < self.available_cities.len() {
            Some(self.available_cities[self.current_city_index])
        } else {
            None
        }
    }

    pub fn next_city(&mut self)
        requires
            old(self).available_cities@.len() > 0 ==> old(self).current_city_index < usize::MAX,
        ensures
            *final(self) == (CivilWarSelectionState {
                current_city_index: next_index(
                    old(self).current_city_index as nat,
                    old(self).available_cities@.len(),
                ) as usize,
                ..*old(self)
            }),
    {
        self.current_city_index = step_next(self.current_city_index, self.available_cities.len());
    }

    pub fn prev_city(&mut self)
        ensures
            *final(self) == (CivilWarSelectionState {
                current_city_index: prev_index(
                    old(self).current_city_index as nat,
                    old(self).available_cities@.len(),
                ) as usize,
                ..*old(self)
            }),
    {
        self.current_city_index = step_prev(self.current_city_index, self.available_cities.len());
    }

    /// Unpicks the city under the cursor if picked; otherwise picks it,
    /// unless that would take the beneficiary past the target.
    pub fn toggle_current_city(&mut self)
        requires
            old(self).role == CivilWarUiRole::Beneficiary ==> old(self).points_fit(),
        ensures
            *final(self) == (CivilWarSelectionState {
                selected_cities: final(self).selected_cities,
                ..*old(self)
            }),
            final(self).selected_cities@ == match old(self).current() {
                None => old(self).selected_cities@,
                Some(c) => if old(self).selected_cities@.contains(c) {
                    old(self).selected_cities@.remove(first_index(old(self).selected_cities@, c))
                } else if old(self).role == CivilWarUiRole::Beneficiary && old(self).points() + 5
                    > old(self).target_points {
                    old(self).selected_cities@
                } else {
                    old(self).selected_cities@.push(c)
                },
            },
    {
        let city = match self.current_city() {
            Some(c) => c,
            None => return,
        };
        match position_of(&self.selected_cities, city) {
            Some(k) => {
                proof {
                    lemma_first_index(self.selected_cities@, city, k as int);
                }
                self.selected_cities.remove(k);
            },
            None => {
                if self.role == CivilWarUiRole::Beneficiary && self.current_points() + 5 > self.target_points {
                    return;
                }
                self.selected_cities.push(city);
            },
        }
    }

    pub fn is_current_city_selected(&self) -> (b: bool)
        ensures
            b == match self.current() {
                Some(c) => self.selected_cities@.contains(c),
                None => false,
            },
    {
        match self.current_city() {
            Some(city) => contains_entity(&self.selected_cities, city),
            None => false,
        }
    }

    /// The picked token count and cities; the state is cleared.
    pub fn take_result(&mut self) -> (r: (usize, Vec<Entity>))
        ensures
            r.0 == old(self).selected_token_count,
            r.1@ == old(self).selected_cities@,
            final(self).is_cleared(),
    {
        let tokens = self.selected_token_count;
        let mut cities: Vec<Entity> = Vec::new();
        std::mem::swap(&mut cities, &mut self.selected_cities);
        self.clear();
        (tokens, cities)
    }
}

/// A button of the Civil War panel.
#[derive(Debug, Clone, Copy, PartialEq, Eq, Structural)]
pub enum CivilWarButtonAction {
    TokensTab,
    CitiesTab,
    IncrementTokens,
    DecrementTokens,
    PrevCity,
    NextCity,
    ToggleCity,
    Confirm,
    KeepFirstFaction,
    KeepSecondFaction,
}

impl CivilWarSelectionState {
    /// A press of `action`. The tabs switch between tokens and cities; the
    /// others pick tokens or cities or move the cursor. `Confirm` with a
    /// valid pick, or a faction kept (rule 30.415), releases the human
    /// waiting on this choice when exactly one is waiting; a faction is
    /// recorded only then.
    pub fn handle_button(&mut self, action: CivilWarButtonAction, human_waiting: &Vec<Entity>) -> (released: Option<
        Entity,
    >)
        requires
            old(self).points_fit(),
            action == CivilWarButtonAction::NextCity && old(self).available_cities@.len() > 0
                ==> old(self).current_city_index < usize::MAX,
        ensures
            action == CivilWarButtonAction::TokensTab ==> *final(self) == (CivilWarSelectionState {
                showing_cities: false,
                ..*old(self)
            }),
            action == CivilWarButtonAction::CitiesTab ==> *final(self) == (CivilWarSelectionState {
                showing_cities: true,
                ..*old(self)
            }),
            action == CivilWarButtonAction::IncrementTokens ==> *final(self) == (CivilWarSelectionState {
                selected_token_count: if old(self).may_add_token() {
                    (old(self).selected_token_count + 1) as usize
                } else {
                    old(self).selected_token_count
                },
                ..*old(self)
            }),
            action == CivilWarButtonAction::DecrementTokens ==> *final(self) == (CivilWarSelectionState {
                selected_token_count: if old(self).selected_token_count > 0 {
                    (old(self).selected_token_count - 1) as usize
                } else {
                    0
                },
                ..*old(self)
            }),
            action == CivilWarButtonAction::PrevCity ==> *final(self) == (CivilWarSelectionState {
                current_city_index: prev_index(old(self).current_city_index as nat, old(self).available_cities@.len())
                    as usize,
                ..*old(self)
            }),
            action == CivilWarButtonAction::NextCity ==> *final(self) == (CivilWarSelectionState {
                current_city_index: next_index(old(self).current_city_index as nat, old(self).available_cities@.len())
                    as usize,
                ..*old(self)
            }),
            action == CivilWarButtonAction::ToggleCity ==> {
                &&& *final(self) == (CivilWarSelectionState { selected_cities: final(self).selected_cities, ..*old(self) })
                &&& final(self).selected_cities@ == match old(self).current() {
                    None => old(self).selected_cities@,
                    Some(c) => if old(self).selected_cities@.contains(c) {
                        old(self).selected_cities@.remove(first_index(old(self).selected_cities@, c))
                    } else if old(self).role == CivilWarUiRole::Beneficiary && old(self).points() + 5
                        > old(self).target_points {
                        old(self).selected_cities@
                    } else {
                        old(self).selected_cities@.push(c)
                    },
                }
            },
            action == CivilWarButtonAction::Confirm ==> *final(self) == *old(self),
            action == CivilWarButtonAction::KeepFirstFaction ==> *final(self) == if human_waiting@.len() == 1 {
                CivilWarSelectionState { chosen_faction: Some(FactionChoice::First), ..*old(self) }
            } else {
                *old(self)
            },
            action == CivilWarButtonAction::KeepSecondFaction ==> *final(self) == if human_waiting@.len() == 1 {
                CivilWarSelectionState { chosen_faction: Some(FactionChoice::Second), ..*old(self) }
            } else {
                *old(self)
            },
            released == if human_waiting@.len() == 1 && (action == CivilWarButtonAction::KeepFirstFaction || action
                == CivilWarButtonAction::KeepSecondFaction || (action == CivilWarButtonAction::Confirm && match old(
                self,
            ).role {
                CivilWarUiRole::Victim => old(self).points() >= old(self).target_points,
                _ => true,
            })) {
                Some(human_waiting@[0])
            } else {
                None
            },
    {
        match action {
            CivilWarButtonAction::TokensTab => {
                self.showing_cities = false;
                None
            },
            CivilWarButtonAction::CitiesTab => {
                self.showing_cities = true;
                None
            },
            CivilWarButtonAction::IncrementTokens => {
                self.increment_tokens();
                None
            },
            CivilWarButtonAction::DecrementTokens => {
                self.decrement_tokens();
                None
            },
            CivilWarButtonAction::PrevCity => {
                self.prev_city();
                None
            },
            CivilWarButtonAction::NextCity => {
                self.next_city();
                None
            },
            CivilWarButtonAction::ToggleCity => {
                self.toggle_current_city();
                None
            },
            CivilWarButtonAction::Confirm => {
                if self.selection_valid() && human_waiting.len() == 1 {
                    Some(human_waiting[0])
                } else {
                    None
                }
            },
            CivilWarButtonAction::KeepFirstFaction => {
                if human_waiting.len() == 1 {
                    self.choose_faction(FactionChoice::First);
                    Some(human_waiting[0])
                } else {
                    None
                }
            },
            CivilWarButtonAction::KeepSecondFaction => {
                if human_waiting.len() == 1 {
                    self.choose_faction(FactionChoice::Second);
                    Some(human_waiting[0])
                } else {
                    None
                }
            },
        }
    }
}

} // verus!
