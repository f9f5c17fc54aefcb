use vstd::prelude::*;
use crate::entity::Entity;
use crate::util::{
    contains_entity, next_index, prev_index, step_next, step_prev, toggle_entity, toggled,
};

verus! {

/// Marks the player whose calamity waits for a human selection.
#[derive(Debug, Default)]
pub struct AwaitingHumanCalamitySelection;

/// A human player's choice of which of their cities a calamity takes:
/// the offered cities, those chosen so far (at most `required_count`), and
/// a cursor over the offered ones.
#[derive(Debug)]
pub struct CalamitySelectionState {
    pub player: Option<Entity>,
    pub available_cities: Vec<Entity>,
    pub selected_cities: Vec<Entity>,
    pub required_count: usize,
    pub calamity_name: String,
    pub current_index: usize,
}

impl Default for CalamitySelectionState {
    fn default() -> (s: Self)
        ensures
            s.is_cleared(),
    {
        CalamitySelectionState {
            player: None,
            available_cities: Vec::new(),
            selected_cities: Vec::new(),
            required_count: 0,
            calamity_name: String::new(),
            current_index: 0,
        }
    }
}

impl CalamitySelectionState {
    /// The state holds no selection at all.
    pub open spec fn is_cleared(self) -> bool {
        &&& self.player is None
        &&& self.available_cities@.len() == 0
        &&& self.selected_cities@.len() == 0
        &&& self.required_count == 0
        &&& self.calamity_name@.len() == 0
        &&& self.current_index == 0
    }

    /// The city under the cursor, if the cursor is on one.
    pub open spec fn current(self) -> Option<Entity> {
        if self.current_index < self.available_cities@.len() {
            Some(self.available_cities@[self.current_index as int])
        } else {
            None
        }
    }

    /// Offers `available_cities` to `player`, who must choose `required_count`.
    pub fn populate(
        &mut self,
        player: Entity,
        available_cities: Vec<Entity>,
        required_count: usize,
        calamity_name: &str,
    )
        ensures
            final(self).player == Some(player),
            final(self).available_cities@ == available_cities@,
            final(self).selected_cities@.len() == 0,
            final(self).required_count == required_count,
            final(self).calamity_name@ == calamity_name@,
            final(self).current_index == 0,
    {
        self.player = Some(player);
        self.available_cities = available_cities;
        self.selected_cities.clear();
        self.required_count = required_count;
        self.calamity_name = calamity_name.to_owned();
        self.current_index = 0;
    }

    pub fn clear(&mut self)
        ensures
            final(self).is_cleared(),
    {
        *self = Self::default();
    }

    /// The chosen cities; the state is cleared.
    pub fn take_selected_cities(&mut self) -> (cities: Vec<Entity>)
        ensures
            cities@ == old(self).selected_cities@,
            final(self).is_cleared(),
    {
        let mut cities: Vec<Entity> = Vec::new();
        std::mem::swap(&mut cities, &mut self.selected_cities);
        self.clear();
        cities
    }

    pub fn current_city(&self) -> (c: Option<Entity>)
        ensures
            c == self.current(),
    {
        if self.current_index < self.available_cities.len() {
            Some(self.available_cities[self.current_index])
        } else {
            None
        }
    }

    /// Moves the cursor to the next city, wrapping around.
    pub fn next(&mut self)
        requires
            old(self).available_cities@.len() > 0 ==> old(self).current_index < usize::MAX,
        ensures
            *final(self) == (CalamitySelectionState {
                current_index: next_index(
                    old(self).current_index as nat,
                    old(self).available_cities@.len(),
                ) as usize,
                ..*old(self)
            }),
    {
        self.current_index = step_next(self.current_index, self.available_cities.len());
    }

    /// Moves the cursor to the previous city, wrapping around.
    pub fn prev(&mut self)
        ensures
            *final(self) == (CalamitySelectionState {
                current_index: prev_index(
                    old(self).current_index as nat,
                    old(self).available_cities@.len(),
                ) as usize,
                ..*old(self)
            }),
    {
        self.current_index = step_prev(self.current_index, self.available_cities.len());
    }

    /// Chooses the city under the cursor, or unchooses it if it was chosen;
    /// no more than `required_count` cities are ever chosen.
    pub fn toggle_current(&mut self)
        ensures
            *final(self) == (CalamitySelectionState {
                selected_cities: final(self).selected_cities,
                ..*old(self)
            }),
            final(self).selected_cities@ == match old(self).current() {
                Some(c) => toggled(old(self).selected_cities@, c, old(self).required_count as nat),
                None => old(self).selected_cities@,
            },
    {
        let city = match self.current_city() {
            Some(c) => c,
            None => return,
        };
        toggle_entity(&mut self.selected_cities, city, self.required_count);
    }

    pub fn is_current_selected(&self) -> (b: bool)
        ensures
            b == match self.current() {
                Some(c) => self.selected_cities@.contains(c),
                None => false,
            },
    {
        match self.current_city() {
            Some(city) => contains_entity(&self.selected_cities, city),
            None => false,
        }
    }

    pub fn selection_complete(&self) -> (b: bool)
        ensures
            b == (self.selected_cities@.len() >= self.required_count),
    {
        self.selected_cities.len() >= self.required_count
    }
}

/// Law: toggling never takes the chosen cities past the number required.
pub proof fn lemma_toggle_respects_required(s: Seq<Entity>, x: Entity, cap: nat)
    requires
        s.len() <= cap,
    ensures
        toggled(s, x, cap).len() <= cap,
{
    if s.contains(x) {
        crate::util::lemma_first_index_in_range(s, x);
    }
}

/// A button of the city selection panel.
#[derive(Debug, Clone, Copy, PartialEq, Eq, Structural)]
pub enum CalamitySelectionButtonAction {
    PrevCity,
    NextCity,
    ToggleCity,
    Confirm,
}

impl CalamitySelectionState {
    /// A press of `action`: moves the cursor or toggles the city under it;
    /// `Confirm` with enough cities chosen releases the human waiting on
    /// this choice, when exactly one is waiting.
    pub fn handle_button(
        &mut self,
        action: CalamitySelectionButtonAction,
        human_waiting: &Vec<Entity>,
    ) -> (released: Option<Entity>)
        requires
            action == CalamitySelectionButtonAction::NextCity && old(self).available_cities@.len() > 0
                ==> old(self).current_index < usize::MAX,
        ensures
            action == CalamitySelectionButtonAction::PrevCity ==> *final(self) == (CalamitySelectionState {
                current_index: prev_index(old(self).current_index as nat, old(self).available_cities@.len()) as usize,
                ..*old(self)
            }),
            action == CalamitySelectionButtonAction::NextCity ==> *final(self) == (CalamitySelectionState {
                current_index: next_index(old(self).current_index as nat, old(self).available_cities@.len()) as usize,
                ..*old(self)
            }),
            action == CalamitySelectionButtonAction::ToggleCity ==> {
                &&& *final(self) == (CalamitySelectionState { selected_cities: final(self).selected_cities, ..*old(self) })
                &&& final(self).selected_cities@ == match old(self).current() {
                    Some(c) => toggled(old(self).selected_cities@, c, old(self).required_count as nat),
                    None => old(self).selected_cities@,
                }
            },
            action == CalamitySelectionButtonAction::Confirm ==> *final(self) == *old(self),
            released == if action == CalamitySelectionButtonAction::Confirm && old(self).selected_cities@.len()
                >= old(self).required_count && human_waiting@.len() == 1 {
                Some(human_waiting@[0])
            } else {
                None
            },
    {
        match action {
            CalamitySelectionButtonAction::PrevCity => {
                self.prev();
                None
            },
            CalamitySelectionButtonAction::NextCity => {
                self.next();
                None
            },
            CalamitySelectionButtonAction::ToggleCity => {
                self.toggle_current();
                None
            },
            CalamitySelectionButtonAction::Confirm => {
                if self.selection_complete() && human_waiting.len() == 1 {
                    Some(human_waiting[0])
                } else {
                    None
                }
            },
        }
    }
}

} // verus!
