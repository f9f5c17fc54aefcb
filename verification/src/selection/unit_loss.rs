use vstd::prelude::*;
use crate::entity::Entity;
use crate::selection::budget::{
    lowered, raised,
    allocated_sum, available_sum, lemma_sum_allocated_update, rows_within_available,
    sum_allocated, sum_available,
};
use crate::util::{next_index, prev_index, step_next, step_prev};

verus! {

/// A city counts as up to five unit points when resolving a calamity (rule 29.62).
pub const CITY_UNIT_POINTS: usize = 5;

/// Number of selected cities.
pub open spec fn count_selected(c: Seq<(Entity, bool)>) -> nat
    decreases c.len(),
{
    if c.len() == 0 {
        0
    } else {
        count_selected(c.drop_last()) + if c.last().1 { 1nat } else { 0nat }
    }
}

/// The selected cities, in order.
pub open spec fn selected_of(c: Seq<(Entity, bool)>) -> Seq<Entity>
    decreases c.len(),
{
    if c.len() == 0 {
        Seq::empty()
    } else if c.last().1 {
        selected_of(c.drop_last()).push(c.last().0)
    } else {
        selected_of(c.drop_last())
    }
}

/// The (area, tokens) losses of the areas that lose any, in order.
pub open spec fn losses_of(a: Seq<(Entity, usize, usize)>) -> Seq<(Entity, usize)>
    decreases a.len(),
{
    if a.len() == 0 {
        Seq::empty()
    } else if a.last().2 > 0 {
        losses_of(a.drop_last()).push((a.last().0, a.last().2))
    } else {
        losses_of(a.drop_last())
    }
}

/// Points that must be given up for a loss of `budget` by a player with
/// `tokens` tokens and `cities` cities (rule 29.63): the loss, or all the
/// player has if less; when the tokens fall short, the fewest cities that
/// cover the rest are added, which may overshoot.
pub open spec fn minimal_total(budget: nat, tokens: nat, cities: nat) -> nat {
    let available = tokens + 5 * cities;
    let required = if budget <= available { budget } else { available };
    if required <= tokens {
        required
    } else {
        let short = (required - tokens) as nat;
        let needed = if short % 5 == 0 { short / 5 } else { short / 5 + 1 };
        if required >= 5 * needed { required } else { 5 * needed }
    }
}

/// Points handed over by giving up `tokens` tokens and `cities` cities.
pub open spec fn handover(tokens: nat, cities: nat) -> nat {
    tokens + 5 * cities
}

/// Law (rule 29.63): the points a player must give up are the least total
/// they can actually hand over (tokens at one point, cities at five) that
/// meets the loss, or everything they have when that is less.
pub proof fn lemma_minimal_total_is_least(budget: nat, tokens: nat, cities: nat)
    ensures
        ({
            let m = minimal_total(budget, tokens, cities);
            let required = if budget <= tokens + 5 * cities { budget } else { tokens + 5 * cities };
            &&& m >= required
            &&& exists|t: nat, c: nat| t <= tokens && c <= cities && #[trigger] handover(t, c) == m
            &&& forall|t: nat, c: nat|
                t <= tokens && c <= cities && #[trigger] handover(t, c) >= required ==> handover(t, c) >= m
        }),
{
    let m = minimal_total(budget, tokens, cities);
    let required = if budget <= tokens + 5 * cities { budget } else { tokens + 5 * cities };
    if required <= tokens {
        assert(handover(required, 0) == m);
    } else {
        let short = (required - tokens) as nat;
        let needed = if short % 5 == 0 { short / 5 } else { short / 5 + 1 };
        assert(needed <= cities);
        if required >= 5 * needed {
            let t = (required - 5 * needed) as nat;
            assert(handover(t, needed) == m);
        } else {
            assert(handover(0, needed) == m);
        }
        assert forall|t: nat, c: nat|
            t <= tokens && c <= cities && #[trigger] handover(t, c) >= required implies handover(t, c) >= m by {
            assert(5 * c >= short);
            assert(c >= needed);
        }
    }
}

/// A victim's choice of which units to give up for a unit-point loss
/// (rules 29.62/29.63): per area (area, available tokens, tokens given), the
/// cities that may be given instead with whether each is, and cursors.
#[derive(Debug)]
pub struct UnitLossSelectionState {
    pub acting_player: Option<Entity>,
    pub calamity_name: String,
    pub total_budget: usize,
    pub areas: Vec<(Entity, usize, usize)>,
    pub current_area_index: usize,
    pub cities: Vec<(Entity, bool)>,
    pub current_city_index: usize,
}

impl Default for UnitLossSelectionState {
    fn default() -> (s: Self)
        ensures
            s.is_cleared(),
    {
        UnitLossSelectionState {
            acting_player: None,
            calamity_name: String::new(),
            total_budget: 0,
            areas: Vec::new(),
            current_area_index: 0,
            cities: Vec::new(),
            current_city_index: 0,
        }
    }
}

impl UnitLossSelectionState {
    pub open spec fn is_cleared(self) -> bool {
        &&& self.acting_player is None
        &&& self.calamity_name@.len() == 0
        &&& self.total_budget == 0
        &&& self.areas@.len() == 0
        &&& self.current_area_index == 0
        &&& self.cities@.len() == 0
        &&& self.current_city_index == 0
    }

    /// Points given up so far.
    pub open spec fn allocated(self) -> nat {
        sum_allocated(self.areas@) + 5 * count_selected(self.cities@)
    }

    /// Points the player could give up at most.
    pub open spec fn available(self) -> nat {
        sum_available(self.areas@) + 5 * self.cities@.len()
    }

    pub open spec fn alloc_fits(self) -> bool {
        self.allocated() <= usize::MAX
    }

    pub open spec fn avail_fits(self) -> bool {
        self.available() <= usize::MAX
    }

    /// The points that must be given up.
    pub open spec fn minimal(self) -> nat {
        minimal_total(self.total_budget as nat, sum_available(self.areas@), self.cities@.len())
    }

    pub open spec fn remaining_points(self) -> nat {
        if self.allocated() <= self.minimal() { (self.minimal() - self.allocated()) as nat } else { 0 }
    }

    pub open spec fn current_area_row(self) -> Option<(Entity, usize, usize)> {
        if self.current_area_index < self.areas@.len() {
            Some(self.areas@[self.current_area_index as int])
        } else {
            None
        }
    }

    pub open spec fn current_city_row(self) -> Option<(Entity, bool)> {
        if self.current_city_index < self.cities@.len() {
            Some(self.cities@[self.current_city_index as int])
        } else {
            None
        }
    }

    /// Asks `player` to give up `total_budget` unit points for `calamity_name`
    /// from `areas` (each with the tokens that may go) or `cities`.
    pub fn populate(
        &mut self,
        player: Entity,
        calamity_name: &str,
        areas: Vec<(Entity, usize)>,
        cities: Vec<Entity>,
        total_budget: usize,
    )
        ensures
            final(self).acting_player == Some(player),
            final(self).calamity_name@ == calamity_name@,
            final(self).total_budget == total_budget,
            final(self).areas@ == crate::selection::budget::fresh_rows(areas@),
            final(self).current_area_index == 0,
            final(self).cities@ == Seq::new(cities@.len(), |i: int| (cities@[i], false)),
            final(self).current_city_index == 0,
    {
        self.acting_player = Some(player);
        self.calamity_name = calamity_name.to_owned();
        self.total_budget = total_budget;
        self.areas = crate::selection::budget::make_fresh_rows(areas);
        self.current_area_index = 0;
        let mut rows: Vec<(Entity, bool)> = Vec::new();
        let mut i: usize = 0;
        while i < cities.len()
            invariant
                i <= cities@.len(),
                rows@ == Seq::new(i as nat, |j: int| (cities@[j], false)),
            decreases cities@.len() - i,
        {
            rows.push((cities[i], false));
            assert(rows@ =~= Seq::new((i + 1) as nat, |j: int| (cities@[j], false)));
            i += 1;
        }
        self.cities = rows;
        self.current_city_index = 0;
    }

    pub fn clear(&mut self)
        ensures
            final(self).is_cleared(),
    {
        *self = Self::default();
    }

    pub fn allocated_total(&self) -> (t: usize)
        requires
            self.alloc_fits(),
        ensures
            t == self.allocated(),
    {
        self.tokens_allocated() + self.cities_allocated() * CITY_UNIT_POINTS
    }

    pub fn tokens_allocated(&self) -> (t: usize)
        requires
            sum_allocated(self.areas@) <= usize::MAX,
        ensures
            t == sum_allocated(self.areas@),
    {
        allocated_sum(&self.areas)
    }

    pub fn cities_allocated(&self) -> (n: usize)
        ensures
            n == count_selected(self.cities@),
    {
        let mut n: usize = 0;
        let mut i: usize = 0;
        while i < self.cities.len()
            invariant
                i <= self.cities@.len(),
                n == count_selected(self.cities@.take(i as int)),
                n <= i,
            decreases self.cities@.len() - i,
        {
            assert(self.cities@.take(i + 1).drop_last() =~= self.cities@.take(i as int));
            if self.cities[i].1 {
                n += 1;
            }
            i += 1;
        }
        assert(self.cities@.take(i as int) =~= self.cities@);
        n
    }

    pub fn total_available(&self) -> (t: usize)
        requires
            self.avail_fits(),
        ensures
            t == self.available(),
    {
        self.tokens_available() + self.cities.len() * CITY_UNIT_POINTS
    }

    /// The cities given up, in order.
    pub fn selected_cities(&self) -> (r: Vec<Entity>)
        ensures
            r@ == selected_of(self.cities@),
    {
        let mut r: Vec<Entity> = Vec::new();
        let mut i: usize = 0;
        while i < self.cities.len()
            invariant
                i <= self.cities@.len(),
                r@ == selected_of(self.cities@.take(i as int)),
            decreases self.cities@.len() - i,
        {
            assert(self.cities@.take(i + 1).drop_last() =~= self.cities@.take(i as int));
            if self.cities[i].1 {
                r.push(self.cities[i].0);
            }
            i += 1;
        }
        assert(self.cities@.take(i as int) =~= self.cities@);
        r
    }

    pub fn current_city(&self) -> (c: Option<(Entity, bool)>)
        ensures
            c == self.current_city_row(),
    {
        if self.current_city_index < self.cities.len() {
            Some(self.cities[self.current_city_index])
        } else {
            None
        }
    }

    pub fn next_city(&mut self)
        requires
            old(self).cities@.len() > 0 ==> old(self).current_city_index < usize::MAX,
        ensures
            *final(self) == (UnitLossSelectionState {
                current_city_index: next_index(
                    old(self).current_city_index as nat,
                    old(self).cities@.len(),
                ) as usize,
                ..*old(self)
            }),
    {
        self.current_city_index = step_next(self.current_city_index, self.cities.len());
    }

    pub fn prev_city(&mut self)
        ensures
            *final(self) == (UnitLossSelectionState {
                current_city_index: prev_index(
                    old(self).current_city_index as nat,
                    old(self).cities@.len(),
                ) as usize,
                ..*old(self)
            }),
    {
        self.current_city_index = step_prev(self.current_city_index, self.cities.len());
    }

    /// Flips whether the city under the cursor is given up; returns whether
    /// the cursor was on a city.
    pub fn toggle_current_city(&mut self) -> (changed: bool)
        ensures
            changed == (old(self).current_city_index < old(self).cities@.len()),
            changed ==> ({
                let i = old(self).current_city_index as int;
                let c = old(self).cities@[i];
                final(self).cities@ == old(self).cities@.update(i, (c.0, !c.1))
            }),
            !changed ==> final(self).cities@ == old(self).cities@,
            *final(self) == (UnitLossSelectionState { cities: final(self).cities, ..*old(self) }),
    {
        let idx = self.current_city_index;
        if idx < self.cities.len() {
            let (city, selected) = self.cities[idx];
            self.cities.set(idx, (city, !selected));
            return true;
        }
        false
    }

    /// The loss, or everything the player has when that is less.
    pub fn required_total(&self) -> (r: usize)
        requires
            self.avail_fits(),
        ensures
            r == if self.total_budget <= self.available() { self.total_budget as nat } else { self.available() },
    {
        let available = self.total_available();
        if self.total_budget <= available { self.total_budget } else { available }
    }

    /// Points still to be given up.
    pub fn remaining(&self) -> (r: usize)
        requires
            self.avail_fits(),
            self.alloc_fits(),
        ensures
            r == self.remaining_points(),
    {
        let minimal = self.minimal_valid_total();
        let allocated = self.allocated_total();
        if allocated <= minimal { minimal - allocated } else { 0 }
    }

    pub fn current_area(&self) -> (c: Option<(Entity, usize, usize)>)
        ensures
            c == self.current_area_row(),
    {
        if self.current_area_index < self.areas.len() {
            Some(self.areas[self.current_area_index])
        } else {
            None
        }
    }

    pub fn next_area(&mut self)
        requires
            old(self).areas@.len() > 0 ==> old(self).current_area_index < usize::MAX,
        ensures
            *final(self) == (UnitLossSelectionState {
                current_area_index: next_index(
                    old(self).current_area_index as nat,
                    old(self).areas@.len(),
                ) as usize,
                ..*old(self)
            }),
    {
        self.current_area_index = step_next(self.current_area_index, self.areas.len());
    }

    pub fn prev_area(&mut self)
        ensures
            *final(self) == (UnitLossSelectionState {
                current_area_index: prev_index(
                    old(self).current_area_index as nat,
                    old(self).areas@.len(),
                ) as usize,
                ..*old(self)
            }),
    {
        self.current_area_index = step_prev(self.current_area_index, self.areas.len());
    }

    /// Gives up one more token from the area under the cursor, if points are
    /// still owed and the area has one to spare; returns whether anything
    /// changed.
    pub fn increment_current(&mut self) -> (changed: bool)
        requires
            old(self).avail_fits(),
            old(self).alloc_fits(),
        ensures
            changed == (old(self).remaining_points() > 0 && (match old(self).current_area_row() {
                Some(r) => r.2 < r.1,
                None => false,
            })),
            changed ==> final(self).areas@ == raised(old(self).areas@, old(self).current_area_index as int),
            !changed ==> final(self).areas@ == old(self).areas@,
            *final(self) == (UnitLossSelectionState { areas: final(self).areas, ..*old(self) }),
            final(self).avail_fits(),
            final(self).alloc_fits(),
            rows_within_available(old(self).areas@) ==> rows_within_available(final(self).areas@),
    {
        if self.remaining() == 0 {
            return false;
        }
        let idx = self.current_area_index;
        if idx < self.areas.len() {
            let (area, available, allocated) = self.areas[idx];
            if allocated < available {
                proof {
                    lemma_sum_allocated_update(self.areas@, idx as int, (area, available, (allocated + 1) as usize));
                    lemma_minimal_le_available(
                        self.total_budget as nat,
                        sum_available(self.areas@),
                        self.cities@.len(),
                    );
                }
                self.areas.set(idx, (area, available, allocated + 1));
                return true;
            }
        }
        false
    }

    /// Takes back one token from the area under the cursor, if it gave any;
    /// returns whether anything changed.
    pub fn decrement_current(&mut self) -> (changed: bool)
        ensures
            changed == (match old(self).current_area_row() {
                Some(r) => r.2 > 0,
                None => false,
            }),
            changed ==> final(self).areas@ == lowered(old(self).areas@, old(self).current_area_index as int),
            !changed ==> final(self).areas@ == old(self).areas@,
            *final(self) == (UnitLossSelectionState { areas: final(self).areas, ..*old(self) }),
            old(self).avail_fits() ==> final(self).avail_fits(),
            old(self).alloc_fits() ==> final(self).alloc_fits(),
            rows_within_available(old(self).areas@) ==> rows_within_available(final(self).areas@),
    {
        let idx = self.current_area_index;
        if idx < self.areas.len() {
            let (area, available, allocated) = self.areas[idx];
            if allocated > 0 {
                proof {
                    lemma_sum_allocated_update(self.areas@, idx as int, (area, available, (allocated - 1) as usize));
                }
                self.areas.set(idx, (area, available, allocated - 1));
                return true;
            }
        }
        false
    }

    /// The points that must be given up (rule 29.63); see [`minimal_total`].
    pub fn minimal_valid_total(&self) -> (m: usize)
        requires
            self.avail_fits(),
        ensures
            m == self.minimal(),
    {
        let required = self.required_total();
        let tokens = self.tokens_available();
        if required <= tokens {
            return required;
        }
        let short = required - tokens;
        let needed = if short % CITY_UNIT_POINTS == 0 {
            short / CITY_UNIT_POINTS
        } else {
            short / CITY_UNIT_POINTS + 1
        };
        assert(needed <= self.cities@.len());
        let city_points = needed * CITY_UNIT_POINTS;
        if required >= city_points { required } else { city_points }
    }

    pub fn tokens_available(&self) -> (t: usize)
        requires
            sum_available(self.areas@) <= usize::MAX,
        ensures
            t == sum_available(self.areas@),
    {
        available_sum(&self.areas)
    }

    /// Exactly the points that must be given up are given up.
    pub fn selection_valid(&self) -> (b: bool)
        requires
            self.avail_fits(),
            self.alloc_fits(),
        ensures
            b == (self.allocated() == self.minimal()),
    {
        self.allocated_total() == self.minimal_valid_total()
    }

    /// The per-area token losses (areas that lose none left out) and the
    /// cities given up; the state is cleared.
    pub fn take_allocation(&mut self) -> (r: (Vec<(Entity, usize)>, Vec<Entity>))
        ensures
            r.0@ == losses_of(old(self).areas@),
            r.1@ == selected_of(old(self).cities@),
            final(self).is_cleared(),
    {
        let mut tokens: Vec<(Entity, usize)> = Vec::new();
        let mut i: usize = 0;
        while i < self.areas.len()
            invariant
                i <= self.areas@.len(),
                tokens@ == losses_of(self.areas@.take(i as int)),
            decreases self.areas@.len() - i,
        {
            assert(self.areas@.take(i + 1).drop_last() =~= self.areas@.take(i as int));
            let (area, _, allocated) = self.areas[i];
            if allocated > 0 {
                tokens.push((area, allocated));
            }
            i += 1;
        }
        assert(self.areas@.take(i as int) =~= self.areas@);
        let cities = self.selected_cities();
        self.clear();
        (tokens, cities)
    }
}

proof fn lemma_minimal_le_available(budget: nat, tokens: nat, cities: nat)
    ensures
        minimal_total(budget, tokens, cities) <= tokens + 5 * cities,
{
}

/// A button of the unit-loss panel.
#[derive(Debug, Clone, Copy, PartialEq, Eq, Structural)]
pub enum UnitLossButtonAction {
    PrevArea,
    NextArea,
    Increment,
    Decrement,
    PrevCity,
    NextCity,
    ToggleCity,
    Confirm,
}

impl UnitLossSelectionState {
    /// A press of `action`: moves a cursor, changes the tokens given up in
    /// the area under it, or flips the city under it; `Confirm` with exactly
    /// the points owed given up releases the acting player, when they are
    /// among the humans waiting (others may wait on another choice).
    pub fn handle_button(&mut self, action: UnitLossButtonAction, human_waiting: &Vec<Entity>) -> (released: Option<
        Entity,
    >)
        requires
            old(self).avail_fits(),
            old(self).alloc_fits(),
            action == UnitLossButtonAction::NextArea && old(self).areas@.len() > 0 ==> old(self).current_area_index
                < usize::MAX,
            action == UnitLossButtonAction::NextCity && old(self).cities@.len() > 0 ==> old(self).current_city_index
                < usize::MAX,
        ensures
            action == UnitLossButtonAction::PrevArea ==> *final(self) == (UnitLossSelectionState {
                current_area_index: prev_index(old(self).current_area_index as nat, old(self).areas@.len()) as usize,
                ..*old(self)
            }),
            action == UnitLossButtonAction::NextArea ==> *final(self) == (UnitLossSelectionState {
                current_area_index: next_index(old(self).current_area_index as nat, old(self).areas@.len()) as usize,
                ..*old(self)
            }),
            action == UnitLossButtonAction::PrevCity ==> *final(self) == (UnitLossSelectionState {
                current_city_index: prev_index(old(self).current_city_index as nat, old(self).cities@.len()) as usize,
                ..*old(self)
            }),
            action == UnitLossButtonAction::NextCity ==> *final(self) == (UnitLossSelectionState {
                current_city_index: next_index(old(self).current_city_index as nat, old(self).cities@.len()) as usize,
                ..*old(self)
            }),
            action == UnitLossButtonAction::Increment ==> {
                &&& *final(self) == (UnitLossSelectionState { areas: final(self).areas, ..*old(self) })
                &&& final(self).areas@ == match old(self).current_area_row() {
                    Some(r) => if old(self).remaining_points() > 0 && r.2 < r.1 {
                        raised(old(self).areas@, old(self).current_area_index as int)
                    } else {
                        old(self).areas@
                    },
                    None => old(self).areas@,
                }
            },
            action == UnitLossButtonAction::Decrement ==> {
                &&& *final(self) == (UnitLossSelectionState { areas: final(self).areas, ..*old(self) })
                &&& final(self).areas@ == match old(self).current_area_row() {
                    Some(r) => if r.2 > 0 {
                        lowered(old(self).areas@, old(self).current_area_index as int)
                    } else {
                        old(self).areas@
                    },
                    None => old(self).areas@,
                }
            },
            action == UnitLossButtonAction::ToggleCity ==> {
                &&& *final(self) == (UnitLossSelectionState { cities: final(self).cities, ..*old(self) })
                &&& final(self).cities@ == if old(self).current_city_index < old(self).cities@.len() {
                    let c = old(self).cities@[old(self).current_city_index as int];
                    old(self).cities@.update(old(self).current_city_index as int, (c.0, !c.1))
                } else {
                    old(self).cities@
                }
            },
            action == UnitLossButtonAction::Confirm ==> *final(self) == *old(self),
            released == match old(self).acting_player {
                Some(a) => if action == UnitLossButtonAction::Confirm && old(self).allocated() == old(self).minimal()
                    && human_waiting@.contains(a) {
                    Some(a)
                } else {
                    None
                },
                None => None,
            },
    {
        match action {
            UnitLossButtonAction::PrevArea => {
                self.prev_area();
                None
            },
            UnitLossButtonAction::NextArea => {
                self.next_area();
                None
            },
            UnitLossButtonAction::Increment => {
                self.increment_current();
                None
            },
            UnitLossButtonAction::Decrement => {
                self.decrement_current();
                None
            },
            UnitLossButtonAction::PrevCity => {
                self.prev_city();
                None
            },
            UnitLossButtonAction::NextCity => {
                self.next_city();
                None
            },
            UnitLossButtonAction::ToggleCity => {
                self.toggle_current_city();
                None
            },
            UnitLossButtonAction::Confirm => {
                if self.selection_valid() {
                    match self.acting_player {
                        Some(a) => if crate::util::contains_entity(human_waiting, a) {
                            Some(a)
                        } else {
                            None
                        },
                        None => None,
                    }
                } else {
                    None
                }
            },
        }
    }
}

} // verus!
