//! Flood, turn by turn (rule 30.51): the flood plain where the victim has
//! most, the losses there, or one coastal city when no flood plain holds
//! the victim's units.
use vstd::prelude::*;
use crate::calamities::flood::{allocate_secondary_loss, FloodPhase, FloodState};
use crate::calamities::secondary_loss::{secondary_allocation, sum_points};
use crate::entity::Entity;
use crate::resolution::board::{
    city_owner_at, city_owner_of, coastal_at, find_area, is_coastal, lookup, tokens_at, tokens_at_area,
    BoardArea,
};
use crate::resolution::secondary::{
    choice_step, needs_choice, next_choice_step, others_of, others_than, ChoiceStep,
};
use crate::selection::budget::{fresh_rows, row_results};
use crate::selection::flood::FloodSelectionState;

verus! {

/// What becomes of a city a calamity takes.
#[derive(Debug, Clone, Copy, PartialEq, Eq, Structural)]
pub enum CityLoss {
    Reduce,
    Destroy,
}

/// Engineering turns the loss of a city into its reduction.
pub open spec fn city_loss_for(has_engineering: bool) -> CityLoss {
    if has_engineering { CityLoss::Reduce } else { CityLoss::Destroy }
}

/// What one turn of a Flood does to the board.
#[derive(Debug, Clone)]
pub enum FloodAction {
    /// Nothing on the board changes.
    Nothing,
    /// The primary victim's losses on the flood plain `area`.
    PrimaryLoss { area: Entity, city: Option<CityLoss>, tokens: usize },
    /// The human primary victim is asked to divide the secondary loss.
    AwaitChoice,
    /// Tokens each secondary victim loses on the flood plain `area`.
    SecondaryLoss { area: Entity, losses: Vec<(Entity, usize)> },
    /// The primary victim's city in `area` is lost instead (rule 30.514).
    LoseCity { area: Entity, loss: CityLoss },
    /// The Flood is over.
    Finish,
}

/// Rule 30.51: the flood plain chosen is `plains[i]`: the victim has tokens
/// there, nowhere more, and fewer on every plain listed before it.
pub open spec fn is_best_plain(s: Seq<BoardArea>, plains: Seq<Entity>, p: Entity, i: int) -> bool {
    &&& 0 <= i < plains.len()
    &&& tokens_at(s, plains[i], p) > 0
    &&& forall|j: int| 0 <= j < plains.len() ==> tokens_at(s, #[trigger] plains[j], p) <= tokens_at(s, plains[i], p)
    &&& forall|j: int| 0 <= j < i ==> tokens_at(s, #[trigger] plains[j], p) < tokens_at(s, plains[i], p)
}

/// Unit points the primary victim may still lose once their city on the
/// plain is paid for (five, or all there is).
pub open spec fn flood_cap_after_city(cap: nat, owns_city: bool) -> nat {
    if owns_city && cap > 0 {
        if cap <= 5 { 0 } else { (cap - 5) as nat }
    } else {
        cap
    }
}

/// The flood plain where the victim has most tokens (the first among
/// equals), if they have any on a flood plain.
pub fn choose_flood_plain(plains: &Vec<Entity>, areas: &Vec<BoardArea>, victim: Entity) -> (r: Option<Entity>)
    ensures
        r is None <==> forall|j: int| 0 <= j < plains@.len() ==> tokens_at(areas@, #[trigger] plains@[j], victim) == 0,
        r matches Some(x) ==> exists|i: int| is_best_plain(areas@, plains@, victim, i) && plains@[i] == x,
{
    let mut best: Option<usize> = None;
    let mut best_pts: usize = 0;
    let mut k: usize = 0;
    while k < plains.len()
        invariant
            k <= plains@.len(),
            best is None ==> best_pts == 0,
            forall|j: int| 0 <= j < k ==> tokens_at(areas@, #[trigger] plains@[j], victim) <= best_pts,
            best matches Some(i) ==> {
                &&& i < k
                &&& best_pts == tokens_at(areas@, plains@[i as int], victim)
                &&& best_pts > 0
                &&& forall|j: int| 0 <= j < i ==> tokens_at(areas@, #[trigger] plains@[j], victim) < best_pts
            },
        decreases plains@.len() - k,
    {
        let pts = tokens_at_area(areas, plains[k], victim);
        if pts > best_pts {
            best = Some(k);
            best_pts = pts;
        }
        k += 1;
    }
    match best {
        None => None,
        Some(i) => {
            assert(is_best_plain(areas@, plains@, victim, i as int));
            Some(plains[i])
        },
    }
}

/// Rule 30.514: the victim's first city touching the sea, or failing that
/// their first city.
pub open spec fn fallback_city(s: Seq<BoardArea>, cities: Seq<Entity>) -> Option<Entity> {
    if exists|k: int| 0 <= k < cities.len() && coastal_at(s, #[trigger] cities[k]) {
        let k = choose|k: int|
            0 <= k < cities.len() && coastal_at(s, #[trigger] cities[k]) && forall|j: int|
                0 <= j < k ==> !coastal_at(s, #[trigger] cities[j]);
        Some(cities[k])
    } else if cities.len() > 0 {
        Some(cities[0])
    } else {
        None
    }
}

pub fn choose_fallback_city(areas: &Vec<BoardArea>, cities: &Vec<Entity>) -> (r: Option<Entity>)
    ensures
        r == fallback_city(areas@, cities@),
{
    let mut k: usize = 0;
    while k < cities.len()
        invariant
            k <= cities@.len(),
            forall|j: int| 0 <= j < k ==> !coastal_at(areas@, #[trigger] cities@[j]),
        decreases cities@.len() - k,
    {
        if is_coastal(areas, cities[k]) {
            proof {
                let w = choose|w: int|
                    0 <= w < cities@.len() && coastal_at(areas@, #[trigger] cities@[w]) && forall|j: int|
                        0 <= j < w ==> !coastal_at(areas@, #[trigger] cities@[j]);
                assert(coastal_at(areas@, cities@[k as int]));
                if w < k {
                    assert(!coastal_at(areas@, cities@[w]));
                }
                if w > k {
                    assert(!coastal_at(areas@, cities@[k as int]));
                }
            }
            return Some(cities[k]);
        }
        k += 1;
    }
    if cities.len() > 0 {
        Some(cities[0])
    } else {
        None
    }
}

/// The population of the flood plain, if the map describes it.
pub open spec fn plain_population(s: Seq<BoardArea>, plain: Entity) -> Option<Seq<(Entity, usize)>> {
    match lookup(s, plain) {
        Some(a) => Some(a.population@),
        None => None,
    }
}

impl FloodState {
    /// One turn of the Flood for `victim`: the flood plains, the map, the
    /// victim's cities, and the state of the human's division of the
    /// secondary loss decide the next phase and what happens to the board.
    #[verifier::rlimit(40)]
    pub fn advance(
        &mut self,
        victim: Entity,
        flood_plains: &Vec<Entity>,
        areas: &Vec<BoardArea>,
        victim_cities: &Vec<Entity>,
        is_human: bool,
        awaiting: bool,
        selection: &mut FloodSelectionState,
    ) -> (a: FloodAction)
        ensures
            final(self).primary_max_loss == old(self).primary_max_loss,
            final(self).has_engineering == old(self).has_engineering,
            final(self).fallback_city == old(self).fallback_city,
            // Rule 30.51: the flood plain where the victim has most, else the fallback.
            old(self).phase == FloodPhase::FindFloodPlain ==> {
                &&& a is Nothing
                &&& *final(selection) == *old(selection)
                &&& if forall|j: int|
                    0 <= j < flood_plains@.len() ==> tokens_at(areas@, #[trigger] flood_plains@[j], victim) == 0 {
                    &&& final(self).phase == FloodPhase::FallbackCoastalCity
                    &&& final(self).flood_plain_area == old(self).flood_plain_area
                } else {
                    &&& final(self).phase == FloodPhase::ApplyPrimaryLoss
                    &&& exists|i: int|
                        is_best_plain(areas@, flood_plains@, victim, i) && final(self).flood_plain_area
                            == Some(flood_plains@[i])
                }
            },
            // Rule 30.511: at most the cap, the victim's city first (five points).
            old(self).phase == FloodPhase::ApplyPrimaryLoss ==> {
                &&& final(self).phase == FloodPhase::ApplySecondaryLoss
                &&& final(self).flood_plain_area == old(self).flood_plain_area
                &&& *final(selection) == *old(selection)
                &&& match old(self).flood_plain_area {
                    None => a is Nothing,
                    Some(plain) => {
                        let cap: nat = if old(self).primary_max_loss < 0 { 0 } else { old(self).primary_max_loss as nat };
                        let owns = city_owner_at(areas@, plain) == Some(victim);
                        let left = flood_cap_after_city(cap, owns);
                        let held = tokens_at(areas@, plain, victim);
                        a == FloodAction::PrimaryLoss {
                            area: plain,
                            city: if owns && cap > 0 { Some(city_loss_for(old(self).has_engineering)) } else { None },
                            tokens: (if left <= held { left } else { held }) as usize,
                        }
                    },
                }
            },
            // Rule 30.512: the other players on the plain share ten points.
            old(self).phase == FloodPhase::ApplySecondaryLoss ==> {
                &&& final(self).flood_plain_area == old(self).flood_plain_area
                &&& match old(self).flood_plain_area {
                    None => a is Nothing && final(self).phase == FloodPhase::Complete && *final(selection) == *old(selection),
                    Some(plain) => match plain_population(areas@, plain) {
                        None => a is Nothing && final(self).phase == FloodPhase::Complete && *final(selection)
                            == *old(selection),
                        Some(pop) => {
                            let others = others_of(pop, victim);
                            if others.len() == 0 {
                                a is Nothing && final(self).phase == FloodPhase::Complete && *final(selection)
                                    == *old(selection)
                            } else {
                                match choice_step(sum_points(others) > 10, is_human, old(selection).acting_player, awaiting, victim) {
                                    ChoiceStep::Automatic => {
                                        &&& final(self).phase == FloodPhase::Complete
                                        &&& *final(selection) == *old(selection)
                                        &&& a matches FloodAction::SecondaryLoss { area, losses }
                                        &&& area == plain
                                        &&& losses@ == secondary_allocation(others, 10, None)
                                    },
                                    ChoiceStep::StartChoice => {
                                        &&& final(self).phase == FloodPhase::ApplySecondaryLoss
                                        &&& a is AwaitChoice
                                        &&& final(selection).acting_player == Some(victim)
                                        &&& final(selection).total_budget == 10
                                        &&& final(selection).victims@ == fresh_rows(others)
                                        &&& final(selection).current_victim_index == 0
                                    },
                                    ChoiceStep::Wait => {
                                        &&& final(self).phase == FloodPhase::ApplySecondaryLoss
                                        &&& a is Nothing
                                        &&& *final(selection) == *old(selection)
                                    },
                                    ChoiceStep::UseChoice => {
                                        &&& final(self).phase == FloodPhase::Complete
                                        &&& final(selection).is_cleared()
                                        &&& a matches FloodAction::SecondaryLoss { area, losses }
                                        &&& area == plain
                                        &&& losses@ == secondary_allocation(others, 10, Some(row_results(old(selection).victims@)))
                                    },
                                }
                            }
                        },
                    },
                }
            },
            // Rule 30.514: one coastal city instead.
            old(self).phase == FloodPhase::FallbackCoastalCity ==> {
                &&& final(self).phase == FloodPhase::Complete
                &&& final(self).flood_plain_area == old(self).flood_plain_area
                &&& *final(selection) == *old(selection)
                &&& match fallback_city(areas@, victim_cities@) {
                    None => a is Nothing,
                    Some(c) => a == FloodAction::LoseCity { area: c, loss: city_loss_for(old(self).has_engineering) },
                }
            },
            old(self).phase == FloodPhase::SelectFallbackCity ==> a is Nothing && *final(self) == *old(self)
                && *final(selection) == *old(selection),
            old(self).phase == FloodPhase::Complete ==> a is Finish && *final(self) == *old(self)
                && *final(selection) == *old(selection),
    {
        match self.phase {
            FloodPhase::FindFloodPlain => {
                match choose_flood_plain(flood_plains, areas, victim) {
                    Some(plain) => {
                        self.flood_plain_area = Some(plain);
                        self.phase = FloodPhase::ApplyPrimaryLoss;
                    },
                    None => {
                        self.phase = FloodPhase::FallbackCoastalCity;
                    },
                }
                FloodAction::Nothing
            },
            FloodPhase::ApplyPrimaryLoss => {
                self.phase = FloodPhase::ApplySecondaryLoss;
                match self.flood_plain_area {
                    None => FloodAction::Nothing,
                    Some(plain) => {
                        let mut cap: usize = if self.primary_max_loss < 0 { 0 } else { self.primary_max_loss as usize };
                        let owns = city_owner_of(areas, plain) == Some(victim);
                        let mut city: Option<CityLoss> = None;
                        if owns && cap > 0 {
                            city = Some(if self.has_engineering { CityLoss::Reduce } else { CityLoss::Destroy });
                            cap = if cap <= 5 { 0 } else { cap - 5 };
                        }
                        let held = tokens_at_area(areas, plain, victim);
                        let tokens = if cap <= held { cap } else { held };
                        FloodAction::PrimaryLoss { area: plain, city, tokens }
                    },
                }
            },
            FloodPhase::ApplySecondaryLoss => {
                let plain = match self.flood_plain_area {
                    None => {
                        self.phase = FloodPhase::Complete;
                        return FloodAction::Nothing;
                    },
                    Some(p) => p,
                };
                let idx = match find_area(areas, plain) {
                    None => {
                        self.phase = FloodPhase::Complete;
                        return FloodAction::Nothing;
                    },
                    Some(i) => i,
                };
                let others = others_than(&areas[idx].population, victim);
                if others.len() == 0 {
                    self.phase = FloodPhase::Complete;
                    return FloodAction::Nothing;
                }
                let needs = needs_choice(&others, 10);
                match next_choice_step(needs, is_human, selection.acting_player, awaiting, victim) {
                    ChoiceStep::Automatic => {
                        let losses = allocate_secondary_loss(others.as_slice(), 10, None);
                        self.phase = FloodPhase::Complete;
                        FloodAction::SecondaryLoss { area: plain, losses }
                    },
                    ChoiceStep::StartChoice => {
                        selection.populate(victim, others, 10);
                        FloodAction::AwaitChoice
                    },
                    ChoiceStep::Wait => FloodAction::Nothing,
                    ChoiceStep::UseChoice => {
                        let choice = selection.take_result();
                        let losses = allocate_secondary_loss(others.as_slice(), 10, Some(choice.as_slice()));
                        self.phase = FloodPhase::Complete;
                        FloodAction::SecondaryLoss { area: plain, losses }
                    },
                }
            },
            FloodPhase::FallbackCoastalCity => {
                self.phase = FloodPhase::Complete;
                match choose_fallback_city(areas, victim_cities) {
                    None => FloodAction::Nothing,
                    Some(c) => FloodAction::LoseCity {
                        area: c,
                        loss: if self.has_engineering { CityLoss::Reduce } else { CityLoss::Destroy },
                    },
                }
            },
            FloodPhase::SelectFallbackCity => FloodAction::Nothing,
            FloodPhase::Complete => FloodAction::Finish,
        }
    }
}

/// Law (rule 30.511): the primary victim of a Flood never loses more than
/// the cap in unit points. A city lost costs five points, or the whole cap
/// when it is smaller, and the tokens taken are at most what remains; no
/// more tokens are spared than needed.
pub proof fn lemma_flood_primary_loss_within_cap(cap: nat, owns_city: bool, held: nat)
    ensures
        ({
            let city_cost: nat = if owns_city && cap > 0 { if cap <= 5 { cap } else { 5 } } else { 0 };
            let left = flood_cap_after_city(cap, owns_city);
            let tokens: nat = if left <= held { left } else { held };
            &&& city_cost + tokens <= cap
            &&& owns_city && cap >= 5 ==> tokens + 5 <= cap
            &&& tokens == if held <= cap - city_cost { held } else { (cap - city_cost) as nat }
        }),
{
}

} // verus!
