//! Barbarian Hordes, turn by turn (rule 30.52): where they land, and where
//! any surplus moves on.
use vstd::prelude::*;
use crate::calamities::barbarian_hordes::{
    barbarian_damage_score, damage_score, BarbarianHordesPhase, BarbarianHordesState, MAX_CASCADE_ITERATIONS,
};
use crate::entity::Entity;
use crate::resolution::board::{
    city_owner_at, city_owner_of, find_area, is_open_sea, land_neighbours_at, open_sea_at, sea_neighbours_at,
    tokens_at, tokens_at_area, BoardArea,
};
use crate::util::{concat_entities, contains_entity};

verus! {

/// Tokens placed by the Barbarians (rule 30.5211).
pub const BARBARIAN_TOKENS: usize = 15;

/// Damage the Barbarians do to player `p` in area `e`.
pub open spec fn score_at(s: Seq<BoardArea>, e: Entity, p: Entity) -> nat {
    damage_score(tokens_at(s, e, p), city_owner_at(s, e) == Some(p))
}

/// Every area's damage score for `p` fits in a `usize`.
pub open spec fn scores_fit(s: Seq<BoardArea>, p: Entity) -> bool {
    forall|e: Entity| #[trigger] tokens_at(s, e, p) + 5 <= usize::MAX
}

pub fn score_of(areas: &Vec<BoardArea>, e: Entity, p: Entity) -> (r: usize)
    requires
        scores_fit(areas@, p),
    ensures
        r == score_at(areas@, e, p),
{
    let t = tokens_at_area(areas, e, p);
    assert(tokens_at(areas@, e, p) + 5 <= usize::MAX);
    barbarian_damage_score(t, city_owner_of(areas, e) == Some(p))
}

/// Rule 30.5211: the landing area is `starts[i]`, one of the victim's start
/// areas (those flagged), where the damage is greatest, the first among
/// equals.
pub open spec fn is_best_landing(s: Seq<BoardArea>, starts: Seq<(Entity, bool)>, p: Entity, i: int) -> bool {
    &&& 0 <= i < starts.len()
    &&& starts[i].1
    &&& forall|j: int| 0 <= j < starts.len() && (#[trigger] starts[j]).1 ==> score_at(s, starts[j].0, p) <= score_at(s, starts[i].0, p)
    &&& forall|j: int| 0 <= j < i && (#[trigger] starts[j]).1 ==> score_at(s, starts[j].0, p) < score_at(s, starts[i].0, p)
}

/// The landing area among the start areas flagged as the victim's, if any.
pub fn choose_landing_area(start_areas: &Vec<(Entity, bool)>, areas: &Vec<BoardArea>, victim: Entity) -> (r: Option<Entity>)
    requires
        scores_fit(areas@, victim),
    ensures
        r is None <==> forall|j: int| 0 <= j < start_areas@.len() ==> !(#[trigger] start_areas@[j]).1,
        r matches Some(x) ==> exists|i: int| is_best_landing(areas@, start_areas@, victim, i) && start_areas@[i].0 == x,
{
    let mut best: Option<(usize, usize)> = None;
    let mut k: usize = 0;
    while k < start_areas.len()
        invariant
            k <= start_areas@.len(),
            scores_fit(areas@, victim),
            best is None ==> forall|j: int| 0 <= j < k ==> !(#[trigger] start_areas@[j]).1,
            best matches Some((i, sc)) ==> {
                &&& i < k
                &&& start_areas@[i as int].1
                &&& sc == score_at(areas@, start_areas@[i as int].0, victim)
                &&& forall|j: int| 0 <= j < k && (#[trigger] start_areas@[j]).1 ==> score_at(areas@, start_areas@[j].0, victim) <= sc
                &&& forall|j: int| 0 <= j < i && (#[trigger] start_areas@[j]).1 ==> score_at(areas@, start_areas@[j].0, victim) < sc
            },
        decreases start_areas@.len() - k,
    {
        if start_areas[k].1 {
            let sc = score_of(areas, start_areas[k].0, victim);
            let better = match best {
                None => true,
                Some((_, b)) => sc > b,
            };
            if better {
                best = Some((k, sc));
            }
        }
        k += 1;
    }
    match best {
        None => None,
        Some((i, _)) => {
            assert(is_best_landing(areas@, start_areas@, victim, i as int));
            Some(start_areas[i].0)
        },
    }
}

/// The areas the surplus may move to from `e`: its land neighbours, then its
/// sea neighbours.
pub open spec fn onward_areas(s: Seq<BoardArea>, e: Entity) -> Seq<Entity> {
    land_neighbours_at(s, e) + sea_neighbours_at(s, e)
}

/// Rules 30.5231/30.5233/30.5234: the surplus moves to `cs[i]`, an area that
/// is not open sea where the damage is greatest, the first among equals.
pub open spec fn is_best_onward(s: Seq<BoardArea>, cs: Seq<Entity>, p: Entity, i: int) -> bool {
    &&& 0 <= i < cs.len()
    &&& !open_sea_at(s, cs[i])
    &&& forall|j: int| 0 <= j < cs.len() && !open_sea_at(s, #[trigger] cs[j]) ==> score_at(s, cs[j], p) <= score_at(s, cs[i], p)
    &&& forall|j: int| 0 <= j < i && !open_sea_at(s, #[trigger] cs[j]) ==> score_at(s, cs[j], p) < score_at(s, cs[i], p)
}

/// Where the surplus Barbarians in `from` move next, if anywhere.
pub fn choose_onward_area(from: Entity, areas: &Vec<BoardArea>, victim: Entity) -> (r: Option<Entity>)
    requires
        scores_fit(areas@, victim),
    ensures
        r is None <==> forall|j: int|
            0 <= j < onward_areas(areas@, from).len() ==> open_sea_at(areas@, #[trigger] onward_areas(areas@, from)[j]),
        r matches Some(x) ==> exists|i: int|
            is_best_onward(areas@, onward_areas(areas@, from), victim, i) && onward_areas(areas@, from)[i] == x,
{
    let candidates: Vec<Entity> = match find_area(areas, from) {
        Some(i) => concat_entities(&areas[i].land_neighbours, &areas[i].sea_neighbours),
        None => Vec::new(),
    };
    let ghost cs = onward_areas(areas@, from);
    assert(candidates@ =~= cs);
    let mut best: Option<(usize, usize)> = None;
    let mut k: usize = 0;
    while k < candidates.len()
        invariant
            k <= cs.len(),
            candidates@ == cs,
            scores_fit(areas@, victim),
            best is None ==> forall|j: int| 0 <= j < k ==> open_sea_at(areas@, #[trigger] cs[j]),
            best matches Some((i, sc)) ==> {
                &&& i < k
                &&& !open_sea_at(areas@, cs[i as int])
                &&& sc == score_at(areas@, cs[i as int], victim)
                &&& forall|j: int| 0 <= j < k && !open_sea_at(areas@, #[trigger] cs[j]) ==> score_at(areas@, cs[j], victim) <= sc
                &&& forall|j: int| 0 <= j < i && !open_sea_at(areas@, #[trigger] cs[j]) ==> score_at(areas@, cs[j], victim) < sc
            },
        decreases cs.len() - k,
    {
        let c = candidates[k];
        if !is_open_sea(areas, c) {
            let sc = score_of(areas, c, victim);
            let better = match best {
                None => true,
                Some((_, b)) => sc > b,
            };
            if better {
                best = Some((k, sc));
            }
        }
        k += 1;
    }
    match best {
        None => None,
        Some((i, _)) => {
            assert(is_best_onward(areas@, cs, victim, i as int));
            Some(candidates[i])
        },
    }
}

/// What one turn of the Barbarian Hordes does to the board.
#[derive(Debug, Clone)]
pub enum BarbarianAction {
    /// Nothing on the board changes.
    Nothing,
    /// Place this many Barbarian tokens in `area`, then report them with
    /// [`BarbarianHordesState::record_placement`].
    Place { area: Entity, count: usize },
    /// Fight in `area`: a city conflict when a city stands there.
    StartConflict { area: Entity, city: bool },
    /// Move `count` surplus Barbarians from `from` to `to`.
    MoveSurplus { from: Entity, to: Entity, count: usize },
    /// Remove the Barbarians from every area in `areas` and delete their
    /// owner and tokens; the calamity is over.
    Cleanup { barbarian: Option<Entity>, areas: Vec<Entity>, tokens: Vec<Entity> },
}

impl BarbarianHordesState {
    /// Records the Barbarian owner and the tokens placed for it.
    pub fn record_placement(&mut self, barbarian: Entity, tokens: Vec<Entity>)
        ensures
            final(self).barbarian_entity == Some(barbarian),
            final(self).all_tokens@ == old(self).all_tokens@ + tokens@,
            final(self).phase == BarbarianHordesPhase::EnterArea,
            final(self).landing_area == old(self).landing_area,
            final(self).visited_areas == old(self).visited_areas,
            final(self).cascade_iterations == old(self).cascade_iterations,
    {
        self.barbarian_entity = Some(barbarian);
        let mut i: usize = 0;
        let ghost start = self.all_tokens@;
        while i < tokens.len()
            invariant
                i <= tokens@.len(),
                self.all_tokens@ == start + tokens@.take(i as int),
                self.barbarian_entity == Some(barbarian),
                self.phase == old(self).phase,
                self.landing_area == old(self).landing_area,
                self.visited_areas == old(self).visited_areas,
                self.cascade_iterations == old(self).cascade_iterations,
            decreases tokens@.len() - i,
        {
            self.all_tokens.push(tokens[i]);
            i += 1;
            assert(self.all_tokens@ =~= start + tokens@.take(i as int));
        }
        assert(tokens@.take(i as int) =~= tokens@);
        self.phase = BarbarianHordesPhase::EnterArea;
    }

    /// One turn of the Barbarian Hordes against `victim`. The caller reports
    /// whether the victim is Crete, the start areas (flagged when they are
    /// the victim's), the map, whether the occupied area is a conflict zone,
    /// whether its conflict is still being fought, and its surplus.
    #[verifier::rlimit(40)]
    pub fn advance(
        &mut self,
        victim: Entity,
        victim_is_crete: bool,
        start_areas: &Vec<(Entity, bool)>,
        areas: &Vec<BoardArea>,
        is_conflict_zone: bool,
        conflict_pending: bool,
        surplus: usize,
    ) -> (a: BarbarianAction)
        requires
            scores_fit(areas@, victim),
        ensures
            final(self).barbarian_entity == old(self).barbarian_entity,
            old(self).phase != BarbarianHordesPhase::Complete ==> final(self).all_tokens == old(self).all_tokens,
            old(self).phase != BarbarianHordesPhase::EnterArea && old(self).phase != BarbarianHordesPhase::Complete
                ==> final(self).visited_areas == old(self).visited_areas,
            old(self).phase != BarbarianHordesPhase::CheckSurplus ==> final(self).cascade_iterations
                == old(self).cascade_iterations,
            old(self).phase != BarbarianHordesPhase::FindLandingArea && old(self).phase
                != BarbarianHordesPhase::CheckSurplus ==> final(self).landing_area == old(self).landing_area,
            old(self).phase == BarbarianHordesPhase::FindLandingArea ==> {
                &&& a is Nothing
                &&& final(self).barbarian_entity == old(self).barbarian_entity
                &&& final(self).all_tokens == old(self).all_tokens
                &&& final(self).visited_areas == old(self).visited_areas
                &&& final(self).cascade_iterations == old(self).cascade_iterations
                &&& if victim_is_crete {
                    // Rule 30.527: Crete is never the primary victim.
                    final(self).phase == BarbarianHordesPhase::Complete && final(self).landing_area == old(self).landing_area
                } else if forall|j: int| 0 <= j < start_areas@.len() ==> !(#[trigger] start_areas@[j]).1 {
                    final(self).phase == BarbarianHordesPhase::Complete && final(self).landing_area is None
                } else {
                    &&& final(self).phase == BarbarianHordesPhase::PlaceBarbarians
                    &&& exists|i: int| is_best_landing(areas@, start_areas@, victim, i)
                        && final(self).landing_area == Some(start_areas@[i].0)
                }
            },
            old(self).phase == BarbarianHordesPhase::PlaceBarbarians ==> match old(self).landing_area {
                None => a is Nothing && final(self).phase == BarbarianHordesPhase::Complete
                    && final(self).landing_area is None,
                Some(l) => a == BarbarianAction::Place { area: l, count: BARBARIAN_TOKENS }
                    && *final(self) == *old(self),
            },
            old(self).phase == BarbarianHordesPhase::EnterArea ==> match old(self).landing_area {
                None => a is Nothing && final(self).phase == BarbarianHordesPhase::Complete
                    && final(self).visited_areas == old(self).visited_areas,
                Some(l) => {
                    &&& final(self).landing_area == Some(l)
                    &&& final(self).visited_areas@ == if old(self).visited_areas@.contains(l) {
                        old(self).visited_areas@
                    } else {
                        old(self).visited_areas@.push(l)
                    }
                    &&& if is_conflict_zone {
                        &&& final(self).phase == BarbarianHordesPhase::AwaitingConflict
                        &&& a == BarbarianAction::StartConflict { area: l, city: city_owner_at(areas@, l) is Some }
                    } else {
                        final(self).phase == BarbarianHordesPhase::CheckSurplus && a is Nothing
                    }
                },
            },
            old(self).phase == BarbarianHordesPhase::AwaitingConflict ==> {
                &&& a is Nothing
                &&& final(self).phase == if old(self).landing_area is None {
                    BarbarianHordesPhase::Complete
                } else if conflict_pending {
                    BarbarianHordesPhase::AwaitingConflict
                } else {
                    BarbarianHordesPhase::CheckSurplus
                }
                &&& final(self).landing_area == old(self).landing_area
            },
            old(self).phase == BarbarianHordesPhase::CheckSurplus ==> match (old(self).landing_area, old(self).barbarian_entity) {
                (Some(l), Some(_)) => {
                    if surplus == 0 || old(self).cascade_iterations >= MAX_CASCADE_ITERATIONS
                        || forall|j: int| 0 <= j < onward_areas(areas@, l).len()
                            ==> open_sea_at(areas@, #[trigger] onward_areas(areas@, l)[j]) {
                        a is Nothing && final(self).phase == BarbarianHordesPhase::Complete
                            && final(self).landing_area == old(self).landing_area
                            && final(self).cascade_iterations == old(self).cascade_iterations
                    } else {
                        &&& final(self).phase == BarbarianHordesPhase::EnterArea
                        &&& final(self).cascade_iterations == old(self).cascade_iterations + 1
                        &&& exists|i: int| is_best_onward(areas@, onward_areas(areas@, l), victim, i)
                            && final(self).landing_area == Some(onward_areas(areas@, l)[i])
                            && a == BarbarianAction::MoveSurplus { from: l, to: onward_areas(areas@, l)[i], count: surplus }
                    }
                },
                _ => a is Nothing && final(self).phase == BarbarianHordesPhase::Complete
                    && final(self).landing_area == old(self).landing_area
                    && final(self).cascade_iterations == old(self).cascade_iterations,
            },
            old(self).phase == BarbarianHordesPhase::Complete ==> {
                &&& a matches BarbarianAction::Cleanup { barbarian, areas, tokens }
                &&& barbarian == old(self).barbarian_entity
                &&& areas@ == (if old(self).barbarian_entity is Some { old(self).visited_areas@ } else { Seq::empty() })
                &&& tokens@ == old(self).all_tokens@
                &&& final(self).phase == BarbarianHordesPhase::Complete
                &&& final(self).all_tokens@.len() == 0
                &&& final(self).visited_areas@ == if old(self).barbarian_entity is Some {
                    Seq::empty()
                } else {
                    old(self).visited_areas@
                }
            },
    {
        match self.phase {
            BarbarianHordesPhase::FindLandingArea => {
                if victim_is_crete {
                    self.phase = BarbarianHordesPhase::Complete;
                    return BarbarianAction::Nothing;
                }
                let landing = choose_landing_area(start_areas, areas, victim);
                self.landing_area = landing;
                self.phase = if landing.is_some() {
                    BarbarianHordesPhase::PlaceBarbarians
                } else {
                    BarbarianHordesPhase::Complete
                };
                BarbarianAction::Nothing
            },
            BarbarianHordesPhase::PlaceBarbarians => match self.landing_area {
                None => {
                    self.phase = BarbarianHordesPhase::Complete;
                    BarbarianAction::Nothing
                },
                Some(l) => BarbarianAction::Place { area: l, count: BARBARIAN_TOKENS },
            },
            BarbarianHordesPhase::EnterArea => match self.landing_area {
                None => {
                    self.phase = BarbarianHordesPhase::Complete;
                    BarbarianAction::Nothing
                },
                Some(l) => {
                    if !contains_entity(&self.visited_areas, l) {
                        self.visited_areas.push(l);
                    }
                    if is_conflict_zone {
                        self.phase = BarbarianHordesPhase::AwaitingConflict;
                        BarbarianAction::StartConflict { area: l, city: city_owner_of(areas, l).is_some() }
                    } else {
                        self.phase = BarbarianHordesPhase::CheckSurplus;
                        BarbarianAction::Nothing
                    }
                },
            },
            BarbarianHordesPhase::AwaitingConflict => {
                if self.landing_area.is_none() {
                    self.phase = BarbarianHordesPhase::Complete;
                } else if !conflict_pending {
                    self.phase = BarbarianHordesPhase::CheckSurplus;
                }
                BarbarianAction::Nothing
            },
            BarbarianHordesPhase::CheckSurplus => {
                let l = match (self.landing_area, self.barbarian_entity) {
                    (Some(l), Some(_)) => l,
                    _ => {
                        self.phase = BarbarianHordesPhase::Complete;
                        return BarbarianAction::Nothing;
                    },
                };
                if surplus == 0 || self.cascade_iterations >= MAX_CASCADE_ITERATIONS {
                    self.phase = BarbarianHordesPhase::Complete;
                    return BarbarianAction::Nothing;
                }
                match choose_onward_area(l, areas, victim) {
                    None => {
                        self.phase = BarbarianHordesPhase::Complete;
                        BarbarianAction::Nothing
                    },
                    Some(next) => {
                        self.landing_area = Some(next);
                        self.cascade_iterations = self.cascade_iterations + 1;
                        self.phase = BarbarianHordesPhase::EnterArea;
                        BarbarianAction::MoveSurplus { from: l, to: next, count: surplus }
                    },
                }
            },
            BarbarianHordesPhase::Complete => {
                let mut tokens: Vec<Entity> = Vec::new();
                std::mem::swap(&mut tokens, &mut self.all_tokens);
                let mut visited: Vec<Entity> = Vec::new();
                if self.barbarian_entity.is_some() {
                    std::mem::swap(&mut visited, &mut self.visited_areas);
                }
                BarbarianAction::Cleanup { barbarian: self.barbarian_entity, areas: visited, tokens }
            },
        }
    }
}

} // verus!
