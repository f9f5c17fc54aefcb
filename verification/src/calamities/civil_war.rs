use vstd::prelude::*;
use crate::entity::Entity;
use crate::util::{concat_entities, copy_entities, entities_without, without};

verus! {

/// Which faction the primary victim keeps (rule 30.415); the other one goes
/// to the beneficiary.
#[derive(Debug, Clone, Copy, PartialEq, Eq, Structural)]
pub enum FactionChoice {
    First,
    Second,
}

/// Civil War (rule 30.41): the primary victim's holdings split into two
/// factions.  The first is the victim's own pick of 15 unit points (more with
/// Music, Drama and Poetry or Democracy) plus the beneficiary's top-up of 20;
/// under Philosophy the beneficiary alone picks 15.  The second is whatever
/// remains.  Military costs each faction 5 unit points.  The victim keeps
/// one faction and the other transfers to the beneficiary.
#[derive(Debug, Clone, Default)]
pub struct CivilWarState {
    pub phase: CivilWarPhase,
    pub beneficiary: Option<Entity>,
    pub victim_selection_points: usize,
    pub beneficiary_selection_points: usize,
    pub victim_selected_units: Vec<Entity>,
    pub victim_selected_cities: Vec<Entity>,
    pub beneficiary_selected_units: Vec<Entity>,
    pub beneficiary_selected_cities: Vec<Entity>,
    pub second_faction_units: Vec<Entity>,
    pub second_faction_cities: Vec<Entity>,
    pub kept_faction: Option<FactionChoice>,
    pub philosophy_override: bool,
    pub military_penalty: bool,
}

#[derive(Debug, Clone, Default, PartialEq, Eq, Structural)]
pub enum CivilWarPhase {
    #[default]
    DetermineBeneficiary,
    VictimSelectsUnits,
    BeneficiarySelectsUnits,
    VictimChoosesFaction,
    TransferFaction,
    Complete,
}

/// Unit points of a group of tokens and cities: one per token, five per city.
pub open spec fn unit_points(tokens: nat, cities: nat) -> nat {
    tokens + 5 * cities
}

/// Tokens removed when `owed` points are taken from `len` tokens.
pub open spec fn tokens_removed(len: nat, owed: nat) -> nat {
    if owed <= len { owed } else { len }
}

/// Points still owed after taking tokens.
pub open spec fn owed_after_tokens(len: nat, owed: nat) -> nat {
    (owed - tokens_removed(len, owed)) as nat
}

/// Cities removed when `owed` points are taken from `len` cities: each
/// covers five points and none can be split, so one is removed per started
/// block of five.
pub open spec fn cities_removed(len: nat, owed: nat) -> nat {
    let blocks = if owed % 5 == 0 { owed / 5 } else { owed / 5 + 1 };
    if blocks <= len { blocks } else { len }
}

/// Points still owed after taking cities.
pub open spec fn owed_after_cities(len: nat, owed: nat) -> nat {
    if owed >= 5 * cities_removed(len, owed) { (owed - 5 * cities_removed(len, owed)) as nat } else { 0 }
}

impl CivilWarState {
    pub open spec fn victim_points(self) -> nat {
        unit_points(self.victim_selected_units@.len(), self.victim_selected_cities@.len())
    }

    pub open spec fn beneficiary_points(self) -> nat {
        unit_points(self.beneficiary_selected_units@.len(), self.beneficiary_selected_cities@.len())
    }

    pub open spec fn second_points(self) -> nat {
        unit_points(self.second_faction_units@.len(), self.second_faction_cities@.len())
    }

    /// All the counts of this state fit in a `usize`.
    pub open spec fn points_fit(self) -> bool {
        self.victim_points() + self.beneficiary_points() <= usize::MAX
            && self.second_points() <= usize::MAX
    }

    pub fn new() -> (s: Self)
        ensures
            s.phase == CivilWarPhase::DetermineBeneficiary,
            s.beneficiary is None,
            s.victim_selection_points == 15,
            s.beneficiary_selection_points == 20,
            s.victim_selected_units@.len() == 0,
            s.victim_selected_cities@.len() == 0,
            s.beneficiary_selected_units@.len() == 0,
            s.beneficiary_selected_cities@.len() == 0,
            s.second_faction_units@.len() == 0,
            s.second_faction_cities@.len() == 0,
            s.kept_faction is None,
            !s.philosophy_override,
            !s.military_penalty,
    {
        CivilWarState {
            phase: CivilWarPhase::DetermineBeneficiary,
            beneficiary: None,
            victim_selection_points: 15,
            beneficiary_selection_points: 20,
            victim_selected_units: Vec::new(),
            victim_selected_cities: Vec::new(),
            beneficiary_selected_units: Vec::new(),
            beneficiary_selected_cities: Vec::new(),
            second_faction_units: Vec::new(),
            second_faction_cities: Vec::new(),
            kept_faction: None,
            philosophy_override: false,
            military_penalty: false,
        }
    }

    /// Names the beneficiary; the victim then selects units.
    pub fn with_beneficiary(self, beneficiary: Entity) -> (s: Self)
        ensures
            s == (CivilWarState {
                beneficiary: Some(beneficiary),
                phase: CivilWarPhase::VictimSelectsUnits,
                ..self
            }),
    {
        let mut s = self;
        s.beneficiary = Some(beneficiary);
        s.phase = CivilWarPhase::VictimSelectsUnits;
        s
    }

    /// Music: the victim selects 5 more points.
    pub fn apply_music_bonus(&mut self)
        requires
            old(self).victim_selection_points <= usize::MAX - 5,
        ensures
            *final(self) == (CivilWarState {
                victim_selection_points: (old(self).victim_selection_points + 5) as usize,
                ..*old(self)
            }),
    {
        self.victim_selection_points = self.victim_selection_points + 5;
    }

    /// Drama and Poetry: the victim selects 5 more points.
    pub fn apply_drama_poetry_bonus(&mut self)
        requires
            old(self).victim_selection_points <= usize::MAX - 5,
        ensures
            *final(self) == (CivilWarState {
                victim_selection_points: (old(self).victim_selection_points + 5) as usize,
                ..*old(self)
            }),
    {
        self.victim_selection_points = self.victim_selection_points + 5;
    }

    /// Democracy: the victim selects 10 more points.
    pub fn apply_democracy_bonus(&mut self)
        requires
            old(self).victim_selection_points <= usize::MAX - 10,
        ensures
            *final(self) == (CivilWarState {
                victim_selection_points: (old(self).victim_selection_points + 10) as usize,
                ..*old(self)
            }),
    {
        self.victim_selection_points = self.victim_selection_points + 10;
    }

    /// Philosophy (rule 30.4124): the beneficiary alone picks 15 points.
    pub fn with_philosophy_override(self) -> (s: Self)
        ensures
            s == (CivilWarState {
                philosophy_override: true,
                victim_selection_points: 0,
                beneficiary_selection_points: 15,
                ..self
            }),
    {
        let mut s = self;
        s.philosophy_override = true;
        s.victim_selection_points = 0;
        s.beneficiary_selection_points = 15;
        s
    }

    /// Military applies to this Civil War (rule 30.414).
    pub fn with_military_penalty(self) -> (s: Self)
        ensures
            s == (CivilWarState { military_penalty: true, ..self }),
    {
        let mut s = self;
        s.military_penalty = true;
        s
    }

    /// Takes up to `remaining` tokens from the end of `units`; returns the
    /// points still owed.
    fn remove_units(units: &mut Vec<Entity>, remaining: usize) -> (left: usize)
        ensures
            final(units)@ == old(units)@.take(
                old(units)@.len() - tokens_removed(old(units)@.len(), remaining as nat),
            ),
            left == owed_after_tokens(old(units)@.len(), remaining as nat),
    {
        let ghost len0 = units@.len();
        let ghost orig = units@;
        let mut remaining = remaining;
        let ghost r0 = remaining;
        while remaining > 0 && units.len() > 0
            invariant
                units@.len() <= len0,
                len0 == orig.len(),
                units@ == orig.take(units@.len() as int),
                remaining == r0 - (len0 - units@.len()),
            decreases remaining,
        {
            units.pop();
            assert(orig.take(units@.len() as int) =~= units@);
            remaining -= 1;
        }
        remaining
    }

    /// Takes cities from the end of `cities` while points are owed, each
    /// covering five; returns the points still owed.
    fn remove_cities(cities: &mut Vec<Entity>, remaining: usize) -> (left: usize)
        ensures
            final(cities)@ == old(cities)@.take(
                old(cities)@.len() - cities_removed(old(cities)@.len(), remaining as nat),
            ),
            left == owed_after_cities(old(cities)@.len(), remaining as nat),
    {
        let ghost len0 = cities@.len();
        let ghost orig = cities@;
        let ghost r0 = remaining as nat;
        let mut remaining = remaining;
        while remaining > 0 && cities.len() > 0
            invariant
                cities@.len() <= len0,
                len0 == orig.len(),
                cities@ == orig.take(cities@.len() as int),
                remaining == (if r0 >= 5 * (len0 - cities@.len()) {
                    r0 - 5 * (len0 - cities@.len())
                } else {
                    0
                }),
                cities@.len() < len0 ==> r0 > 5 * (len0 - cities@.len() - 1),
            decreases cities@.len(),
        {
            cities.pop();
            assert(orig.take(cities@.len() as int) =~= cities@);
            remaining = if remaining >= 5 { remaining - 5 } else { 0 };
        }
        remaining
    }

    /// Rule 30.414: five unit points leave the first faction, tokens before
    /// cities, the beneficiary's top-up before the victim's own pick.
    pub fn apply_military_penalty_to_first_faction(&mut self)
        ensures
            !old(self).military_penalty ==> *final(self) == *old(self),
            old(self).military_penalty ==> ({
                let bu = old(self).beneficiary_selected_units@;
                let bc = old(self).beneficiary_selected_cities@;
                let vu = old(self).victim_selected_units@;
                let vc = old(self).victim_selected_cities@;
                let r1 = owed_after_tokens(bu.len(), 5);
                let r2 = owed_after_cities(bc.len(), r1);
                let r3 = owed_after_tokens(vu.len(), r2);
                &&& final(self).beneficiary_selected_units@ == bu.take(bu.len() - tokens_removed(bu.len(), 5))
                &&& final(self).beneficiary_selected_cities@ == bc.take(bc.len() - cities_removed(bc.len(), r1))
                &&& final(self).victim_selected_units@ == vu.take(vu.len() - tokens_removed(vu.len(), r2))
                &&& final(self).victim_selected_cities@ == vc.take(vc.len() - cities_removed(vc.len(), r3))
                &&& *final(self) == (CivilWarState {
                    beneficiary_selected_units: final(self).beneficiary_selected_units,
                    beneficiary_selected_cities: final(self).beneficiary_selected_cities,
                    victim_selected_units: final(self).victim_selected_units,
                    victim_selected_cities: final(self).victim_selected_cities,
                    ..*old(self)
                })
            }),
    {
        if !self.military_penalty {
            return;
        }
        let remaining = Self::remove_units(&mut self.beneficiary_selected_units, 5);
        let remaining = Self::remove_cities(&mut self.beneficiary_selected_cities, remaining);
        let remaining = Self::remove_units(&mut self.victim_selected_units, remaining);
        Self::remove_cities(&mut self.victim_selected_cities, remaining);
    }

    /// Rule 30.414: five unit points leave the second faction, tokens before cities.
    pub fn apply_military_penalty_to_second_faction(&mut self)
        ensures
            !old(self).military_penalty ==> *final(self) == *old(self),
            old(self).military_penalty ==> ({
                let su = old(self).second_faction_units@;
                let sc = old(self).second_faction_cities@;
                let r1 = owed_after_tokens(su.len(), 5);
                &&& final(self).second_faction_units@ == su.take(su.len() - tokens_removed(su.len(), 5))
                &&& final(self).second_faction_cities@ == sc.take(sc.len() - cities_removed(sc.len(), r1))
                &&& *final(self) == (CivilWarState {
                    second_faction_units: final(self).second_faction_units,
                    second_faction_cities: final(self).second_faction_cities,
                    ..*old(self)
                })
            }),
    {
        if !self.military_penalty {
            return;
        }
        let remaining = Self::remove_units(&mut self.second_faction_units, 5);
        Self::remove_cities(&mut self.second_faction_cities, remaining);
    }

    pub fn victim_points_selected(&self) -> (p: usize)
        requires
            self.victim_points() <= usize::MAX,
        ensures
            p == self.victim_points(),
    {
        self.victim_selected_units.len() + self.victim_selected_cities.len() * 5
    }

    pub fn beneficiary_points_selected(&self) -> (p: usize)
        requires
            self.beneficiary_points() <= usize::MAX,
        ensures
            p == self.beneficiary_points(),
    {
        self.beneficiary_selected_units.len() + self.beneficiary_selected_cities.len() * 5
    }

    pub fn victim_selection_complete(&self) -> (b: bool)
        requires
            self.victim_points() <= usize::MAX,
        ensures
            b == (self.victim_points() >= self.victim_selection_points),
    {
        self.victim_points_selected() >= self.victim_selection_points
    }

    pub fn beneficiary_selection_complete(&self) -> (b: bool)
        requires
            self.beneficiary_points() <= usize::MAX,
        ensures
            b == (self.beneficiary_points() >= self.beneficiary_selection_points),
    {
        self.beneficiary_points_selected() >= self.beneficiary_selection_points
    }

    /// Rule 30.412: the first faction is the victim's pick plus the top-up.
    pub fn first_faction_points(&self) -> (p: usize)
        requires
            self.victim_points() + self.beneficiary_points() <= usize::MAX,
        ensures
            p == self.victim_points() + self.beneficiary_points(),
    {
        self.victim_points_selected() + self.beneficiary_points_selected()
    }

    /// Rule 30.413: the points of what remains of the victim's board.
    pub fn second_faction_points(&self) -> (p: usize)
        requires
            self.second_points() <= usize::MAX,
        ensures
            p == self.second_points(),
    {
        self.second_faction_units.len() + self.second_faction_cities.len() * 5
    }

    /// Rule 30.413: without a second faction there is no Civil War.
    pub fn has_second_faction(&self) -> (b: bool)
        ensures
            b == (self.second_faction_units@.len() > 0 || self.second_faction_cities@.len() > 0),
    {
        !self.second_faction_units.is_empty() || !self.second_faction_cities.is_empty()
    }

    /// Rule 30.413: the second faction is the victim's whole board minus
    /// the first faction.
    pub fn compute_second_faction(&mut self, full_units: Vec<Entity>, full_cities: Vec<Entity>)
        ensures
            final(self).second_faction_units@ == without(
                full_units@,
                old(self).victim_selected_units@ + old(self).beneficiary_selected_units@,
            ),
            final(self).second_faction_cities@ == without(
                full_cities@,
                old(self).victim_selected_cities@ + old(self).beneficiary_selected_cities@,
            ),
            *final(self) == (CivilWarState {
                second_faction_units: final(self).second_faction_units,
                second_faction_cities: final(self).second_faction_cities,
                ..*old(self)
            }),
    {
        let first_units = concat_entities(&self.victim_selected_units, &self.beneficiary_selected_units);
        let first_cities = concat_entities(&self.victim_selected_cities, &self.beneficiary_selected_cities);
        self.second_faction_units = entities_without(full_units, &first_units);
        self.second_faction_cities = entities_without(full_cities, &first_cities);
    }

    /// Rule 30.415 default: keep the faction with more points, the first on a tie.
    pub fn default_ai_faction_choice(&self) -> (c: FactionChoice)
        requires
            self.points_fit(),
        ensures
            c == if self.second_points() > self.victim_points() + self.beneficiary_points() {
                FactionChoice::Second
            } else {
                FactionChoice::First
            },
    {
        if self.second_faction_points() > self.first_faction_points() {
            FactionChoice::Second
        } else {
            FactionChoice::First
        }
    }

    /// Rule 30.415: the tokens of the faction the victim does not keep (the
    /// first faction unless the first was kept).
    pub fn transferring_units(&self) -> (r: Vec<Entity>)
        ensures
            r@ == match self.kept_faction {
                Some(FactionChoice::First) => self.second_faction_units@,
                _ => self.victim_selected_units@ + self.beneficiary_selected_units@,
            },
    {
        match self.kept_faction {
            Some(FactionChoice::First) => copy_entities(&self.second_faction_units),
            _ => concat_entities(&self.victim_selected_units, &self.beneficiary_selected_units),
        }
    }

    /// Rule 30.415: the cities of the faction the victim does not keep.
    pub fn transferring_cities(&self) -> (r: Vec<Entity>)
        ensures
            r@ == match self.kept_faction {
                Some(FactionChoice::First) => self.second_faction_cities@,
                _ => self.victim_selected_cities@ + self.beneficiary_selected_cities@,
            },
    {
        match self.kept_faction {
            Some(FactionChoice::First) => copy_entities(&self.second_faction_cities),
            _ => concat_entities(&self.victim_selected_cities, &self.beneficiary_selected_cities),
        }
    }
}

/// Law (rule 30.414): the penalty takes at least the five points owed from
/// a group that has them, and overshoots by less than one city.
pub proof fn lemma_penalty_amount(tokens: nat, cities: nat)
    ensures
        ({
            let t = tokens_removed(tokens, 5);
            let c = cities_removed(cities, owed_after_tokens(tokens, 5));
            &&& unit_points(tokens, cities) >= 5 ==> t + 5 * c >= 5
            &&& t + 5 * c < 10
            &&& t + 5 * c <= unit_points(tokens, cities)
        }),
{
}

} // verus!
