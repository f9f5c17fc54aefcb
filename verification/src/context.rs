use vstd::prelude::*;
use crate::cards::TradeCard;
use crate::entity::Entity;

verus! {

/// Which calamity struck whom, and who traded it to them.
#[derive(Debug, Clone)]
pub struct CalamityContext {
    pub calamity: TradeCard,
    pub primary_victim: Entity,
    pub traded_by: Option<Entity>,
}

impl CalamityContext {
    pub fn new(calamity: TradeCard, primary_victim: Entity, traded_by: Option<Entity>) -> (c: Self)
        ensures
            c == (CalamityContext { calamity, primary_victim, traded_by }),
    {
        CalamityContext { calamity, primary_victim, traded_by }
    }

    /// The player who traded the calamity may not be a secondary victim.
    pub fn is_immune_to_secondary(&self, player: Entity) -> (b: bool)
        ensures
            b == (self.traded_by == Some(player)),
    {
        match self.traded_by {
            Some(t) => t == player,
            None => false,
        }
    }
}

/// The losses a calamity imposes.
#[derive(Debug, Clone)]
pub struct CalamityEffects {
    pub unit_points_to_lose: i32,
    pub cities_to_destroy: usize,
    pub cities_to_reduce: usize,
    pub secondary_effects: Vec<SecondaryEffect>,
    pub special_effect: Option<SpecialEffect>,
}

impl Default for CalamityEffects {
    fn default() -> (e: Self)
        ensures
            e.unit_points_to_lose == 0,
            e.cities_to_destroy == 0,
            e.cities_to_reduce == 0,
            e.secondary_effects@.len() == 0,
            e.special_effect is None,
    {
        CalamityEffects {
            unit_points_to_lose: 0,
            cities_to_destroy: 0,
            cities_to_reduce: 0,
            secondary_effects: Vec::new(),
            special_effect: None,
        }
    }
}

impl CalamityEffects {
    pub fn with_unit_point_loss(self, amount: i32) -> (e: Self)
        ensures
            e == (CalamityEffects { unit_points_to_lose: amount, ..self }),
    {
        let mut e = self;
        e.unit_points_to_lose = amount;
        e
    }

    pub fn with_cities_destroyed(self, count: usize) -> (e: Self)
        ensures
            e == (CalamityEffects { cities_to_destroy: count, ..self }),
    {
        let mut e = self;
        e.cities_to_destroy = count;
        e
    }

    pub fn with_cities_reduced(self, count: usize) -> (e: Self)
        ensures
            e == (CalamityEffects { cities_to_reduce: count, ..self }),
    {
        let mut e = self;
        e.cities_to_reduce = count;
        e
    }

    pub fn with_secondary_effect(self, effect: SecondaryEffect) -> (e: Self)
        ensures
            e == (CalamityEffects { secondary_effects: e.secondary_effects, ..self }),
            e.secondary_effects@ == self.secondary_effects@.push(effect),
    {
        let mut e = self;
        e.secondary_effects.push(effect);
        e
    }

    pub fn with_special_effect(self, effect: SpecialEffect) -> (e: Self)
        ensures
            e == (CalamityEffects { special_effect: Some(effect), ..self }),
    {
        let mut e = self;
        e.special_effect = Some(effect);
        e
    }
}

/// A loss imposed on a secondary victim.
#[derive(Debug, Clone)]
pub struct SecondaryEffect {
    pub victim: Entity,
    pub unit_points_to_lose: i32,
}

impl SecondaryEffect {
    pub fn new(victim: Entity, unit_points: i32) -> (e: Self)
        ensures
            e == (SecondaryEffect { victim, unit_points_to_lose: unit_points }),
    {
        SecondaryEffect { victim, unit_points_to_lose: unit_points }
    }
}

/// Effects particular to one calamity.
#[derive(Debug, Clone)]
pub enum SpecialEffect {
    VolcanoEruption { volcano_area: Entity },
    Earthquake { city_to_destroy: Entity, city_to_reduce: Option<Entity> },
    Treachery { city_to_replace: Entity, beneficiary: Option<Entity> },
    CivilWar(CivilWarEffect),
    SlaveRevolt { cities_to_reduce: Vec<Entity> },
    Flood { flood_plain_area: Entity },
    BarbarianHordes { areas_to_attack: Vec<Entity> },
    Piracy { coastal_cities: Vec<Entity>, beneficiary: Entity },
}

/// The Civil War selection targets.
#[derive(Debug, Clone)]
pub struct CivilWarEffect {
    pub beneficiary: Entity,
    pub victim_selection_points: usize,
    pub beneficiary_selection_points: usize,
}

impl CivilWarEffect {
    pub fn new(beneficiary: Entity, victim_selection: usize) -> (e: Self)
        ensures
            e == (CivilWarEffect {
                beneficiary,
                victim_selection_points: victim_selection,
                beneficiary_selection_points: 20,
            }),
    {
        CivilWarEffect { beneficiary, victim_selection_points: victim_selection, beneficiary_selection_points: 20 }
    }
}

#[derive(Debug, Clone, Copy, PartialEq, Eq, Structural)]
pub enum CalamityPhase {
    ComputeEffects,
    AwaitingInput,
    ApplyEffects,
    Resolved,
}

/// A choice the resolution waits for.
#[derive(Debug, Clone)]
pub enum CalamityInputRequest {
    SelectUnitsToLose { player: Entity, amount: usize, exact: bool },
    SelectCitiesToReduce { player: Entity, count: usize },
    SelectCitiesToDestroy { player: Entity, count: usize },
    SelectSecondaryVictims {
        selector: Entity,
        total_points: usize,
        max_per_victim: usize,
        immune_players: Vec<Entity>,
    },
    CivilWarVictimSelection { victim: Entity, points_to_select: usize },
    CivilWarBeneficiarySelection { beneficiary: Entity, victim: Entity, points_to_select: usize },
}

/// A calamity being resolved: its context, its effects, where it stands and
/// what choice it waits for.
#[derive(Debug, Clone)]
pub struct ActiveCalamityResolution {
    pub context: CalamityContext,
    pub effects: CalamityEffects,
    pub phase: CalamityPhase,
    pub pending_input: Option<CalamityInputRequest>,
}

impl ActiveCalamityResolution {
    pub fn new(context: CalamityContext) -> (r: Self)
        ensures
            r.context == context,
            r.effects.unit_points_to_lose == 0,
            r.effects.cities_to_destroy == 0,
            r.effects.cities_to_reduce == 0,
            r.effects.secondary_effects@.len() == 0,
            r.effects.special_effect is None,
            r.phase == CalamityPhase::ComputeEffects,
            r.pending_input is None,
    {
        ActiveCalamityResolution {
            context,
            effects: CalamityEffects::default(),
            phase: CalamityPhase::ComputeEffects,
            pending_input: None,
        }
    }

    pub fn with_effects(self, effects: CalamityEffects) -> (r: Self)
        ensures
            r == (ActiveCalamityResolution { effects, ..self }),
    {
        let mut r = self;
        r.effects = effects;
        r
    }

    /// Waits for `request` to be answered.
    pub fn request_input(&mut self, request: CalamityInputRequest)
        ensures
            *final(self) == (ActiveCalamityResolution {
                pending_input: Some(request),
                phase: CalamityPhase::AwaitingInput,
                ..*old(self)
            }),
    {
        self.pending_input = Some(request);
        self.phase = CalamityPhase::AwaitingInput;
    }

    /// The choice has been made: on to applying the effects.
    pub fn advance_to_apply(&mut self)
        ensures
            *final(self) == (ActiveCalamityResolution {
                pending_input: None,
                phase: CalamityPhase::ApplyEffects,
                ..*old(self)
            }),
    {
        self.pending_input = None;
        self.phase = CalamityPhase::ApplyEffects;
    }

    pub fn mark_resolved(&mut self)
        ensures
            *final(self) == (ActiveCalamityResolution { phase: CalamityPhase::Resolved, ..*old(self) }),
    {
        self.phase = CalamityPhase::Resolved;
    }
}

} // verus!
