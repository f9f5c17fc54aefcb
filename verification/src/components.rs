use vstd::prelude::*;
use crate::cards::TradeCard;
use crate::entity::Entity;

verus! {

/// Marks a Monotheism holder who must convert units at the end of the
/// Resolve Calamities phase (rule 32.94).
#[derive(Debug, Default)]
pub struct NeedsMonotheismConversion;

/// Marks a player with calamities still to resolve.
#[derive(Debug, Default)]
pub struct NeedsCalamityResolution;

/// A calamity that struck a player, and who traded it to them.
#[derive(Debug)]
pub struct CalamityVictim {
    pub calamity: TradeCard,
    pub traded_by: Option<Entity>,
}

impl CalamityVictim {
    pub fn new(calamity: TradeCard, traded_by: Option<Entity>) -> (v: Self)
        ensures
            v == (CalamityVictim { calamity, traded_by }),
    {
        CalamityVictim { calamity, traded_by }
    }
}

/// The calamities a player still has to resolve this turn, each with who
/// traded it to them.
#[derive(Debug, Default)]
pub struct PendingCalamities {
    pub calamities: Vec<(TradeCard, Option<Entity>)>,
}

impl PendingCalamities {
    pub fn new(calamities: Vec<(TradeCard, Option<Entity>)>) -> (p: Self)
        ensures
            p.calamities@ == calamities@,
    {
        PendingCalamities { calamities }
    }

    pub fn count(&self) -> (n: usize)
        ensures
            n == self.calamities@.len(),
    {
        self.calamities.len()
    }

    pub fn is_empty(&self) -> (b: bool)
        ensures
            b == (self.calamities@.len() == 0),
    {
        self.calamities.is_empty()
    }
}

/// Grain cards a player placed face up for a Famine reduction; they may not
/// buy civilization cards until the following turn (rule 30.312).
#[derive(Debug, Default)]
pub struct GrainLockedForPurchase(pub usize);

/// Grain cards usable to buy civilization cards: those held beyond the
/// locked ones, never negative.
pub fn usable_grain_count(held: usize, locked: usize) -> (n: usize)
    ensures
        n == if held >= locked { held - locked } else { 0 },
{
    if held >= locked {
        held - locked
    } else {
        0
    }
}

/// Marks the single, persistent owner of Pirate cities (rule 30.913).
#[derive(Debug, Default)]
pub struct PirateNation;

/// Asks for the next pending calamity to be resolved.
#[derive(Debug)]
pub struct ResolveNextCalamity;

/// Asks for a Volcano/Earthquake to be resolved against `primary_victim`.
#[derive(Debug)]
pub struct ResolveVolcanoEarthquake {
    pub primary_victim: Entity,
    pub traded_by: Option<Entity>,
}

/// A volcano erupts in `volcano_area`.
#[derive(Debug)]
pub struct VolcanoEruption {
    pub volcano_area: Entity,
}

/// An earthquake strikes `primary_victim`.
#[derive(Debug)]
pub struct Earthquake {
    pub primary_victim: Entity,
    pub city_to_destroy: Entity,
    pub city_to_reduce: Option<Entity>,
}

/// `player` has finished resolving `calamity`.
#[derive(Debug)]
pub struct CalamityResolved {
    pub player: Entity,
    pub calamity: TradeCard,
}


/// Marks an area whose tokens all return to their owners' stock.
#[derive(Debug, Default)]
pub struct ClearAllTokens;

/// Marks an area whose city is destroyed.
#[derive(Debug, Default)]
pub struct DestroyCity;

/// Marks an area whose city is reduced to tokens.
#[derive(Debug, Default)]
pub struct ReduceCity;

/// Marks a city token that returns to its owner's stock.
#[derive(Debug, Default)]
pub struct ReturnCityToStock;

/// Marks an area whose city goes to another player.
#[derive(Debug)]
pub struct TransferCityTo(pub Entity);

/// Tokens that replace a reduced city (rules 26.11/26.6): the area's
/// population limit, one more with Agriculture, at most six.
pub fn replacement_tokens(max_population: usize, has_agriculture: bool) -> (n: usize)
    ensures
        n == if max_population + (if has_agriculture { 1int } else { 0int }) <= 6 {
            max_population + (if has_agriculture { 1int } else { 0int })
        } else {
            6
        },
{
    if max_population >= 6 {
        6
    } else {
        let n = max_population + if has_agriculture { 1 } else { 0 };
        if n <= 6 { n } else { 6 }
    }
}

/// City tokens a player's stock is missing once their cities are on the
/// board: those of `max_tokens` not standing as cities, beyond the ones
/// already in stock.
pub fn city_tokens_to_restore(max_tokens: usize, cities: usize, in_stock: usize) -> (n: usize)
    ensures
        n == if max_tokens >= cities + in_stock { max_tokens - cities - in_stock } else { 0 },
{
    let expected = if max_tokens >= cities { max_tokens - cities } else { 0 };
    if expected >= in_stock { expected - in_stock } else { 0 }
}

} // verus!
