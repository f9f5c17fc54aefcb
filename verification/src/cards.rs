use vstd::prelude::*;

verus! {

/// A trade card: a commodity or a calamity.
#[derive(Clone, Copy, Debug, PartialEq, Eq, Hash, PartialOrd, Ord, Structural)]
pub enum TradeCard {
    Ochre,
    Grain,
    Silver,
    Gold,
    VolcanoEarthquake,
    Treachery,
    Famine,
    Superstition,
    CivilWar,
    SlaveRevolt,
    Flood,
    BarbarianHordes,
    Epidemic,
    CivilDisorder,
    IconoclasmAndHeresy,
    Piracy,
}

/// The trade-stack level of a card.
pub open spec fn card_value(card: TradeCard) -> nat {
    match card {
        TradeCard::Ochre => 1,
        TradeCard::Grain => 4,
        TradeCard::Silver => 7,
        TradeCard::Gold => 9,
        TradeCard::VolcanoEarthquake => 2,
        TradeCard::Treachery => 2,
        TradeCard::Famine => 3,
        TradeCard::Superstition => 3,
        TradeCard::CivilWar => 4,
        TradeCard::SlaveRevolt => 4,
        TradeCard::Flood => 5,
        TradeCard::BarbarianHordes => 5,
        TradeCard::Epidemic => 6,
        TradeCard::CivilDisorder => 7,
        TradeCard::IconoclasmAndHeresy => 8,
        TradeCard::Piracy => 9,
    }
}

/// Whether a card is a calamity.
pub open spec fn card_is_calamity(card: TradeCard) -> bool {
    !(card is Ochre || card is Grain || card is Silver || card is Gold)
}

/// Whether a card may be passed on in trade: every commodity, and every
/// calamity except the four that are never tradeable.
pub open spec fn card_is_tradeable(card: TradeCard) -> bool {
    !(card is VolcanoEarthquake || card is Famine || card is CivilWar || card is Flood)
}

impl TradeCard {
    /// The trade-stack level of this card.
    pub fn value(&self) -> (v: usize)
        ensures
            v == card_value(*self),
    {
        match self {
            TradeCard::Ochre => 1,
            TradeCard::Grain => 4,
            TradeCard::Silver => 7,
            TradeCard::Gold => 9,
            TradeCard::VolcanoEarthquake => 2,
            TradeCard::Treachery => 2,
            TradeCard::Famine => 3,
            TradeCard::Superstition => 3,
            TradeCard::CivilWar => 4,
            TradeCard::SlaveRevolt => 4,
            TradeCard::Flood => 5,
            TradeCard::BarbarianHordes => 5,
            TradeCard::Epidemic => 6,
            TradeCard::CivilDisorder => 7,
            TradeCard::IconoclasmAndHeresy => 8,
            TradeCard::Piracy => 9,
        }
    }

    pub fn is_calamity(&self) -> (b: bool)
        ensures
            b == card_is_calamity(*self),
    {
        match self {
            TradeCard::Ochre | TradeCard::Grain | TradeCard::Silver | TradeCard::Gold => false,
            _ => true,
        }
    }

    pub fn is_commodity(&self) -> (b: bool)
        ensures
            b == !card_is_calamity(*self),
    {
        !self.is_calamity()
    }

    pub fn is_tradeable(&self) -> (b: bool)
        ensures
            b == card_is_tradeable(*self),
    {
        match self {
            TradeCard::VolcanoEarthquake | TradeCard::Famine | TradeCard::CivilWar
            | TradeCard::Flood => false,
            _ => true,
        }
    }
}

/// A civilization card, whose holder is protected from (or exposed to) some
/// calamity effects.
#[derive(Clone, Copy, Debug, PartialEq, Eq, Hash, PartialOrd, Ord, Structural)]
pub enum CivCardName {
    Agriculture,
    Deism,
    Democracy,
    DramaAndPoetry,
    Engineering,
    Enlightenment,
    Law,
    Medicine,
    Military,
    Mining,
    Monotheism,
    Music,
    Mysticism,
    Philosophy,
    Pottery,
    RoadBuilding,
    Theology,
}

/// The civilization cards one player holds.
#[derive(Clone, Debug, Default)]
pub struct PlayerCivilizationCards {
    pub cards: Vec<CivCardName>,
}

impl PlayerCivilizationCards {
    /// Whether `card` is among the held cards.
    pub open spec fn holds(self, card: CivCardName) -> bool {
        self.cards@.contains(card)
    }

    pub fn new(cards: Vec<CivCardName>) -> (r: Self)
        ensures
            r.cards@ == cards@,
    {
        PlayerCivilizationCards { cards }
    }

    pub fn owns(&self, card: &CivCardName) -> (b: bool)
        ensures
            b == self.holds(*card),
    {
        let mut i: usize = 0;
        while i < self.cards.len()
            invariant
                i <= self.cards.len(),
                forall|j: int| 0 <= j < i ==> self.cards@[j] != *card,
            decreases self.cards.len() - i,
        {
            if self.cards[i] == *card {
                return true;
            }
            i += 1;
        }
        false
    }
}

} // verus!
