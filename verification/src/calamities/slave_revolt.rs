use vstd::prelude::*;
use crate::entity::Entity;

verus! {

/// Slave Revolt (rule 30.42): fifteen of the primary victim's tokens may not
/// support cities; Mining adds five, Enlightenment removes five, and holding
/// both cancels out.  Every five unsupported tokens cost one city.
#[derive(Debug, Clone, Default)]
pub struct SlaveRevoltState {
    pub phase: SlaveRevoltPhase,
    pub tokens_cannot_support: usize,
    pub cities_to_reduce: usize,
    pub selected_cities: Vec<Entity>,
}

#[derive(Debug, Clone, Default, PartialEq, Eq, Structural)]
pub enum SlaveRevoltPhase {
    #[default]
    ComputeEffects,
    SelectCities,
    ApplyEffects,
    Complete,
}

/// Cities that lose support: one per five affected tokens, at most the
/// cities owned; affected tokens are those that cannot support, at most
/// those on the board.
pub open spec fn revolt_cities(cannot_support: nat, on_board: nat, cities: nat) -> nat {
    let affected = if cannot_support <= on_board { cannot_support } else { on_board };
    if affected / 5 <= cities { affected / 5 } else { cities }
}

/// The state with Mining: five more tokens cannot support cities.
pub open spec fn mined(s: SlaveRevoltState) -> SlaveRevoltState {
    SlaveRevoltState { tokens_cannot_support: (s.tokens_cannot_support + 5) as usize, ..s }
}

/// The state with Enlightenment: five fewer tokens cannot support cities,
/// never below none.
pub open spec fn enlightened(s: SlaveRevoltState) -> SlaveRevoltState {
    SlaveRevoltState {
        tokens_cannot_support: if s.tokens_cannot_support >= 5 { (s.tokens_cannot_support - 5) as usize } else { 0 },
        ..s
    }
}

impl SlaveRevoltState {
    pub fn new() -> (s: Self)
        ensures
            s.phase == SlaveRevoltPhase::ComputeEffects,
            s.tokens_cannot_support == 15,
            s.cities_to_reduce == 0,
            s.selected_cities@.len() == 0,
    {
        SlaveRevoltState {
            phase: SlaveRevoltPhase::ComputeEffects,
            tokens_cannot_support: 15,
            cities_to_reduce: 0,
            selected_cities: Vec::new(),
        }
    }

    /// Mining: five more tokens cannot support cities.
    pub fn with_mining(self) -> (s: Self)
        requires
            self.tokens_cannot_support <= usize::MAX - 5,
        ensures
            s == mined(self),
    {
        let mut s = self;
        s.tokens_cannot_support = s.tokens_cannot_support + 5;
        s
    }

    /// Enlightenment: five fewer tokens cannot support cities (never below none).
    pub fn with_enlightenment(self) -> (s: Self)
        ensures
            s == enlightened(self),
    {
        let mut s = self;
        s.tokens_cannot_support = if s.tokens_cannot_support >= 5 { s.tokens_cannot_support - 5 } else { 0 };
        s
    }

    /// Mining and Enlightenment together cancel out: nothing changes.
    pub fn with_mining_and_enlightenment(self) -> (s: Self)
        ensures
            s == self,
    {
        self
    }

    /// Sets the cities to reduce from the tokens on the board and the cities owned.
    pub fn compute_cities_to_reduce(&mut self, on_board_tokens: usize, city_count: usize)
        ensures
            *final(self) == (SlaveRevoltState {
                cities_to_reduce: revolt_cities(
                    old(self).tokens_cannot_support as nat,
                    on_board_tokens as nat,
                    city_count as nat,
                ) as usize,
                ..*old(self)
            }),
    {
        let affected = if self.tokens_cannot_support <= on_board_tokens {
            self.tokens_cannot_support
        } else {
            on_board_tokens
        };
        let per_five = affected / 5;
        self.cities_to_reduce = if per_five <= city_count { per_five } else { city_count };
    }

    /// Records `city_area` as chosen unless enough cities are already chosen.
    pub fn select_city(&mut self, city_area: Entity)
        ensures
            final(self).phase == old(self).phase,
            final(self).tokens_cannot_support == old(self).tokens_cannot_support,
            final(self).cities_to_reduce == old(self).cities_to_reduce,
            final(self).selected_cities@ == if old(self).selected_cities@.len()
                < old(self).cities_to_reduce {
                old(self).selected_cities@.push(city_area)
            } else {
                old(self).selected_cities@
            },
    {
        if self.selected_cities.len() < self.cities_to_reduce {
            self.selected_cities.push(city_area);
        }
    }

    pub fn selection_complete(&self) -> (b: bool)
        ensures
            b == (self.selected_cities@.len() >= self.cities_to_reduce || self.cities_to_reduce == 0),
    {
        self.selected_cities.len() >= self.cities_to_reduce || self.cities_to_reduce == 0
    }
}

/// Law: Mining then Enlightenment, in either order, leave the state as it
/// was, which is what holding both does.
pub proof fn lemma_mining_then_enlightenment_cancel(s: SlaveRevoltState)
    requires
        s.tokens_cannot_support <= usize::MAX - 5,
    ensures
        enlightened(mined(s)) == s,
        s.tokens_cannot_support >= 5 ==> mined(enlightened(s)) == s,
{
}

/// Law (rule 30.42): every five tokens that cannot support cities cost one
/// city, so no more cities are reduced than a fifth of the unsupported
/// tokens, a fifth of the tokens on the board, or the cities owned; and
/// exactly the least of the first two, fifths taken, capped by the cities.
pub proof fn lemma_revolt_cities_bounds(cannot_support: nat, on_board: nat, cities: nat)
    ensures
        revolt_cities(cannot_support, on_board, cities) <= cannot_support / 5,
        revolt_cities(cannot_support, on_board, cities) <= on_board / 5,
        revolt_cities(cannot_support, on_board, cities) <= cities,
        revolt_cities(cannot_support, on_board, cities) == if cities <= cannot_support / 5 && cities <= on_board / 5 {
            cities
        } else if cannot_support <= on_board {
            cannot_support / 5
        } else {
            on_board / 5
        },
{
    let affected = if cannot_support <= on_board { cannot_support } else { on_board };
    assert(affected / 5 <= cannot_support / 5) by (nonlinear_arith)
        requires affected <= cannot_support;
    assert(affected / 5 <= on_board / 5) by (nonlinear_arith)
        requires affected <= on_board;
}

} // verus!
