use vstd::prelude::*;
use crate::entity::Entity;

verus! {

/// Iconoclasm and Heresy (rule 30.81): four of the primary victim's cities
/// are reduced; Law and Philosophy spare one each, Theology three, while
/// Monotheism and Road Building cost one more each.  The modifiers add up
/// before the count is clamped at zero, so their order never matters.  The
/// primary victim also orders two other players' cities reduced.
#[derive(Debug, Clone, Default)]
pub struct IconoclasmHeresyState {
    pub phase: IconoclasmHeresyPhase,
    pub cities_to_reduce: usize,
    /// Net signed change to the base of four cities.
    pub modifier: i32,
    pub secondary_cities: usize,
    pub selected_cities: Vec<Entity>,
    pub selected_secondary_cities: Vec<Entity>,
    pub immune_player: Option<Entity>,
}

#[derive(Debug, Clone, Default, PartialEq, Eq, Structural)]
pub enum IconoclasmHeresyPhase {
    #[default]
    ComputeEffects,
    SelectCities,
    SelectSecondaryVictims,
    ApplySecondaryLosses,
    Complete,
}

/// Cities reduced for a net modifier: four plus the modifier, never below none.
pub open spec fn iconoclasm_cities(modifier: int) -> nat {
    if 4 + modifier < 0 { 0 } else { (4 + modifier) as nat }
}

impl IconoclasmHeresyState {
    /// The state after applying a signed change `delta` to the net modifier.
    pub open spec fn spec_apply(self, delta: int) -> Self {
        IconoclasmHeresyState {
            modifier: (self.modifier + delta) as i32,
            cities_to_reduce: iconoclasm_cities(self.modifier + delta) as usize,
            ..self
        }
    }

    /// A change of `delta` keeps the modifier, and four plus it, in range.
    pub open spec fn delta_fits(self, delta: int) -> bool {
        i32::MIN <= self.modifier + delta <= i32::MAX - 4
    }

    /// The state after the changes `deltas`, applied in order.
    pub open spec fn apply_all(self, deltas: Seq<int>) -> Self
        decreases deltas.len(),
    {
        if deltas.len() == 0 {
            self
        } else {
            self.apply_all(deltas.drop_last()).spec_apply(deltas.last())
        }
    }

    /// Every partial sum of `deltas` keeps the modifier in range.
    pub open spec fn all_fit(self, deltas: Seq<int>) -> bool {
        forall|k: int| 1 <= k <= deltas.len() ==> #[trigger] self.delta_fits(delta_sum(deltas.take(k)))
    }

    pub fn new() -> (s: Self)
        ensures
            s.phase == IconoclasmHeresyPhase::ComputeEffects,
            s.cities_to_reduce == 4,
            s.modifier == 0,
            s.secondary_cities == 2,
            s.selected_cities@.len() == 0,
            s.selected_secondary_cities@.len() == 0,
            s.immune_player is None,
    {
        IconoclasmHeresyState {
            phase: IconoclasmHeresyPhase::ComputeEffects,
            cities_to_reduce: 4,
            modifier: 0,
            secondary_cities: 2,
            selected_cities: Vec::new(),
            selected_secondary_cities: Vec::new(),
            immune_player: None,
        }
    }

    /// A signed change `delta` to the net modifier, with the cities to
    /// reduce recomputed from the base of four.
    pub fn apply_modifier(self, delta: i32) -> (s: Self)
        requires
            self.delta_fits(delta as int),
        ensures
            s == self.spec_apply(delta as int),
            s.modifier == self.modifier + delta,
            s.cities_to_reduce == iconoclasm_cities(self.modifier + delta),
    {
        let mut s = self;
        s.modifier = s.modifier + delta;
        let n: i32 = 4 + s.modifier;
        s.cities_to_reduce = if n < 0 { 0 } else { n as usize };
        s
    }

    /// Law: one city fewer.
    pub fn with_law(self) -> (s: Self)
        requires
            self.delta_fits(-1),
        ensures
            s == self.spec_apply(-1),
            s.modifier == self.modifier - 1,
            s.cities_to_reduce == iconoclasm_cities(self.modifier - 1),
    {
        self.apply_modifier(-1)
    }

    /// Philosophy: one city fewer.
    pub fn with_philosophy(self) -> (s: Self)
        requires
            self.delta_fits(-1),
        ensures
            s == self.spec_apply(-1),
            s.modifier == self.modifier - 1,
            s.cities_to_reduce == iconoclasm_cities(self.modifier - 1),
    {
        self.apply_modifier(-1)
    }

    /// Theology: three cities fewer.
    pub fn with_theology(self) -> (s: Self)
        requires
            self.delta_fits(-3),
        ensures
            s == self.spec_apply(-3),
            s.modifier == self.modifier - 3,
            s.cities_to_reduce == iconoclasm_cities(self.modifier - 3),
    {
        self.apply_modifier(-3)
    }

    /// Monotheism: one city more.
    pub fn with_monotheism(self) -> (s: Self)
        requires
            self.delta_fits(1),
        ensures
            s == self.spec_apply(1),
            s.modifier == self.modifier + 1,
            s.cities_to_reduce == iconoclasm_cities(self.modifier + 1),
    {
        self.apply_modifier(1)
    }

    /// Road Building: one city more.
    pub fn with_road_building(self) -> (s: Self)
        requires
            self.delta_fits(1),
        ensures
            s == self.spec_apply(1),
            s.modifier == self.modifier + 1,
            s.cities_to_reduce == iconoclasm_cities(self.modifier + 1),
    {
        self.apply_modifier(1)
    }

    pub fn with_immune_player(self, player: Entity) -> (s: Self)
        ensures
            s == (IconoclasmHeresyState { immune_player: Some(player), ..self }),
            s.modifier == self.modifier,
    {
        let mut s = self;
        s.immune_player = Some(player);
        s
    }

    /// Records `city_area` as chosen unless enough cities are already chosen.
    pub fn select_city(&mut self, city_area: Entity)
        ensures
            *final(self) == (IconoclasmHeresyState {
                selected_cities: final(self).selected_cities,
                ..*old(self)
            }),
            final(self).selected_cities@ == if old(self).selected_cities@.len()
                < old(self).cities_to_reduce {
                old(self).selected_cities@.push(city_area)
            } else {
                old(self).selected_cities@
            },
    {
        if self.selected_cities.len() < self.cities_to_reduce {
            self.selected_cities.push(city_area);
        }
    }

    pub fn selection_complete(&self) -> (b: bool)
        ensures
            b == (self.selected_cities@.len() >= self.cities_to_reduce),
    {
        self.selected_cities.len() >= self.cities_to_reduce
    }

    /// Two changes in a row make one change of their sum.
    proof fn lemma_apply_twice(self, a: int, b: int)
        requires
            self.delta_fits(a),
        ensures
            self.spec_apply(a).spec_apply(b) == self.spec_apply(a + b),
    {
        assert(self.spec_apply(a).modifier == self.modifier + a);
    }

    /// Law (rule 30.817): modifiers are cumulative; any run of them ends
    /// where a single change of their sum does.
    pub proof fn lemma_modifiers_add_up(self, deltas: Seq<int>)
        requires
            deltas.len() > 0,
            self.all_fit(deltas),
        ensures
            self.apply_all(deltas) == self.spec_apply(delta_sum(deltas)),
        decreases deltas.len(),
    {
        let d = deltas.drop_last();
        if d.len() == 0 {
            assert(deltas.take(1) =~= deltas);
            assert(delta_sum(d) == 0);
            assert(self.apply_all(d) == self);
            assert(delta_sum(deltas) == deltas.last());
            assert(self.apply_all(deltas) == self.spec_apply(deltas.last()));
        } else {
            assert forall|k: int| 1 <= k <= d.len() implies #[trigger] self.delta_fits(delta_sum(d.take(k))) by {
                assert(d.take(k) =~= deltas.take(k));
                assert(self.delta_fits(delta_sum(deltas.take(k))));
            }
            self.lemma_modifiers_add_up(d);
            assert(deltas.take(d.len() as int) =~= d);
            assert(self.delta_fits(delta_sum(deltas.take(d.len() as int))));
            self.lemma_apply_twice(delta_sum(d), deltas.last());
            assert(delta_sum(deltas) == delta_sum(d) + deltas.last());
            assert(self.apply_all(deltas) == self.apply_all(d).spec_apply(deltas.last()));
        }
    }

    /// Law (rule 30.817): applying the same modifiers in any order gives the
    /// same state.
    pub proof fn lemma_modifier_order_irrelevant(self, first: Seq<int>, second: Seq<int>)
        requires
            first.len() > 0,
            first.to_multiset() == second.to_multiset(),
            self.all_fit(first),
            self.all_fit(second),
        ensures
            self.apply_all(first) == self.apply_all(second),
    {
        lemma_delta_sum_multiset(first, second);
        second.to_multiset_ensures();
        first.to_multiset_ensures();
        assert(second.len() > 0);
        self.lemma_modifiers_add_up(first);
        self.lemma_modifiers_add_up(second);
    }
}

/// Sum of a list of changes.
pub open spec fn delta_sum(deltas: Seq<int>) -> int
    decreases deltas.len(),
{
    if deltas.len() == 0 {
        0
    } else {
        delta_sum(deltas.drop_last()) + deltas.last()
    }
}

proof fn lemma_delta_sum_remove(s: Seq<int>, j: int)
    requires
        0 <= j < s.len(),
    ensures
        delta_sum(s) == delta_sum(s.remove(j)) + s[j],
    decreases s.len(),
{
    if j < s.len() - 1 {
        lemma_delta_sum_remove(s.drop_last(), j);
        assert(s.remove(j).drop_last() =~= s.drop_last().remove(j));
        assert(s.remove(j).last() == s.last());
    } else {
        assert(s.remove(j) =~= s.drop_last());
    }
}

/// Lists holding the same changes, as often each, have the same sum.
proof fn lemma_delta_sum_multiset(a: Seq<int>, b: Seq<int>)
    requires
        a.to_multiset() == b.to_multiset(),
    ensures
        delta_sum(a) == delta_sum(b),
    decreases a.len(),
{
    a.to_multiset_ensures();
    b.to_multiset_ensures();
    if a.len() == 0 {
        assert(b.len() == 0);
    } else {
        let x = a.last();
        assert(a.to_multiset().count(x) > 0) by {
            assert(a.contains(x));
        }
        assert(b.contains(x));
        let j = choose|j: int| 0 <= j < b.len() && b[j] == x;
        let b2 = b.remove(j);
        let a2 = a.drop_last();
        a2.to_multiset_ensures();
        assert(a =~= a2.push(x));
        assert(a2.to_multiset() =~= a.to_multiset().remove(x)) by {
            broadcast use vstd::multiset::group_multiset_axioms;
        }
        assert(b2.to_multiset() =~= b.to_multiset().remove(x));
        lemma_delta_sum_multiset(a2, b2);
        lemma_delta_sum_remove(b, j);
    }
}

} // verus!
