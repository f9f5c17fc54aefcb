use vstd::prelude::*;
use crate::assoc::{assoc_get, has_key, keys_distinct, lemma_get_absent, lemma_get_index, lemma_get_push, lemma_get_remove, lemma_get_update};
use crate::entity::Entity;
use crate::util::without;

verus! {

/// A ship, with the player who owns it.
#[derive(Debug)]
pub struct Ship {
    pub owner: Entity,
}

impl Ship {
    pub fn new(owner: Entity) -> (s: Self)
        ensures
            s.owner == owner,
    {
        Ship { owner }
    }
}

/// A player's ships that are not on the board (rule 22.4 allows four in all).
#[derive(Debug, Default)]
pub struct ShipStock {
    pub ships: Vec<Entity>,
}

impl ShipStock {
    pub const MAX_SHIPS: usize = 4;

    pub fn new(ships: Vec<Entity>) -> (s: Self)
        ensures
            s.ships@ == ships@,
    {
        ShipStock { ships }
    }

    /// Takes the most recently stocked ship, if any.
    pub fn take_ship(&mut self) -> (r: Option<Entity>)
        ensures
            old(self).ships@.len() == 0 ==> r is None && final(self).ships@ == old(self).ships@,
            old(self).ships@.len() > 0 ==> r == Some(old(self).ships@.last())
                && final(self).ships@ == old(self).ships@.drop_last(),
    {
        self.ships.pop()
    }

    pub fn return_ship(&mut self, ship: Entity)
        ensures
            final(self).ships@ == old(self).ships@.push(ship),
    {
        self.ships.push(ship);
    }

    pub fn count_in_stock(&self) -> (n: usize)
        ensures
            n == self.ships@.len(),
    {
        self.ships.len()
    }

    pub fn is_empty(&self) -> (b: bool)
        ensures
            b == (self.ships@.len() == 0),
    {
        self.ships.is_empty()
    }
}

/// A player's ships on the board, grouped by the area they are in; an area
/// is listed once, and only while it holds a ship.
#[derive(Debug, Default)]
pub struct PlayerShips {
    pub ships_by_area: Vec<(Entity, Vec<Entity>)>,
}

/// Sum of the lengths of the ship lists.
pub open spec fn ship_total(s: Seq<(Entity, Vec<Entity>)>) -> nat
    decreases s.len(),
{
    if s.len() == 0 {
        0
    } else {
        ship_total(s.drop_last()) + s.last().1@.len()
    }
}

impl PlayerShips {
    /// Each area is listed once and holds at least one ship.
    pub open spec fn wf(self) -> bool {
        &&& keys_distinct(self.ships_by_area@)
        &&& forall|i: int|
            0 <= i < self.ships_by_area@.len() ==> (#[trigger] self.ships_by_area@[i]).1@.len() > 0
    }

    /// The ships in `area`.
    pub open spec fn ships_at(self, area: Entity) -> Seq<Entity> {
        match assoc_get(self.ships_by_area@, area) {
            Some(v) => v@,
            None => Seq::empty(),
        }
    }

    fn area_index(&self, area: Entity) -> (r: Option<usize>)
        ensures
            r is None ==> !has_key(self.ships_by_area@, area),
            r matches Some(i) ==> i < self.ships_by_area@.len() && self.ships_by_area@[i as int].0 == area,
    {
        let mut i: usize = 0;
        while i < self.ships_by_area.len()
            invariant
                i <= self.ships_by_area@.len(),
                forall|j: int| 0 <= j < i ==> (#[trigger] self.ships_by_area@[j]).0 != area,
            decreases self.ships_by_area@.len() - i,
        {
            if self.ships_by_area[i].0 == area {
                return Some(i);
            }
            i += 1;
        }
        None
    }

    /// The ships in `area`.
    pub fn ships_in_area(&self, area: Entity) -> (r: Vec<Entity>)
        requires
            self.wf(),
        ensures
            r@ == self.ships_at(area),
    {
        match self.area_index(area) {
            Some(i) => {
                proof {
                    lemma_get_index(self.ships_by_area@, i as int);
                }
                crate::util::copy_entities(&self.ships_by_area[i].1)
            },
            None => {
                proof {
                    lemma_get_absent(self.ships_by_area@, area);
                }
                Vec::new()
            },
        }
    }

    /// Puts `ship` in `area`.
    pub fn place_ship(&mut self, area: Entity, ship: Entity)
        requires
            old(self).wf(),
        ensures
            final(self).wf(),
            forall|a: Entity|
                #[trigger] final(self).ships_at(a) == if a == area {
                    old(self).ships_at(area).push(ship)
                } else {
                    old(self).ships_at(a)
                },
    {
        let ghost s0 = self.ships_by_area@;
        match self.area_index(area) {
            Some(i) => {
                let (k, mut v) = self.ships_by_area.remove(i);
                proof {
                    lemma_get_index(s0, i as int);
                }
                v.push(ship);
                self.ships_by_area.insert(i, (k, v));
                proof {
                    assert(self.ships_by_area@ =~= s0.update(i as int, (k, v)));
                    assert forall|a: Entity|
                        #[trigger] self.ships_at(a) == if a == area {
                            old(self).ships_at(area).push(ship)
                        } else {
                            old(self).ships_at(a)
                        } by {
                        lemma_get_update(s0, i as int, v, a);
                    }
                    assert forall|j: int| 0 <= j < self.ships_by_area@.len() implies (
                    #[trigger] self.ships_by_area@[j]).1@.len() > 0 by {
                        if j != i {
                            assert(self.ships_by_area@[j] == s0[j]);
                        }
                    }
                    lemma_get_update(s0, i as int, v, area);
                }
            },
            None => {
                let mut v: Vec<Entity> = Vec::new();
                v.push(ship);
                self.ships_by_area.push((area, v));
                proof {
                    lemma_get_absent(s0, area);
                    assert forall|a: Entity|
                        #[trigger] self.ships_at(a) == if a == area {
                            old(self).ships_at(area).push(ship)
                        } else {
                            old(self).ships_at(a)
                        } by {
                        lemma_get_push(s0, area, v, a);
                    }
                    assert forall|j: int| 0 <= j < self.ships_by_area@.len() implies (
                    #[trigger] self.ships_by_area@[j]).1@.len() > 0 by {
                        if j < s0.len() {
                            assert(self.ships_by_area@[j] == s0[j]);
                        }
                    }
                    lemma_get_push(s0, area, v, area);
                }
            },
        }
    }

    /// Takes the most recently placed ship out of `area`, if it holds one.
    pub fn remove_ship_from_area(&mut self, area: Entity) -> (r: Option<Entity>)
        requires
            old(self).wf(),
        ensures
            final(self).wf(),
            old(self).ships_at(area).len() == 0 ==> r is None,
            old(self).ships_at(area).len() > 0 ==> r == Some(old(self).ships_at(area).last()),
            forall|a: Entity|
                #[trigger] final(self).ships_at(a) == if a == area && old(self).ships_at(area).len() > 0 {
                    old(self).ships_at(area).drop_last()
                } else {
                    old(self).ships_at(a)
                },
    {
        let ghost s0 = self.ships_by_area@;
        match self.area_index(area) {
            Some(i) => {
                proof {
                    lemma_get_index(s0, i as int);
                }
                let (k, mut v) = self.ships_by_area.remove(i);
                let ship = v.pop();
                if v.len() > 0 {
                    self.ships_by_area.insert(i, (k, v));
                    proof {
                        assert(self.ships_by_area@ =~= s0.update(i as int, (k, v)));
                        assert forall|a: Entity|
                            #[trigger] self.ships_at(a) == if a == area && old(self).ships_at(area).len() > 0 {
                                old(self).ships_at(area).drop_last()
                            } else {
                                old(self).ships_at(a)
                            } by {
                            lemma_get_update(s0, i as int, v, a);
                        }
                        assert forall|j: int| 0 <= j < self.ships_by_area@.len() implies (
                        #[trigger] self.ships_by_area@[j]).1@.len() > 0 by {
                            if j != i {
                                assert(self.ships_by_area@[j] == s0[j]);
                            }
                        }
                        lemma_get_update(s0, i as int, v, area);
                    }
                } else {
                    proof {
                        assert forall|a: Entity|
                            #[trigger] self.ships_at(a) == if a == area && old(self).ships_at(area).len() > 0 {
                                old(self).ships_at(area).drop_last()
                            } else {
                                old(self).ships_at(a)
                            } by {
                            lemma_get_remove(s0, i as int, a);
                            if a == area {
                                assert(old(self).ships_at(area).drop_last() =~= Seq::<Entity>::empty());
                            }
                        }
                        assert forall|j: int| 0 <= j < self.ships_by_area@.len() implies (
                        #[trigger] self.ships_by_area@[j]).1@.len() > 0 by {
                            let sj = if j < i { j } else { j + 1 };
                            assert(self.ships_by_area@[j] == s0[sj]);
                        }
                        lemma_get_remove(s0, i as int, area);
                    }
                }
                ship
            },
            None => {
                proof {
                    lemma_get_absent(s0, area);
                }
                None
            },
        }
    }

    pub fn total_ships_on_board(&self) -> (n: usize)
        requires
            ship_total(self.ships_by_area@) <= usize::MAX,
        ensures
            n == ship_total(self.ships_by_area@),
    {
        let mut n: usize = 0;
        let mut i: usize = 0;
        while i < self.ships_by_area.len()
            invariant
                i <= self.ships_by_area@.len(),
                ship_total(self.ships_by_area@) <= usize::MAX,
                n == ship_total(self.ships_by_area@.take(i as int)),
            decreases self.ships_by_area@.len() - i,
        {
            proof {
                assert(self.ships_by_area@.take(i + 1).drop_last() =~= self.ships_by_area@.take(i as int));
                lemma_ship_total_prefix(self.ships_by_area@, i + 1);
            }
            n = n + self.ships_by_area[i].1.len();
            i += 1;
        }
        assert(self.ships_by_area@.take(i as int) =~= self.ships_by_area@);
        n
    }

    /// Every area holding a ship, each once.
    pub fn all_areas_with_ships(&self) -> (r: Vec<Entity>)
        requires
            self.wf(),
        ensures
            r@.len() == self.ships_by_area@.len(),
            forall|i: int| 0 <= i < r@.len() ==> r@[i] == (#[trigger] self.ships_by_area@[i]).0,
            forall|a: Entity| r@.contains(a) <==> #[trigger] self.ships_at(a).len() > 0,
    {
        let mut r: Vec<Entity> = Vec::new();
        let mut i: usize = 0;
        while i < self.ships_by_area.len()
            invariant
                i <= self.ships_by_area@.len(),
                r@.len() == i,
                forall|j: int| 0 <= j < i ==> r@[j] == (#[trigger] self.ships_by_area@[j]).0,
            decreases self.ships_by_area@.len() - i,
        {
            r.push(self.ships_by_area[i].0);
            i += 1;
        }
        proof {
            assert forall|a: Entity| r@.contains(a) <==> #[trigger] self.ships_at(a).len() > 0 by {
                lemma_get_absent(self.ships_by_area@, a);
                if r@.contains(a) {
                    let j = choose|j: int| 0 <= j < r@.len() && r@[j] == a;
                    lemma_get_index(self.ships_by_area@, j);
                    assert(self.ships_by_area@[j].1@.len() > 0);
                }
                if self.ships_at(a).len() > 0 {
                    let j = choose|j: int|
                        0 <= j < self.ships_by_area@.len() && (#[trigger] self.ships_by_area@[j]).0 == a;
                    assert(r@[j] == a);
                }
            }
        }
        r
    }
}

proof fn lemma_ship_total_prefix(s: Seq<(Entity, Vec<Entity>)>, k: int)
    requires
        0 <= k <= s.len(),
    ensures
        ship_total(s.take(k)) <= ship_total(s),
    decreases s.len() - k,
{
    if k < s.len() {
        lemma_ship_total_prefix(s, k + 1);
        assert(s.take(k + 1).drop_last() =~= s.take(k));
    } else {
        assert(s.take(k) =~= s);
    }
}

/// The players of `s` that are in `incl`, in order.
pub open spec fn only(s: Seq<Entity>, incl: Seq<Entity>) -> Seq<Entity>
    decreases s.len(),
{
    if s.len() == 0 {
        Seq::empty()
    } else if incl.contains(s.last()) {
        only(s.drop_last(), incl).push(s.last())
    } else {
        only(s.drop_last(), incl)
    }
}

/// Rule 22.1/22.11: ships are built in census order, except that holders of
/// Military go after everybody else; within each group census order stands.
pub fn ship_build_order(census_order: &Vec<Entity>, military_holders: &Vec<Entity>) -> (r: Vec<Entity>)
    ensures
        r@ == without(census_order@, military_holders@) + only(census_order@, military_holders@),
{
    let mut first: Vec<Entity> = Vec::new();
    let mut last: Vec<Entity> = Vec::new();
    let mut i: usize = 0;
    while i < census_order.len()
        invariant
            i <= census_order@.len(),
            first@ == without(census_order@.take(i as int), military_holders@),
            last@ == only(census_order@.take(i as int), military_holders@),
        decreases census_order@.len() - i,
    {
        assert(census_order@.take(i + 1).drop_last() =~= census_order@.take(i as int));
        let p = census_order[i];
        if crate::util::contains_entity(military_holders, p) {
            last.push(p);
        } else {
            first.push(p);
        }
        i += 1;
    }
    assert(census_order@.take(i as int) =~= census_order@);
    let mut j: usize = 0;
    let ghost first0 = first@;
    while j < last.len()
        invariant
            j <= last@.len(),
            first@ == first0 + last@.take(j as int),
        decreases last@.len() - j,
    {
        first.push(last[j]);
        assert(last@.take(j + 1) =~= last@.take(j as int).push(last@[j as int]));
        assert(first0 + last@.take(j + 1) =~= (first0 + last@.take(j as int)).push(last@[j as int]));
        j += 1;
    }
    assert(last@.take(j as int) =~= last@);
    first
}

/// Law: the build order holds exactly the players of the census order,
/// each as often.
pub proof fn lemma_build_order_is_permutation(census: Seq<Entity>, military: Seq<Entity>)
    ensures
        (without(census, military) + only(census, military)).to_multiset() =~= census.to_multiset(),
    decreases census.len(),
{
    if census.len() > 0 {
        let d = census.drop_last();
        let x = census.last();
        let xs = seq![x];
        lemma_build_order_is_permutation(d, military);
        let w = without(d, military);
        let o = only(d, military);
        vstd::seq_lib::lemma_multiset_commutative(w, o);
        assert(census =~= d + xs);
        vstd::seq_lib::lemma_multiset_commutative(d, xs);
        if military.contains(x) {
            assert(only(census, military) =~= o + xs);
            assert(without(census, military) =~= w);
            vstd::seq_lib::lemma_multiset_commutative(o, xs);
            vstd::seq_lib::lemma_multiset_commutative(w, o + xs);
        } else {
            assert(only(census, military) =~= o);
            assert(without(census, military) =~= w + xs);
            vstd::seq_lib::lemma_multiset_commutative(w, xs);
            vstd::seq_lib::lemma_multiset_commutative(w + xs, o);
        }
    } else {
        assert(without(census, military) + only(census, military) =~= census);
    }
}

/// Tokens paid for a new ship (rule 22.1): two, from the treasury first,
/// the rest levied from the area the ship is built in.
pub fn construction_payment(treasury_tokens: usize) -> (r: (usize, usize))
    ensures
        r.0 == if treasury_tokens <= 2 { treasury_tokens } else { 2 },
        r.0 + r.1 == 2,
{
    let from_treasury = if treasury_tokens <= 2 { treasury_tokens } else { 2 };
    (from_treasury, 2 - from_treasury)
}

/// How the upkeep of one ship is paid (rule 22.3).
#[derive(Debug, Clone, Copy, PartialEq, Eq, Structural)]
pub enum MaintenanceSource {
    Treasury,
    Levy,
    Unpaid,
}

/// The upkeep of a ship is one token: from the treasury if it has one,
/// else levied from the area the ship occupies; a ship that cannot be paid
/// for returns to stock.
pub fn maintenance_source(treasury_tokens: usize, area_tokens: usize) -> (s: MaintenanceSource)
    ensures
        s == if treasury_tokens >= 1 {
            MaintenanceSource::Treasury
        } else if area_tokens >= 1 {
            MaintenanceSource::Levy
        } else {
            MaintenanceSource::Unpaid
        },
{
    if treasury_tokens >= 1 {
        MaintenanceSource::Treasury
    } else if area_tokens >= 1 {
        MaintenanceSource::Levy
    } else {
        MaintenanceSource::Unpaid
    }
}

/// Whether a computer player can afford a ship in an area: the treasury
/// and the area's spare tokens (all but one) together cover two.
pub fn ai_can_afford_ship(treasury_tokens: usize, area_tokens: usize) -> (b: bool)
    ensures
        b == (treasury_tokens + (if area_tokens >= 1 { area_tokens - 1 } else { 0 }) >= 2),
{
    let spare = if area_tokens >= 1 { area_tokens - 1 } else { 0 };
    treasury_tokens >= 2 || spare >= 2 - treasury_tokens
}

/// The most ships a human player may build: limited by the fleet cap, by
/// what the treasury and the tokens in the offered areas pay for at two a
/// ship, and by the ships in stock.
pub fn human_max_buildable(
    ships_on_board: usize,
    treasury_tokens: usize,
    area_tokens: usize,
    in_stock: usize,
) -> (n: usize)
    requires
        ships_on_board < ShipStock::MAX_SHIPS,
    ensures
        ({
            let affordable = (treasury_tokens + area_tokens) / 2;
            let cap = ShipStock::MAX_SHIPS - ships_on_board;
            let m = if cap <= affordable { cap } else { affordable };
            n == if m <= in_stock { m } else { in_stock as int }
        }),
{
    let affordable = treasury_tokens / 2 + area_tokens / 2 + (treasury_tokens % 2 + area_tokens % 2) / 2;
    let cap = ShipStock::MAX_SHIPS - ships_on_board;
    let m = if cap <= affordable { cap } else { affordable };
    if m <= in_stock { m } else { in_stock }
}

} // verus!
