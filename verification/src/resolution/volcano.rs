//! Volcanic Eruption or Earthquake (rule 30.21): where the volcano erupts,
//! or which cities the earthquake takes.
use vstd::prelude::*;
use crate::calamities::volcano_earthquake::VolcanoEarthquakeState;
use crate::entity::Entity;
use crate::resolution::board::{
    city_owner_at, city_owner_of, find_area, land_neighbours_at, tokens_at, tokens_at_area, BoardArea,
};
use crate::util::contains_entity;

verus! {

/// Damage to player `p` in area `e`: five for their city, one per token.
pub open spec fn damage_at(s: Seq<BoardArea>, e: Entity, p: Entity) -> nat {
    (if city_owner_at(s, e) == Some(p) { 5nat } else { 0nat }) + tokens_at(s, e, p)
}

/// Damage to player `p` over a list of areas.
pub open spec fn damage_over(s: Seq<BoardArea>, ns: Seq<Entity>, p: Entity) -> nat
    decreases ns.len(),
{
    if ns.len() == 0 {
        0
    } else {
        damage_over(s, ns.drop_last(), p) + damage_at(s, ns.last(), p)
    }
}

/// A city of player `p` stands in one of the areas.
pub open spec fn city_among(s: Seq<BoardArea>, ns: Seq<Entity>, p: Entity) -> bool {
    exists|k: int| 0 <= k < ns.len() && city_owner_at(s, #[trigger] ns[k]) == Some(p)
}

/// Damage to player `p` of an eruption of the volcano in area `v`: the
/// volcano's area and every area bordering it by land.
pub open spec fn eruption_damage(s: Seq<BoardArea>, v: Entity, p: Entity) -> nat {
    damage_at(s, v, p) + damage_over(s, land_neighbours_at(s, v), p)
}

/// An eruption in `v` reaches a city of player `p`.
pub open spec fn eruption_hits_city(s: Seq<BoardArea>, v: Entity, p: Entity) -> bool {
    city_owner_at(s, v) == Some(p) || city_among(s, land_neighbours_at(s, v), p)
}

/// The areas an eruption in `v` clears: the volcano's own, then its land
/// neighbours.
pub open spec fn eruption_areas(s: Seq<BoardArea>, v: Entity) -> Seq<Entity> {
    seq![v] + land_neighbours_at(s, v)
}

/// Rule 30.211: the eruption chosen is the one at volcano `vs[i]`: it reaches
/// a city of the victim, no such eruption does more damage, and every such
/// eruption listed before it does less.
pub open spec fn is_best_eruption(s: Seq<BoardArea>, vs: Seq<Entity>, p: Entity, i: int) -> bool {
    &&& 0 <= i < vs.len()
    &&& eruption_hits_city(s, vs[i], p)
    &&& forall|j: int|
        0 <= j < vs.len() && eruption_hits_city(s, #[trigger] vs[j], p) ==> eruption_damage(s, vs[j], p)
            <= eruption_damage(s, vs[i], p)
    &&& forall|j: int|
        0 <= j < i && eruption_hits_city(s, #[trigger] vs[j], p) ==> eruption_damage(s, vs[j], p)
            < eruption_damage(s, vs[i], p)
}

/// Every eruption's damage to `p` fits in a `usize`.
pub open spec fn eruption_damages_fit(s: Seq<BoardArea>, vs: Seq<Entity>, p: Entity) -> bool {
    forall|j: int| 0 <= j < vs.len() ==> eruption_damage(s, #[trigger] vs[j], p) <= usize::MAX
}

proof fn lemma_damage_over_prefix(s: Seq<BoardArea>, ns: Seq<Entity>, p: Entity, k: int)
    requires
        0 <= k <= ns.len(),
    ensures
        damage_over(s, ns.take(k), p) <= damage_over(s, ns, p),
    decreases ns.len(),
{
    if k < ns.len() {
        assert(ns.drop_last().take(k) =~= ns.take(k));
        lemma_damage_over_prefix(s, ns.drop_last(), p, k);
    } else {
        assert(ns.take(k) =~= ns);
    }
}

/// The victim's damage from an eruption in `v`, whether it reaches one of
/// their cities, and the areas it clears.
pub fn eruption_of(areas: &Vec<BoardArea>, v: Entity, p: Entity) -> (r: (usize, bool, Vec<Entity>))
    requires
        eruption_damage(areas@, v, p) <= usize::MAX,
    ensures
        r.0 == eruption_damage(areas@, v, p),
        r.1 == eruption_hits_city(areas@, v, p),
        r.2@ == eruption_areas(areas@, v),
{
    let owner = city_owner_of(areas, v);
    let own_city = owner == Some(p);
    let mut damage: usize = (if own_city { 5 } else { 0 }) + tokens_at_area(areas, v, p);
    let mut hits = own_city;
    let mut clear: Vec<Entity> = vec![v];
    let ghost ns = land_neighbours_at(areas@, v);
    let ns_exec: Vec<Entity> = match find_area(areas, v) {
        Some(i) => areas[i].land_neighbours.clone(),
        None => Vec::new(),
    };
    assert(ns_exec@ == ns);
    let mut k: usize = 0;
    while k < ns_exec.len()
        invariant
            k <= ns.len(),
            ns_exec@ == ns,
            ns == land_neighbours_at(areas@, v),
            eruption_damage(areas@, v, p) <= usize::MAX,
            damage == damage_at(areas@, v, p) + damage_over(areas@, ns.take(k as int), p),
            hits == (city_owner_at(areas@, v) == Some(p) || city_among(areas@, ns.take(k as int), p)),
            clear@ == seq![v] + ns.take(k as int),
        decreases ns.len() - k,
    {
        let n = ns_exec[k];
        assert(ns.take(k + 1).drop_last() =~= ns.take(k as int));
        assert(ns.take(k + 1).last() == n);
        proof {
            lemma_damage_over_prefix(areas@, ns, p, k + 1);
        }
        let n_owner = city_owner_of(areas, n);
        let n_city = n_owner == Some(p);
        damage = damage + (if n_city { 5 } else { 0 }) + tokens_at_area(areas, n, p);
        proof {
            let t = ns.take(k + 1);
            if city_among(areas@, ns.take(k as int), p) {
                let w = choose|w: int| 0 <= w < k && city_owner_at(areas@, #[trigger] ns.take(k as int)[w]) == Some(p);
                assert(t[w] == ns.take(k as int)[w]);
            }
            if n_city {
                assert(t[k as int] == n);
            }
            if city_among(areas@, t, p) {
                let w = choose|w: int| 0 <= w < k + 1 && city_owner_at(areas@, #[trigger] t[w]) == Some(p);
                if w < k {
                    assert(ns.take(k as int)[w] == t[w]);
                }
            }
        }
        hits = hits || n_city;
        clear.push(n);
        k += 1;
        assert(clear@ =~= seq![v] + ns.take(k as int));
    }
    assert(ns.take(k as int) =~= ns);
    (damage, hits, clear)
}

/// Rule 30.211: of the volcanoes whose eruption reaches a city of the
/// victim, the one doing most damage erupts (the first listed among equals);
/// with none, there is no eruption. Gives the volcano's area and the areas
/// it clears.
pub fn find_best_volcano_eruption(
    primary_victim: Entity,
    volcano_areas: &Vec<Entity>,
    areas: &Vec<BoardArea>,
) -> (r: Option<(Entity, Vec<Entity>)>)
    requires
        eruption_damages_fit(areas@, volcano_areas@, primary_victim),
    ensures
        r is None <==> forall|j: int|
            0 <= j < volcano_areas@.len() ==> !eruption_hits_city(areas@, #[trigger] volcano_areas@[j], primary_victim),
        r matches Some((v, clear)) ==> exists|i: int|
            is_best_eruption(areas@, volcano_areas@, primary_victim, i) && volcano_areas@[i] == v
                && clear@ == eruption_areas(areas@, v),
{
    let p = primary_victim;
    let mut best: Option<(usize, usize, Vec<Entity>)> = None;
    let mut k: usize = 0;
    while k < volcano_areas.len()
        invariant
            k <= volcano_areas@.len(),
            eruption_damages_fit(areas@, volcano_areas@, p),
            best is None ==> forall|j: int| 0 <= j < k ==> !eruption_hits_city(areas@, #[trigger] volcano_areas@[j], p),
            best matches Some((i, d, c)) ==> {
                &&& i < k
                &&& d == eruption_damage(areas@, volcano_areas@[i as int], p)
                &&& c@ == eruption_areas(areas@, volcano_areas@[i as int])
                &&& eruption_hits_city(areas@, volcano_areas@[i as int], p)
                &&& forall|j: int| 0 <= j < k && eruption_hits_city(areas@, #[trigger] volcano_areas@[j], p)
                    ==> eruption_damage(areas@, volcano_areas@[j], p) <= d
                &&& forall|j: int| 0 <= j < i && eruption_hits_city(areas@, #[trigger] volcano_areas@[j], p)
                    ==> eruption_damage(areas@, volcano_areas@[j], p) < d
            },
        decreases volcano_areas@.len() - k,
    {
        let v = volcano_areas[k];
        assert(eruption_damage(areas@, volcano_areas@[k as int], p) <= usize::MAX);
        let (d, hits, clear) = eruption_of(areas, v, p);
        if hits {
            let better = match &best {
                None => true,
                Some((_, bd, _)) => d > *bd,
            };
            if better {
                best = Some((k, d, clear));
            }
        }
        k += 1;
    }
    match best {
        None => None,
        Some((i, _, c)) => {
            assert(is_best_eruption(areas@, volcano_areas@, p, i as int));
            Some((volcano_areas[i], c))
        },
    }
}

/// Rule 30.212: the earthquake's secondary target is a city bordering the
/// destroyed one by land whose owner is another player not holding
/// Engineering.
pub open spec fn quake_target(s: Seq<BoardArea>, n: Entity, victim: Entity, engineering: Seq<Entity>) -> bool {
    match city_owner_at(s, n) {
        Some(o) => o != victim && !engineering.contains(o),
        None => false,
    }
}

/// The first land neighbour of `city_area` holding a city that the
/// earthquake may reduce, if any (`engineering_holders` lists the players
/// holding Engineering, who are immune).
pub fn find_adjacent_city_to_reduce(
    city_area: Entity,
    primary_victim: Entity,
    areas: &Vec<BoardArea>,
    engineering_holders: &Vec<Entity>,
) -> (r: Option<Entity>)
    ensures
        r is None <==> forall|k: int|
            0 <= k < land_neighbours_at(areas@, city_area).len() ==> !quake_target(
                areas@,
                #[trigger] land_neighbours_at(areas@, city_area)[k],
                primary_victim,
                engineering_holders@,
            ),
        r matches Some(x) ==> exists|k: int|
            0 <= k < land_neighbours_at(areas@, city_area).len() && land_neighbours_at(areas@, city_area)[k]
                == x && quake_target(areas@, x, primary_victim, engineering_holders@) && forall|j: int|
                0 <= j < k ==> !quake_target(
                    areas@,
                    #[trigger] land_neighbours_at(areas@, city_area)[j],
                    primary_victim,
                    engineering_holders@,
                ),
{
    let ghost ns = land_neighbours_at(areas@, city_area);
    let ns_exec: Vec<Entity> = match find_area(areas, city_area) {
        Some(i) => areas[i].land_neighbours.clone(),
        None => Vec::new(),
    };
    assert(ns_exec@ == ns);
    let mut k: usize = 0;
    while k < ns_exec.len()
        invariant
            k <= ns.len(),
            ns_exec@ == ns,
            ns == land_neighbours_at(areas@, city_area),
            forall|j: int| 0 <= j < k ==> !quake_target(areas@, #[trigger] ns[j], primary_victim, engineering_holders@),
        decreases ns.len() - k,
    {
        let n = ns_exec[k];
        match city_owner_of(areas, n) {
            Some(o) => {
                if o != primary_victim && !contains_entity(engineering_holders, o) {
                    assert(ns[k as int] == n);
                    return Some(n);
                }
            },
            None => {},
        }
        k += 1;
    }
    None
}

/// The state Volcano/Earthquake starts in (rule 30.21): an eruption where it
/// hurts the victim most; failing that an earthquake destroying the victim's
/// first city (only reducing it with Engineering) and reducing a
/// neighbouring enemy city; failing that, nothing.
pub fn volcano_earthquake_start(
    primary_victim: Entity,
    volcano_areas: &Vec<Entity>,
    areas: &Vec<BoardArea>,
    victim_city_areas: &Vec<Entity>,
    has_engineering: bool,
    engineering_holders: &Vec<Entity>,
) -> (s: VolcanoEarthquakeState)
    requires
        eruption_damages_fit(areas@, volcano_areas@, primary_victim),
    ensures
        (exists|i: int| is_best_eruption(areas@, volcano_areas@, primary_victim, i)) ==> {
            &&& s.is_volcano
            &&& exists|i: int|
                is_best_eruption(areas@, volcano_areas@, primary_victim, i) && s.volcano_area == Some(
                    volcano_areas@[i],
                ) && s.areas_to_clear@ == eruption_areas(areas@, volcano_areas@[i])
        },
        !(exists|i: int| is_best_eruption(areas@, volcano_areas@, primary_victim, i))
            ==> !s.is_volcano && s.volcano_area is None && s.areas_to_clear@.len() == 0,
        !(exists|i: int| is_best_eruption(areas@, volcano_areas@, primary_victim, i))
            && victim_city_areas@.len() > 0 ==> {
            let c = victim_city_areas@[0];
            &&& s.has_engineering == has_engineering
            &&& s.city_to_destroy == if has_engineering { None } else { Some(c) }
            &&& has_engineering ==> s.city_to_reduce == Some(c)
            &&& !has_engineering ==> (s.city_to_reduce is None <==> forall|k: int|
                0 <= k < land_neighbours_at(areas@, c).len() ==> !quake_target(
                    areas@,
                    #[trigger] land_neighbours_at(areas@, c)[k],
                    primary_victim,
                    engineering_holders@,
                ))
            &&& !has_engineering ==> (s.city_to_reduce matches Some(x) ==> exists|k: int|
                0 <= k < land_neighbours_at(areas@, c).len() && land_neighbours_at(areas@, c)[k] == x
                    && quake_target(areas@, x, primary_victim, engineering_holders@) && forall|j: int|
                    0 <= j < k ==> !quake_target(
                        areas@,
                        #[trigger] land_neighbours_at(areas@, c)[j],
                        primary_victim,
                        engineering_holders@,
                    ))
        },
        !(exists|i: int| is_best_eruption(areas@, volcano_areas@, primary_victim, i))
            && victim_city_areas@.len() == 0 ==> s.city_to_destroy is None && s.city_to_reduce is None,
{
    match find_best_volcano_eruption(primary_victim, volcano_areas, areas) {
        Some((v, clear)) => VolcanoEarthquakeState::as_volcano(v, clear),
        None => {
            proof {
                if exists|i: int| is_best_eruption(areas@, volcano_areas@, primary_victim, i) {
                    let i = choose|i: int| is_best_eruption(areas@, volcano_areas@, primary_victim, i);
                    assert(eruption_hits_city(areas@, volcano_areas@[i], primary_victim));
                }
            }
            if victim_city_areas.len() == 0 {
                VolcanoEarthquakeState::new()
            } else {
                let city = victim_city_areas[0];
                let to_reduce = find_adjacent_city_to_reduce(city, primary_victim, areas, engineering_holders);
                VolcanoEarthquakeState::as_earthquake(city, to_reduce, has_engineering)
            }
        },
    }
}

proof fn lemma_damage_over_front(s: Seq<BoardArea>, v: Entity, ns: Seq<Entity>, p: Entity)
    ensures
        damage_over(s, seq![v] + ns, p) == damage_at(s, v, p) + damage_over(s, ns, p),
    decreases ns.len(),
{
    if ns.len() > 0 {
        assert((seq![v] + ns).drop_last() =~= seq![v] + ns.drop_last());
        assert((seq![v] + ns).last() == ns.last());
        lemma_damage_over_front(s, v, ns.drop_last(), p);
    } else {
        let one = seq![v] + ns;
        assert(one.drop_last() =~= Seq::<Entity>::empty());
        assert(one.last() == v);
        assert(damage_over(s, Seq::<Entity>::empty(), p) == 0);
        assert(damage_over(s, ns, p) == 0);
        assert(damage_over(s, one, p) == damage_over(s, one.drop_last(), p) + damage_at(s, one.last(), p));
    }
}

/// Law (rule 30.211): an eruption does the victim the damage of every area
/// it clears, the volcano's own and each of its land neighbours, five per
/// city of theirs and one per token.
pub proof fn lemma_eruption_damage_covers_cleared_areas(s: Seq<BoardArea>, v: Entity, p: Entity)
    ensures
        eruption_damage(s, v, p) == damage_over(s, eruption_areas(s, v), p),
        forall|k: int|
            0 <= k < eruption_areas(s, v).len() ==> damage_at(s, #[trigger] eruption_areas(s, v)[k], p)
                <= eruption_damage(s, v, p),
{
    lemma_damage_over_front(s, v, land_neighbours_at(s, v), p);
    assert forall|k: int| 0 <= k < eruption_areas(s, v).len() implies damage_at(
        s,
        #[trigger] eruption_areas(s, v)[k],
        p,
    ) <= eruption_damage(s, v, p) by {
        lemma_damage_at_within(s, eruption_areas(s, v), p, k);
    }
}

proof fn lemma_damage_at_within(s: Seq<BoardArea>, ns: Seq<Entity>, p: Entity, k: int)
    requires
        0 <= k < ns.len(),
    ensures
        damage_at(s, ns[k], p) <= damage_over(s, ns, p),
    decreases ns.len(),
{
    if k < ns.len() - 1 {
        assert(ns.drop_last()[k] == ns[k]);
        lemma_damage_at_within(s, ns.drop_last(), p, k);
    }
}

} // verus!
