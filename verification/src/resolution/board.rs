//! What the calamity rules read of the map: for each area, its city's owner,
//! the tokens each player has there, and the areas it borders. An area the
//! snapshot does not list reads as empty, bordering nothing.
use vstd::prelude::*;
use crate::assoc::assoc_get;
use crate::entity::Entity;

verus! {

/// One area of the map as the calamity rules see it.
#[derive(Debug, Clone)]
pub struct BoardArea {
    pub area: Entity,
    /// The player whose city stands here, if any.
    pub city_owner: Option<Entity>,
    /// Tokens of each player present here.
    pub population: Vec<(Entity, usize)>,
    /// Areas reached by land.
    pub land_neighbours: Vec<Entity>,
    /// Areas reached by sea.
    pub sea_neighbours: Vec<Entity>,
    /// Open sea: no unit may end there.
    pub open_sea: bool,
    /// The area touches the sea.
    pub coastal: bool,
}

/// The first entry describing area `e`, if any.
pub open spec fn lookup(s: Seq<BoardArea>, e: Entity) -> Option<BoardArea>
    decreases s.len(),
{
    if s.len() == 0 {
        None
    } else if s[0].area == e {
        Some(s[0])
    } else {
        lookup(s.drop_first(), e)
    }
}

/// Tokens of player `p` in an area.
pub open spec fn tokens_in(a: BoardArea, p: Entity) -> nat {
    match assoc_get(a.population@, p) {
        Some(n) => n as nat,
        None => 0,
    }
}

/// Tokens of player `p` in area `e`.
pub open spec fn tokens_at(s: Seq<BoardArea>, e: Entity, p: Entity) -> nat {
    match lookup(s, e) {
        Some(a) => tokens_in(a, p),
        None => 0,
    }
}

/// The owner of the city in area `e`, if any.
pub open spec fn city_owner_at(s: Seq<BoardArea>, e: Entity) -> Option<Entity> {
    match lookup(s, e) {
        Some(a) => a.city_owner,
        None => None,
    }
}

/// The areas that border area `e` by land.
pub open spec fn land_neighbours_at(s: Seq<BoardArea>, e: Entity) -> Seq<Entity> {
    match lookup(s, e) {
        Some(a) => a.land_neighbours@,
        None => Seq::empty(),
    }
}

/// The areas that border area `e` by sea.
pub open spec fn sea_neighbours_at(s: Seq<BoardArea>, e: Entity) -> Seq<Entity> {
    match lookup(s, e) {
        Some(a) => a.sea_neighbours@,
        None => Seq::empty(),
    }
}

/// Area `e` is open sea.
pub open spec fn open_sea_at(s: Seq<BoardArea>, e: Entity) -> bool {
    match lookup(s, e) {
        Some(a) => a.open_sea,
        None => false,
    }
}

/// Area `e` touches the sea.
pub open spec fn coastal_at(s: Seq<BoardArea>, e: Entity) -> bool {
    match lookup(s, e) {
        Some(a) => a.coastal,
        None => false,
    }
}

/// The position of the first entry describing area `e`, if any.
pub fn find_area(areas: &Vec<BoardArea>, e: Entity) -> (r: Option<usize>)
    ensures
        r is None ==> lookup(areas@, e) is None,
        r matches Some(i) ==> i < areas@.len() && lookup(areas@, e) == Some(areas@[i as int]),
{
    let mut j: usize = 0;
    assert(areas@.skip(0) =~= areas@);
    while j < areas.len()
        invariant
            j <= areas@.len(),
            lookup(areas@, e) == lookup(areas@.skip(j as int), e),
        decreases areas@.len() - j,
    {
        assert(areas@.skip(j as int).drop_first() =~= areas@.skip(j + 1));
        if areas[j].area == e {
            return Some(j);
        }
        j += 1;
    }
    None
}

/// Tokens of player `p` in an area.
pub fn tokens_of(a: &BoardArea, p: Entity) -> (n: usize)
    ensures
        n == tokens_in(*a, p),
{
    let mut j: usize = 0;
    assert(a.population@.skip(0) =~= a.population@);
    while j < a.population.len()
        invariant
            j <= a.population@.len(),
            assoc_get(a.population@, p) == assoc_get(a.population@.skip(j as int), p),
        decreases a.population@.len() - j,
    {
        assert(a.population@.skip(j as int).drop_first() =~= a.population@.skip(j + 1));
        if a.population[j].0 == p {
            return a.population[j].1;
        }
        j += 1;
    }
    0
}

/// Tokens of player `p` in area `e`.
pub fn tokens_at_area(areas: &Vec<BoardArea>, e: Entity, p: Entity) -> (n: usize)
    ensures
        n == tokens_at(areas@, e, p),
{
    match find_area(areas, e) {
        Some(i) => tokens_of(&areas[i], p),
        None => 0,
    }
}

/// The owner of the city in area `e`, if any.
pub fn city_owner_of(areas: &Vec<BoardArea>, e: Entity) -> (r: Option<Entity>)
    ensures
        r == city_owner_at(areas@, e),
{
    match find_area(areas, e) {
        Some(i) => areas[i].city_owner,
        None => None,
    }
}

/// Whether area `e` is open sea.
pub fn is_open_sea(areas: &Vec<BoardArea>, e: Entity) -> (b: bool)
    ensures
        b == open_sea_at(areas@, e),
{
    match find_area(areas, e) {
        Some(i) => areas[i].open_sea,
        None => false,
    }
}

/// Whether area `e` touches the sea.
pub fn is_coastal(areas: &Vec<BoardArea>, e: Entity) -> (b: bool)
    ensures
        b == coastal_at(areas@, e),
{
    match find_area(areas, e) {
        Some(i) => areas[i].coastal,
        None => false,
    }
}

} // verus!
