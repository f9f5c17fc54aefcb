//! The decisions of the Ship Construction phase (rules 22.1-22.3): how each
//! ship's upkeep is paid, and what each player builds.
use vstd::prelude::*;
use crate::entity::Entity;
use crate::resolution::board::{tokens_at, tokens_at_area, BoardArea};
use crate::resolution::cities::{coastal_cities, coastal_of};
use crate::resolution::flood::{choose_fallback_city, fallback_city};
use crate::ships::{
    ai_can_afford_ship, construction_payment, human_max_buildable, maintenance_source, MaintenanceSource, PlayerShips,
    ShipStock,
};
use crate::util::copy_entities;

verus! {

/// How each of a player's ships is kept (one per area with ships, in order),
/// given the treasury and the player's tokens in each of those areas: the
/// treasury pays while it has tokens, then the area's tokens, else the ship
/// is lost.
pub open spec fn upkeep(treasury: nat, area_tokens: Seq<usize>) -> Seq<MaintenanceSource>
    decreases area_tokens.len(),
{
    if area_tokens.len() == 0 {
        Seq::empty()
    } else {
        let s = if treasury >= 1 {
            MaintenanceSource::Treasury
        } else if area_tokens[0] >= 1 {
            MaintenanceSource::Levy
        } else {
            MaintenanceSource::Unpaid
        };
        seq![s] + upkeep(if treasury >= 1 { (treasury - 1) as nat } else { treasury }, area_tokens.drop_first())
    }
}

/// Rule 22.3: the upkeep of each area's ships in turn.
pub fn maintenance_plan(treasury_tokens: usize, area_tokens: &Vec<usize>) -> (r: Vec<MaintenanceSource>)
    ensures
        r@ == upkeep(treasury_tokens as nat, area_tokens@),
{
    let mut t = treasury_tokens;
    let mut r: Vec<MaintenanceSource> = Vec::new();
    let mut i: usize = 0;
    assert(area_tokens@.skip(0) =~= area_tokens@);
    while i < area_tokens.len()
        invariant
            i <= area_tokens@.len(),
            upkeep(treasury_tokens as nat, area_tokens@) == r@ + upkeep(t as nat, area_tokens@.skip(i as int)),
        decreases area_tokens@.len() - i,
    {
        let ghost rest = area_tokens@.skip(i as int);
        assert(rest[0] == area_tokens@[i as int]);
        assert(rest.drop_first() =~= area_tokens@.skip(i + 1));
        let s = maintenance_source(t, area_tokens[i]);
        r.push(s);
        if t >= 1 {
            t = t - 1;
        }
        i += 1;
        assert(upkeep(treasury_tokens as nat, area_tokens@) =~= r@ + upkeep(t as nat, area_tokens@.skip(i as int)));
    }
    assert(area_tokens@.skip(i as int) =~= Seq::<usize>::empty());
    assert(r@ + Seq::<MaintenanceSource>::empty() =~= r@);
    r
}

/// Tokens of player `p` over a list of areas.
pub open spec fn tokens_over(s: Seq<BoardArea>, areas: Seq<Entity>, p: Entity) -> nat
    decreases areas.len(),
{
    if areas.len() == 0 {
        0
    } else {
        tokens_over(s, areas.drop_last(), p) + tokens_at(s, areas.last(), p)
    }
}

proof fn lemma_tokens_over_prefix(s: Seq<BoardArea>, areas: Seq<Entity>, p: Entity, k: int)
    requires
        0 <= k <= areas.len(),
    ensures
        tokens_over(s, areas.take(k), p) <= tokens_over(s, areas, p),
    decreases areas.len(),
{
    if k < areas.len() {
        assert(areas.drop_last().take(k) =~= areas.take(k));
        lemma_tokens_over_prefix(s, areas.drop_last(), p, k);
    } else {
        assert(areas.take(k) =~= areas);
    }
}

fn total_tokens(board: &Vec<BoardArea>, areas: &Vec<Entity>, p: Entity) -> (n: usize)
    requires
        tokens_over(board@, areas@, p) <= usize::MAX,
    ensures
        n == tokens_over(board@, areas@, p),
{
    let mut n: usize = 0;
    let mut i: usize = 0;
    while i < areas.len()
        invariant
            i <= areas@.len(),
            tokens_over(board@, areas@, p) <= usize::MAX,
            n == tokens_over(board@, areas@.take(i as int), p),
        decreases areas@.len() - i,
    {
        assert(areas@.take(i + 1).drop_last() =~= areas@.take(i as int));
        assert(areas@.take(i + 1).last() == areas@[i as int]);
        proof {
            lemma_tokens_over_prefix(board@, areas@, p, i + 1);
        }
        n = n + tokens_at_area(board, areas[i], p);
        i += 1;
    }
    assert(areas@.take(i as int) =~= areas@);
    n
}

/// The areas a human may build in: their coastal areas, or all their areas
/// when none is coastal.
pub open spec fn human_build_areas(s: Seq<BoardArea>, areas: Seq<Entity>) -> Seq<Entity> {
    if coastal_of(s, areas).len() > 0 { coastal_of(s, areas) } else { areas }
}

/// What a player does in the building pass.
#[derive(Debug, Clone)]
pub enum ShipBuild {
    /// Builds nothing.
    Skip,
    /// A human chooses up to `max_buildable` ships among `areas`.
    AskHuman { areas: Vec<Entity>, max_buildable: usize },
    /// A computer player builds one ship in `area`, paying `from_treasury`
    /// tokens from the treasury and levying `from_levy` there.
    Build { area: Entity, from_treasury: usize, from_levy: usize },
}

/// Rules 22.1/22.2: what `player` builds, with `ships_on_board` ships out,
/// `in_stock` in stock, `treasury` tokens in treasury and tokens in
/// `player_areas`. A human is offered their coastal areas (all their areas
/// when none is) and may build as many ships as the fleet cap, the stock and
/// two tokens a ship allow; a computer player builds one ship in its first
/// coastal area (else its first area) when the treasury and the area's
/// tokens beyond one cover the two tokens, paying from the treasury first.
pub fn ship_build_decision(
    player: Entity,
    interactive: bool,
    ships_on_board: usize,
    in_stock: usize,
    treasury: usize,
    player_areas: &Vec<Entity>,
    board: &Vec<BoardArea>,
) -> (r: ShipBuild)
    requires
        tokens_over(board@, player_areas@, player) <= usize::MAX,
    ensures
        ships_on_board >= ShipStock::MAX_SHIPS ==> r is Skip,
        ships_on_board < ShipStock::MAX_SHIPS && interactive ==> {
            let offered = human_build_areas(board@, player_areas@);
            let total = tokens_over(board@, offered, player);
            let affordable = (treasury + total) / 2;
            let cap = ShipStock::MAX_SHIPS - ships_on_board;
            let m = if cap <= affordable { cap } else { affordable };
            if offered.len() == 0 || in_stock == 0 || affordable == 0 {
                r is Skip
            } else {
                r matches ShipBuild::AskHuman { areas, max_buildable } && areas@ == offered
                    && max_buildable == if m <= in_stock { m } else { in_stock as int }
            }
        },
        ships_on_board < ShipStock::MAX_SHIPS && !interactive ==> match fallback_city(board@, player_areas@) {
            None => r is Skip,
            Some(area) => {
                let held = tokens_at(board@, area, player);
                let spare: nat = if held >= 1 { (held - 1) as nat } else { 0 };
                if treasury + spare < 2 || in_stock == 0 {
                    r is Skip
                } else {
                    r == ShipBuild::Build {
                        area,
                        from_treasury: if treasury <= 2 { treasury } else { 2 },
                        from_levy: (2 - (if treasury <= 2 { treasury } else { 2 })) as usize,
                    }
                }
            },
        },
{
    if ships_on_board >= ShipStock::MAX_SHIPS {
        return ShipBuild::Skip;
    }
    if interactive {
        let coastal = coastal_cities(board, player_areas);
        let offered = if coastal.len() > 0 { coastal } else { copy_entities(player_areas) };
        if offered.len() == 0 || in_stock == 0 {
            return ShipBuild::Skip;
        }
        proof {
            if coastal_of(board@, player_areas@).len() > 0 {
                lemma_coastal_tokens(board@, player_areas@, player);
            }
        }
        let total = total_tokens(board, &offered, player);
        let affordable = treasury / 2 + total / 2 + (treasury % 2 + total % 2) / 2;
        if affordable == 0 {
            return ShipBuild::Skip;
        }
        let max_buildable = human_max_buildable(ships_on_board, treasury, total, in_stock);
        ShipBuild::AskHuman { areas: offered, max_buildable }
    } else {
        match choose_fallback_city(board, player_areas) {
            None => ShipBuild::Skip,
            Some(area) => {
                let held = tokens_at_area(board, area, player);
                if !ai_can_afford_ship(treasury, held) || in_stock == 0 {
                    ShipBuild::Skip
                } else {
                    let (from_treasury, from_levy) = construction_payment(treasury);
                    ShipBuild::Build { area, from_treasury, from_levy }
                }
            },
        }
    }
}

/// The coastal areas hold no more of a player's tokens than all the areas.
proof fn lemma_coastal_tokens(s: Seq<BoardArea>, areas: Seq<Entity>, p: Entity)
    ensures
        tokens_over(s, coastal_of(s, areas), p) <= tokens_over(s, areas, p),
    decreases areas.len(),
{
    if areas.len() > 0 {
        lemma_coastal_tokens(s, areas.drop_last(), p);
        let c = coastal_of(s, areas.drop_last());
        if crate::resolution::board::coastal_at(s, areas.last()) {
            assert(c.push(areas.last()).drop_last() =~= c);
        }
    }
}

/// A player's tokens in area `a`, by the first row listing it (none when
/// no row does).
pub open spec fn held_in(s: Seq<(Entity, usize)>, a: Entity) -> nat
    decreases s.len(),
{
    if s.len() == 0 {
        0
    } else if s[0].0 == a {
        s[0].1 as nat
    } else {
        held_in(s.drop_first(), a)
    }
}

/// The rows once `n` tokens are levied in area `a`, from the first row
/// listing it.
pub open spec fn levied(s: Seq<(Entity, usize)>, a: Entity, n: nat) -> Seq<(Entity, usize)>
    decreases s.len(),
{
    if s.len() == 0 {
        s
    } else if s[0].0 == a {
        seq![(a, (s[0].1 - n) as usize)] + s.drop_first()
    } else {
        seq![s[0]] + levied(s.drop_first(), a, n)
    }
}

/// Rule 22.2: the ships built from a confirmed plan, as (area, tokens from
/// the treasury, tokens levied in the area). The plan is followed in order
/// while a ship is in stock and the treasury and the area's remaining tokens
/// still cover two tokens; the treasury pays first, the area the rest.
pub open spec fn plan_builds(
    plan: Seq<Entity>,
    in_stock: nat,
    treasury: nat,
    tokens: Seq<(Entity, usize)>,
) -> Seq<(Entity, usize, usize)>
    decreases plan.len(),
{
    if plan.len() == 0 || in_stock == 0 {
        Seq::empty()
    } else if treasury + held_in(tokens, plan[0]) < 2 {
        Seq::empty()
    } else {
        let from_treasury: nat = if treasury <= 2 { treasury } else { 2 };
        let from_levy: nat = (2 - from_treasury) as nat;
        seq![(plan[0], from_treasury as usize, from_levy as usize)] + plan_builds(
            plan.drop_first(),
            (in_stock - 1) as nat,
            (treasury - from_treasury) as nat,
            levied(tokens, plan[0], from_levy),
        )
    }
}

/// The builds without the ship that each one used.
pub open spec fn build_payments(r: Seq<(Entity, Entity, usize, usize)>) -> Seq<(Entity, usize, usize)> {
    r.map_values(|b: (Entity, Entity, usize, usize)| (b.0, b.2, b.3))
}

/// The ships that the builds put in `area`, in order.
pub open spec fn placed_at(r: Seq<(Entity, Entity, usize, usize)>, area: Entity) -> Seq<Entity>
    decreases r.len(),
{
    if r.len() == 0 {
        Seq::empty()
    } else if r.last().0 == area {
        placed_at(r.drop_last(), area).push(r.last().1)
    } else {
        placed_at(r.drop_last(), area)
    }
}

proof fn lemma_row_absent(s: Seq<(Entity, usize)>, a: Entity, n: nat)
    requires
        forall|j: int| 0 <= j < s.len() ==> (#[trigger] s[j]).0 != a,
    ensures
        held_in(s, a) == 0,
        levied(s, a, n) == s,
    decreases s.len(),
{
    if s.len() > 0 {
        assert(s[0].0 != a);
        assert forall|j: int| 0 <= j < s.drop_first().len() implies (#[trigger] s.drop_first()[j]).0 != a by {
            assert(s.drop_first()[j] == s[j + 1]);
        }
        lemma_row_absent(s.drop_first(), a, n);
        assert(seq![s[0]] + s.drop_first() =~= s);
    }
}

proof fn lemma_row_first(s: Seq<(Entity, usize)>, a: Entity, n: nat, i: int)
    requires
        0 <= i < s.len(),
        s[i].0 == a,
        forall|j: int| 0 <= j < i ==> (#[trigger] s[j]).0 != a,
    ensures
        held_in(s, a) == s[i].1,
        levied(s, a, n) == s.update(i, (a, (s[i].1 - n) as usize)),
    decreases s.len(),
{
    if i == 0 {
        assert(seq![(a, (s[0].1 - n) as usize)] + s.drop_first() =~= s.update(0, (a, (s[0].1 - n) as usize)));
    } else {
        assert(s[0].0 != a);
        let t = s.drop_first();
        assert forall|j: int| 0 <= j < i - 1 implies (#[trigger] t[j]).0 != a by {
            assert(t[j] == s[j + 1]);
        }
        lemma_row_first(t, a, n, i - 1);
        assert(seq![s[0]] + t.update(i - 1, (a, (s[i].1 - n) as usize)) =~= s.update(i, (a, (s[i].1 - n) as usize)));
    }
}

/// Where area `a` is first listed.
fn first_row(rows: &Vec<(Entity, usize)>, a: Entity) -> (r: Option<usize>)
    ensures
        r is None ==> forall|j: int| 0 <= j < rows@.len() ==> (#[trigger] rows@[j]).0 != a,
        r matches Some(i) ==> i < rows@.len() && rows@[i as int].0 == a
            && forall|j: int| 0 <= j < i ==> (#[trigger] rows@[j]).0 != a,
{
    let mut i: usize = 0;
    while i < rows.len()
        invariant
            i <= rows@.len(),
            forall|j: int| 0 <= j < i ==> (#[trigger] rows@[j]).0 != a,
        decreases rows@.len() - i,
    {
        if rows[i].0 == a {
            return Some(i);
        }
        i += 1;
    }
    None
}

/// Levies `n` of the player's tokens in area `a`.
fn levy_tokens(rows: &mut Vec<(Entity, usize)>, a: Entity, n: usize)
    requires
        n <= held_in(old(rows)@, a),
    ensures
        final(rows)@ == levied(old(rows)@, a, n as nat),
{
    match first_row(rows, a) {
        None => {
            proof {
                lemma_row_absent(rows@, a, n as nat);
            }
        },
        Some(i) => {
            proof {
                lemma_row_first(rows@, a, n as nat, i as int);
            }
            let held = rows[i].1;
            rows.set(i, (a, held - n));
        },
    }
}

/// Rule 22.2: carries out a human's confirmed plan of `plan` (an area per
/// ship, in order) with the treasury and the player's tokens in each area
/// (`tokens`): each ship comes out of `stock` and is placed in `fleet`,
/// paid as [`plan_builds`] says. Returns each build as (area, ship, tokens
/// from the treasury, tokens levied in the area).
pub fn apply_ship_builds(
    plan: &Vec<Entity>,
    stock: &mut ShipStock,
    fleet: &mut PlayerShips,
    treasury: usize,
    tokens: &Vec<(Entity, usize)>,
) -> (r: Vec<(Entity, Entity, usize, usize)>)
    requires
        old(fleet).wf(),
    ensures
        final(fleet).wf(),
        build_payments(r@) == plan_builds(plan@, old(stock).ships@.len(), treasury as nat, tokens@),
        r@.len() <= old(stock).ships@.len(),
        forall|k: int| 0 <= k < r@.len() ==> (#[trigger] r@[k]).1 == old(stock).ships@[old(stock).ships@.len() - 1 - k],
        final(stock).ships@ == old(stock).ships@.take(old(stock).ships@.len() - r@.len()),
        forall|a: Entity| #[trigger] final(fleet).ships_at(a) == old(fleet).ships_at(a) + placed_at(r@, a),
{
    let ghost stock0 = stock.ships@;
    let ghost fleet0 = *fleet;
    let ghost all = plan_builds(plan@, stock0.len(), treasury as nat, tokens@);
    let mut t: usize = treasury;
    let mut rows: Vec<(Entity, usize)> = crate::resolution::unit_loss::copy_rows(tokens);
    let mut r: Vec<(Entity, Entity, usize, usize)> = Vec::new();
    let mut done = false;
    let mut i: usize = 0;
    assert(plan@.skip(0) =~= plan@);
    assert(build_payments(r@) =~= Seq::<(Entity, usize, usize)>::empty());
    while i < plan.len() && !done
        invariant
            i <= plan@.len(),
            fleet.wf(),
            r@.len() <= stock0.len(),
            stock.ships@ == stock0.take(stock0.len() - r@.len()),
            forall|k: int| 0 <= k < r@.len() ==> (#[trigger] r@[k]).1 == stock0[stock0.len() - 1 - k],
            forall|a: Entity| #[trigger] fleet.ships_at(a) == fleet0.ships_at(a) + placed_at(r@, a),
            !done ==> all == build_payments(r@) + plan_builds(plan@.skip(i as int), stock.ships@.len(), t as nat, rows@),
            done ==> all == build_payments(r@),
        decreases plan@.len() - i,
    {
        let a = plan[i];
        let ghost rest = plan@.skip(i as int);
        assert(rest[0] == a);
        assert(rest.drop_first() =~= plan@.skip(i + 1));
        let ghost rows0 = rows@;
        let held = match first_row(&rows, a) {
            None => {
                proof {
                    lemma_row_absent(rows@, a, 0);
                }
                0
            },
            Some(j) => {
                proof {
                    lemma_row_first(rows@, a, 0, j as int);
                }
                rows[j].1
            },
        };
        if stock.ships.len() == 0 {
            done = true;
            assert(build_payments(r@) + Seq::<(Entity, usize, usize)>::empty() =~= build_payments(r@));
        } else if t < 2 && held < 2 - t {
            done = true;
            assert(build_payments(r@) + Seq::<(Entity, usize, usize)>::empty() =~= build_payments(r@));
        } else {
            let ghost r0 = r@;
            let ghost t0 = t;
            let ghost n0 = stock.ships@.len();
            let ship = match stock.take_ship() {
                Some(s) => s,
                None => { proof { assert(false); } a },
            };
            let from_treasury: usize = if t <= 2 { t } else { 2 };
            let from_levy: usize = 2 - from_treasury;
            t = t - from_treasury;
            levy_tokens(&mut rows, a, from_levy);
            fleet.place_ship(a, ship);
            r.push((a, ship, from_treasury, from_levy));
            proof {
                assert(r@.drop_last() =~= r0);
                assert(stock0.take(stock0.len() - r0.len()).drop_last() =~= stock0.take(stock0.len() - r@.len()));
                assert(build_payments(r@) =~= build_payments(r0).push((a, from_treasury, from_levy)));
                assert(build_payments(r0) + plan_builds(rest, n0 as nat, t0 as nat, rows0) =~= build_payments(r@)
                    + plan_builds(plan@.skip(i + 1), stock.ships@.len(), t as nat, rows@));
                assert forall|a2: Entity| #[trigger] fleet.ships_at(a2) == fleet0.ships_at(a2) + placed_at(r@, a2) by {
                    if a2 == a {
                        assert(fleet0.ships_at(a2) + placed_at(r0, a2).push(ship) =~= (fleet0.ships_at(a2)
                            + placed_at(r0, a2)).push(ship));
                    }
                }
            }
        }
        i += 1;
    }
    proof {
        if !done {
            assert(plan@.skip(i as int) =~= Seq::<Entity>::empty());
            assert(build_payments(r@) + Seq::<(Entity, usize, usize)>::empty() =~= build_payments(r@));
        }
    }
    r
}

/// Law (rule 22.3): each ship's upkeep is one token. The treasury pays for
/// as many ships as it holds tokens, the first ones in order; every later
/// ship is paid by a levy in its area when a token is there, and otherwise
/// goes unpaid.
pub proof fn lemma_upkeep_one_token_per_ship(treasury: nat, area_tokens: Seq<usize>)
    ensures
        upkeep(treasury, area_tokens).len() == area_tokens.len(),
        forall|i: int|
            0 <= i < area_tokens.len() ==> #[trigger] upkeep(treasury, area_tokens)[i] == if i < treasury {
                MaintenanceSource::Treasury
            } else if area_tokens[i] >= 1 {
                MaintenanceSource::Levy
            } else {
                MaintenanceSource::Unpaid
            },
    decreases area_tokens.len(),
{
    if area_tokens.len() > 0 {
        let next: nat = if treasury >= 1 { (treasury - 1) as nat } else { treasury };
        let rest = area_tokens.drop_first();
        lemma_upkeep_one_token_per_ship(next, rest);
        assert forall|i: int| 0 <= i < area_tokens.len() implies #[trigger] upkeep(treasury, area_tokens)[i] == if i
            < treasury {
            MaintenanceSource::Treasury
        } else if area_tokens[i] >= 1 {
            MaintenanceSource::Levy
        } else {
            MaintenanceSource::Unpaid
        } by {
            if i > 0 {
                assert(upkeep(treasury, area_tokens)[i] == upkeep(next, rest)[i - 1]);
                assert(rest[i - 1] == area_tokens[i]);
            }
        }
    }
}

} // verus!
