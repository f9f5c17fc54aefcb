use vstd::prelude::*;
use crate::entity::Entity;

verus! {

/// Sum of the second components of a list of (player, points) pairs.
pub open spec fn sum_points(s: Seq<(Entity, usize)>) -> nat
    decreases s.len(),
{
    if s.len() == 0 {
        0
    } else {
        s[0].1 as nat + sum_points(s.drop_first())
    }
}

/// The points that `choice` asks of `player`: the entry of the first pair
/// naming that player, or 0 when none does.
pub open spec fn requested_points(choice: Seq<(Entity, usize)>, player: Entity) -> nat
    decreases choice.len(),
{
    if choice.len() == 0 {
        0
    } else if choice[0].0 == player {
        choice[0].1 as nat
    } else {
        requested_points(choice.drop_first(), player)
    }
}

pub open spec fn min_nat(a: nat, b: nat) -> nat {
    if a <= b { a } else { b }
}

/// Ceiling of `a / b` for positive `b`.
pub open spec fn div_ceil_nat(a: nat, b: nat) -> nat {
    if a % b == 0 { a / b } else { a / b + 1 }
}

/// Players are taken in order; each loses what is asked of them (the entry
/// of `choice` when one is given, else `per_player`), clamped to what they
/// have and to what is left of `remaining`.
pub open spec fn greedy_takes(
    players: Seq<(Entity, usize)>,
    choice: Option<Seq<(Entity, usize)>>,
    per_player: nat,
    remaining: nat,
) -> Seq<(Entity, usize)>
    decreases players.len(),
{
    if players.len() == 0 {
        Seq::empty()
    } else {
        let asked = match choice {
            Some(c) => requested_points(c, players[0].0),
            None => per_player,
        };
        let take = min_nat(min_nat(asked, players[0].1 as nat), remaining);
        seq![(players[0].0, take as usize)] + greedy_takes(
            players.drop_first(),
            choice,
            per_player,
            (remaining - take) as nat,
        )
    }
}

/// How a secondary loss of `total` points is divided among `players`
/// (each paired with the most they can lose): when together they cannot
/// lose more than `total`, each loses all they can; otherwise the primary
/// victim's `choice` is followed, or, without a choice, the total is split
/// evenly (rounded up per player), each clamped to what they can lose and to
/// what is left of the total, in order.
pub open spec fn secondary_allocation(
    players: Seq<(Entity, usize)>,
    total: nat,
    choice: Option<Seq<(Entity, usize)>>,
) -> Seq<(Entity, usize)> {
    if sum_points(players) <= total {
        players
    } else {
        match choice {
            Some(c) => greedy_takes(players, Some(c), 0, total),
            None => greedy_takes(players, None, div_ceil_nat(total, players.len()), total),
        }
    }
}

proof fn lemma_greedy_shape(
    players: Seq<(Entity, usize)>,
    choice: Option<Seq<(Entity, usize)>>,
    per_player: nat,
    remaining: nat,
)
    ensures
        greedy_takes(players, choice, per_player, remaining).len() == players.len(),
        sum_points(greedy_takes(players, choice, per_player, remaining)) <= remaining,
        forall|i: int|
            0 <= i < players.len() ==> {
                &&& (#[trigger] greedy_takes(players, choice, per_player, remaining)[i]).0
                    == players[i].0
                &&& greedy_takes(players, choice, per_player, remaining)[i].1 <= players[i].1
            },
    decreases players.len(),
{
    if players.len() > 0 {
        let asked = match choice {
            Some(c) => requested_points(c, players[0].0),
            None => per_player,
        };
        let take = min_nat(min_nat(asked, players[0].1 as nat), remaining);
        let rest = players.drop_first();
        lemma_greedy_shape(rest, choice, per_player, (remaining - take) as nat);
        let tail = greedy_takes(rest, choice, per_player, (remaining - take) as nat);
        let whole = greedy_takes(players, choice, per_player, remaining);
        assert(whole == seq![(players[0].0, take as usize)] + tail);
        assert(whole.drop_first() =~= tail);
        assert forall|i: int| 0 <= i < players.len() implies {
            &&& (#[trigger] whole[i]).0 == players[i].0
            &&& whole[i].1 <= players[i].1
        } by {
            if i > 0 {
                assert(whole[i] == tail[i - 1]);
                assert(rest[i - 1] == players[i]);
            }
        }
    }
}

/// Law: whichever way a secondary loss is divided, every player keeps their
/// place in the list, nobody loses more than they can, and the points
/// taken never exceed the loss.
pub proof fn lemma_secondary_allocation_bounds(
    players: Seq<(Entity, usize)>,
    total: nat,
    choice: Option<Seq<(Entity, usize)>>,
)
    ensures
        secondary_allocation(players, total, choice).len() == players.len(),
        sum_points(secondary_allocation(players, total, choice)) <= total,
        forall|i: int|
            0 <= i < players.len() ==> {
                &&& (#[trigger] secondary_allocation(players, total, choice)[i]).0
                    == players[i].0
                &&& secondary_allocation(players, total, choice)[i].1 <= players[i].1
            },
{
    if sum_points(players) > total {
        match choice {
            Some(c) => lemma_greedy_shape(players, Some(c), 0, total),
            None => lemma_greedy_shape(
                players,
                None,
                div_ceil_nat(total, players.len()),
                total,
            ),
        }
    }
}

/// Law: when the secondary victims together cannot lose more than the loss,
/// each of them loses everything they can, whatever the primary victim chose.
pub proof fn lemma_secondary_allocation_takes_all_when_short(
    players: Seq<(Entity, usize)>,
    total: nat,
    choice: Option<Seq<(Entity, usize)>>,
)
    requires
        sum_points(players) <= total,
    ensures
        secondary_allocation(players, total, choice) == players,
{
}

/// The points `choice` asks of `player` (first matching pair, else 0).
fn lookup_request(choice: &[(Entity, usize)], player: Entity) -> (r: usize)
    ensures
        r == requested_points(choice@, player),
{
    let mut j: usize = 0;
    assert(choice@.skip(0) =~= choice@);
    while j < choice.len()
        invariant
            j <= choice.len(),
            requested_points(choice@, player) == requested_points(choice@.skip(j as int), player),
        decreases choice.len() - j,
    {
        assert(choice@.skip(j as int).drop_first() =~= choice@.skip(j + 1));
        if choice[j].0 == player {
            return choice[j].1;
        }
        j += 1;
    }
    0
}

/// Whether the players can together lose at most `total` points.
pub fn combined_fits(players: &[(Entity, usize)], total: usize) -> (b: bool)
    ensures
        b == (sum_points(players@) <= total),
{
    // Walk from the back so the running sum is that of a suffix.
    let mut acc: usize = 0;
    let mut i: usize = players.len();
    while i > 0
        invariant
            i <= players.len(),
            acc <= total,
            acc == sum_points(players@.skip(i as int)),
        decreases i,
    {
        let k = i - 1;
        assert(players@.skip(k as int).drop_first() =~= players@.skip(i as int));
        let a = players[k].1;
        if a > total - acc {
            proof {
                lemma_sum_suffix_monotone(players@, k as int);
            }
            return false;
        }
        acc = acc + a;
        i = k;
    }
    assert(players@.skip(0) =~= players@);
    true
}

proof fn lemma_sum_suffix_monotone(s: Seq<(Entity, usize)>, k: int)
    requires
        0 <= k <= s.len(),
    ensures
        sum_points(s.skip(k)) <= sum_points(s),
    decreases k,
{
    if k > 0 {
        assert(s.skip(k - 1).drop_first() =~= s.skip(k));
        lemma_sum_suffix_monotone(s, k - 1);
    } else {
        assert(s.skip(0) =~= s);
    }
}

/// Divides a secondary loss of `total` unit points among `secondary_players`
/// (each paired with the most they can lose), following the primary victim's
/// `primary_choice` where one is given; see [`secondary_allocation`].
pub fn allocate(
    secondary_players: &[(Entity, usize)],
    total: usize,
    primary_choice: Option<&[(Entity, usize)]>,
) -> (res: Vec<(Entity, usize)>)
    ensures
        res@ == secondary_allocation(
            secondary_players@,
            total as nat,
            match primary_choice {
                Some(c) => Some(c@),
                None => None,
            },
        ),
{
    let ghost choice_view: Option<Seq<(Entity, usize)>> = match primary_choice {
        Some(c) => Some(c@),
        None => None,
    };
    let mut result: Vec<(Entity, usize)> = Vec::new();
    if combined_fits(secondary_players, total) {
        let mut i: usize = 0;
        while i < secondary_players.len()
            invariant
                i <= secondary_players.len(),
                result@ == secondary_players@.take(i as int),
            decreases secondary_players.len() - i,
        {
            result.push(secondary_players[i]);
            assert(secondary_players@.take(i + 1) =~= secondary_players@.take(i as int).push(
                secondary_players@[i as int],
            ));
            i += 1;
        }
        assert(secondary_players@.take(i as int) =~= secondary_players@);
        return result;
    }
    let n = secondary_players.len();
    let per_player: usize = match primary_choice {
        Some(_) => 0,
        None => {
            if n == 0 {
                return result;
            }
            if total % n == 0 {
                total / n
            } else {
                assert(total / n < total) by (nonlinear_arith)
                    requires
                        n > 0,
                        total % n != 0,
                ;
                total / n + 1
            }
        },
    };
    let ghost target = greedy_takes(secondary_players@, choice_view, per_player as nat, total as nat);
    let mut remaining = total;
    let mut i: usize = 0;
    assert(secondary_players@.skip(0) =~= secondary_players@);
    assert(result@ =~= Seq::<(Entity, usize)>::empty());
    while i < n
        invariant
            n == secondary_players.len(),
            i <= n,
            remaining <= total,
            choice_view == match primary_choice {
                Some(c) => Some(c@),
                None => None::<Seq<(Entity, usize)>>,
            },
            target == greedy_takes(secondary_players@, choice_view, per_player as nat, total as nat),
            target == result@ + greedy_takes(
                secondary_players@.skip(i as int),
                choice_view,
                per_player as nat,
                remaining as nat,
            ),
        decreases n - i,
    {
        let (player, available) = secondary_players[i];
        let asked = match primary_choice {
            Some(c) => lookup_request(c, player),
            None => per_player,
        };
        let mut take = if asked < available { asked } else { available };
        if remaining < take {
            take = remaining;
        }
        let ghost rest = secondary_players@.skip(i as int);
        assert(rest[0] == secondary_players@[i as int]);
        assert(rest.drop_first() =~= secondary_players@.skip(i + 1));
        assert(greedy_takes(rest, choice_view, per_player as nat, remaining as nat)
            == seq![(player, take)] + greedy_takes(
                secondary_players@.skip(i + 1),
                choice_view,
                per_player as nat,
                (remaining - take) as nat,
            ));
        result.push((player, take));
        remaining = remaining - take;
        assert(result@ + greedy_takes(
            secondary_players@.skip(i + 1),
            choice_view,
            per_player as nat,
            remaining as nat,
        ) =~= target);
        i += 1;
    }
    assert(secondary_players@.skip(n as int) =~= Seq::<(Entity, usize)>::empty());
    assert(result@ =~= target);
    result
}

} // verus!
