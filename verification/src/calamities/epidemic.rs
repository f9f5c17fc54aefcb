use vstd::prelude::*;
use crate::entity::Entity;
use crate::calamities::secondary_loss;

verus! {

/// Epidemic (rule 30.61): the primary victim loses 16 unit points (8 fewer
/// with Medicine, 5 more with Road Building); secondary victims share 25,
/// at most 10 each.  Every affected area keeps at least one token.
#[derive(Debug, Clone, Default)]
pub struct EpidemicState {
    pub phase: EpidemicPhase,
    pub primary_loss: i32,
    pub secondary_loss: i32,
    pub has_medicine: bool,
    pub has_road_building: bool,
    pub immune_player: Option<Entity>,
    /// Points of the primary loss still owed once cities have been spent.
    pub primary_tokens_remaining: i32,
    /// Whether the secondary loss has been divided among the victims.
    pub secondary_divided: bool,
    /// Secondary victims still owing points, with what they owe.
    pub secondary_allocations: Vec<(Entity, i32)>,
    /// Secondary victims whose cities have already been spent.
    pub secondary_cities_spent: Vec<Entity>,
}

#[derive(Debug, Clone, Default, PartialEq, Eq, Structural)]
pub enum EpidemicPhase {
    #[default]
    ComputeEffects,
    ApplyPrimaryLoss,
    ApplySecondaryLosses,
    Complete,
}

impl EpidemicState {
    pub fn new() -> (s: Self)
        ensures
            s.phase == EpidemicPhase::ComputeEffects,
            s.primary_loss == 16,
            s.secondary_loss == 25,
            !s.has_medicine,
            !s.has_road_building,
            s.immune_player is None,
            s.primary_tokens_remaining == 0,
            !s.secondary_divided,
            s.secondary_allocations@.len() == 0,
            s.secondary_cities_spent@.len() == 0,
    {
        EpidemicState {
            phase: EpidemicPhase::ComputeEffects,
            primary_loss: 16,
            secondary_loss: 25,
            has_medicine: false,
            has_road_building: false,
            immune_player: None,
            primary_tokens_remaining: 0,
            secondary_divided: false,
            secondary_allocations: Vec::new(),
            secondary_cities_spent: Vec::new(),
        }
    }

    /// Medicine: eight fewer points for the primary victim, never below none.
    pub fn with_medicine(self) -> (s: Self)
        requires
            self.primary_loss >= i32::MIN + 8,
        ensures
            s == (EpidemicState {
                has_medicine: true,
                primary_loss: if self.primary_loss - 8 < 0 { 0 } else { (self.primary_loss - 8) as i32 },
                ..self
            }),
    {
        let mut s = self;
        s.has_medicine = true;
        let reduced = s.primary_loss - 8;
        s.primary_loss = if reduced < 0 { 0 } else { reduced };
        s
    }

    /// Road Building: five more points for the primary victim.
    pub fn with_road_building(self) -> (s: Self)
        requires
            self.primary_loss <= i32::MAX - 5,
        ensures
            s == (EpidemicState {
                has_road_building: true,
                primary_loss: (self.primary_loss + 5) as i32,
                ..self
            }),
    {
        let mut s = self;
        s.has_road_building = true;
        s.primary_loss = s.primary_loss + 5;
        s
    }

    pub fn with_immune_player(self, player: Entity) -> (s: Self)
        ensures
            s == (EpidemicState { immune_player: Some(player), ..self }),
    {
        let mut s = self;
        s.immune_player = Some(player);
        s
    }
}

/// Tokens taken from each area, in order, when `points` must be removed and
/// every area keeps at least one token (rule 30.612).
pub open spec fn removal_leaving_one(counts: Seq<usize>, points: nat) -> Seq<usize>
    decreases counts.len(),
{
    if counts.len() == 0 {
        Seq::empty()
    } else {
        let removable: nat = if counts[0] >= 1 { (counts[0] - 1) as nat } else { 0 };
        let take = if removable <= points { removable } else { points };
        seq![take as usize] + removal_leaving_one(counts.drop_first(), (points - take) as nat)
    }
}

/// Sum of a list of counts.
pub open spec fn sum_counts(s: Seq<usize>) -> nat
    decreases s.len(),
{
    if s.len() == 0 {
        0
    } else {
        s[0] as nat + sum_counts(s.drop_first())
    }
}

/// Tokens that may be removed from areas holding `counts`: all but one per area.
pub open spec fn sum_removable(s: Seq<usize>) -> nat
    decreases s.len(),
{
    if s.len() == 0 {
        0
    } else {
        (if s[0] >= 1 { (s[0] - 1) as nat } else { 0nat }) + sum_removable(s.drop_first())
    }
}

/// Law (rule 30.612): every area keeps at least one token, and exactly as
/// many tokens are removed as the points owed, or all removable tokens when
/// those are fewer.
pub proof fn lemma_removal_leaving_one(counts: Seq<usize>, points: nat)
    ensures
        removal_leaving_one(counts, points).len() == counts.len(),
        forall|i: int|
            0 <= i < counts.len() ==> #[trigger] removal_leaving_one(counts, points)[i] as int
                <= if counts[i] >= 1 { counts[i] - 1 } else { 0 },
        sum_counts(removal_leaving_one(counts, points)) == if points <= sum_removable(counts) {
            points
        } else {
            sum_removable(counts)
        },
    decreases counts.len(),
{
    if counts.len() > 0 {
        let removable: nat = if counts[0] >= 1 { (counts[0] - 1) as nat } else { 0 };
        let take = if removable <= points { removable } else { points };
        let rest = counts.drop_first();
        lemma_removal_leaving_one(rest, (points - take) as nat);
        let tail = removal_leaving_one(rest, (points - take) as nat);
        let whole = removal_leaving_one(counts, points);
        assert(whole.drop_first() =~= tail);
        assert forall|i: int| 0 <= i < counts.len() implies #[trigger] whole[i] as int
            <= if counts[i] >= 1 { counts[i] - 1 } else { 0 } by {
            if i > 0 {
                assert(whole[i] == tail[i - 1]);
                assert(rest[i - 1] == counts[i]);
            }
        }
    }
}

/// Tokens to take from each area (given its token count, in loss order) to
/// remove up to `points`, always leaving one token per area (rule 30.612).
pub fn allocate_removal_leaving_one_per_area(areas_and_counts: &[usize], points: usize) -> (r: Vec<usize>)
    ensures
        r@ == removal_leaving_one(areas_and_counts@, points as nat),
{
    let mut remaining = points;
    let mut result: Vec<usize> = Vec::new();
    let mut i: usize = 0;
    assert(areas_and_counts@.skip(0) =~= areas_and_counts@);
    while i < areas_and_counts.len()
        invariant
            i <= areas_and_counts@.len(),
            remaining <= points,
            removal_leaving_one(areas_and_counts@, points as nat) == result@ + removal_leaving_one(
                areas_and_counts@.skip(i as int),
                remaining as nat,
            ),
        decreases areas_and_counts@.len() - i,
    {
        let count = areas_and_counts[i];
        let removable: usize = if count >= 1 { count - 1 } else { 0 };
        let take: usize = if removable <= remaining { removable } else { remaining };
        let ghost rest = areas_and_counts@.skip(i as int);
        assert(rest[0] == count);
        assert(rest.drop_first() =~= areas_and_counts@.skip(i + 1));
        result.push(take);
        remaining = remaining - take;
        assert(removal_leaving_one(areas_and_counts@, points as nat) =~= result@
            + removal_leaving_one(areas_and_counts@.skip(i + 1), remaining as nat));
        i += 1;
    }
    assert(areas_and_counts@.skip(i as int) =~= Seq::<usize>::empty());
    assert(result@ =~= result@ + Seq::<usize>::empty());
    result
}

/// Divides the Epidemic secondary loss (rule 30.611); see
/// [`secondary_loss::secondary_allocation`].
pub fn allocate_secondary_loss(
    secondary_players: &[(Entity, usize)],
    total: usize,
    primary_choice: Option<&[(Entity, usize)]>,
) -> (res: Vec<(Entity, usize)>)
    ensures
        res@ == secondary_loss::secondary_allocation(
            secondary_players@,
            total as nat,
            match primary_choice {
                Some(c) => Some(c@),
                None => None,
            },
        ),
{
    secondary_loss::allocate(secondary_players, total, primary_choice)
}

} // verus!
