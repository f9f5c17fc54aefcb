use vstd::prelude::*;
use crate::entity::Entity;
use crate::util::{first_index, next_index, prev_index, step_next, step_prev, toggled, toggle_entity};

verus! {

/// Marks the Monotheism holder while they choose which enemy tokens convert.
#[derive(Debug, Default)]
pub struct AwaitingMonotheismSelection;

/// A Monotheism holder's choice of up to two enemy tokens to convert (rule
/// 32.94): candidates as (token, area) pairs, the chosen tokens and a cursor.
#[derive(Debug)]
pub struct MonotheismSelectionState {
    pub player: Option<Entity>,
    pub candidates: Vec<(Entity, Entity)>,
    pub selected: Vec<Entity>,
    pub current_index: usize,
}

impl Default for MonotheismSelectionState {
    fn default() -> (s: Self)
        ensures
            s.is_cleared(),
    {
        MonotheismSelectionState {
            player: None,
            candidates: Vec::new(),
            selected: Vec::new(),
            current_index: 0,
        }
    }
}

/// Whether some candidate is the token `t`.
pub open spec fn has_candidate(c: Seq<(Entity, Entity)>, t: Entity) -> bool {
    exists|i: int| 0 <= i < c.len() && (#[trigger] c[i]).0 == t
}

/// The area of the first candidate that is the token `t`.
pub open spec fn candidate_area(c: Seq<(Entity, Entity)>, t: Entity) -> Entity
    decreases c.len(),
{
    if c.len() == 0 {
        t
    } else if c[0].0 == t {
        c[0].1
    } else {
        candidate_area(c.drop_first(), t)
    }
}

/// The chosen tokens that are candidates, each paired with its area, in
/// the order chosen.
pub open spec fn conversions(selected: Seq<Entity>, c: Seq<(Entity, Entity)>) -> Seq<(Entity, Entity)>
    decreases selected.len(),
{
    if selected.len() == 0 {
        Seq::empty()
    } else {
        let rest = conversions(selected.drop_last(), c);
        let t = selected.last();
        if has_candidate(c, t) {
            rest.push((t, candidate_area(c, t)))
        } else {
            rest
        }
    }
}

/// The area of the first candidate that is `t`, if any.
fn find_candidate(c: &Vec<(Entity, Entity)>, t: Entity) -> (r: Option<Entity>)
    ensures
        r is Some <==> has_candidate(c@, t),
        r matches Some(a) ==> a == candidate_area(c@, t),
{
    let mut j: usize = 0;
    assert(c@.skip(0) =~= c@);
    while j < c.len()
        invariant
            j <= c@.len(),
            forall|i: int| 0 <= i < j ==> (#[trigger] c@[i]).0 != t,
            candidate_area(c@, t) == candidate_area(c@.skip(j as int), t),
        decreases c@.len() - j,
    {
        assert(c@.skip(j as int).drop_first() =~= c@.skip(j + 1));
        if c[j].0 == t {
            assert(c@[j as int].0 == t);
            return Some(c[j].1);
        }
        j += 1;
    }
    None
}

impl MonotheismSelectionState {
    pub open spec fn is_cleared(self) -> bool {
        &&& self.player is None
        &&& self.candidates@.len() == 0
        &&& self.selected@.len() == 0
        &&& self.current_index == 0
    }

    pub open spec fn current(self) -> Option<(Entity, Entity)> {
        if self.current_index < self.candidates@.len() {
            Some(self.candidates@[self.current_index as int])
        } else {
            None
        }
    }

    pub fn populate(&mut self, player: Entity, candidates: Vec<(Entity, Entity)>)
        ensures
            final(self).player == Some(player),
            final(self).candidates@ == candidates@,
            final(self).selected@.len() == 0,
            final(self).current_index == 0,
    {
        self.player = Some(player);
        self.candidates = candidates;
        self.selected.clear();
        self.current_index = 0;
    }

    pub fn clear(&mut self)
        ensures
            final(self).is_cleared(),
    {
        *self = Self::default();
    }

    pub fn current_candidate(&self) -> (c: Option<(Entity, Entity)>)
        ensures
            c == self.current(),
    {
        if self.current_index < self.candidates.len() {
            Some(self.candidates[self.current_index])
        } else {
            None
        }
    }

    pub fn next(&mut self)
        requires
            old(self).candidates@.len() > 0 ==> old(self).current_index < usize::MAX,
        ensures
            *final(self) == (MonotheismSelectionState {
                current_index: next_index(old(self).current_index as nat, old(self).candidates@.len())
                    as usize,
                ..*old(self)
            }),
    {
        self.current_index = step_next(self.current_index, self.candidates.len());
    }

    pub fn prev(&mut self)
        ensures
            *final(self) == (MonotheismSelectionState {
                current_index: prev_index(old(self).current_index as nat, old(self).candidates@.len())
                    as usize,
                ..*old(self)
            }),
    {
        self.current_index = step_prev(self.current_index, self.candidates.len());
    }

    /// Chooses the token under the cursor, or unchooses it; at most two are chosen.
    pub fn toggle_current(&mut self)
        ensures
            *final(self) == (MonotheismSelectionState { selected: final(self).selected, ..*old(self) }),
            final(self).selected@ == match old(self).current() {
                Some(c) => toggled(old(self).selected@, c.0, 2),
                None => old(self).selected@,
            },
    {
        let token = match self.current_candidate() {
            Some((t, _)) => t,
            None => return,
        };
        toggle_entity(&mut self.selected, token, 2);
    }

    pub fn is_current_selected(&self) -> (b: bool)
        ensures
            b == match self.current() {
                Some(c) => self.selected@.contains(c.0),
                None => false,
            },
    {
        match self.current_candidate() {
            Some((token, _)) => crate::util::contains_entity(&self.selected, token),
            None => false,
        }
    }

    /// The chosen tokens, each with the area it was found in; the state is cleared.
    pub fn take_result(&mut self) -> (r: Vec<(Entity, Entity)>)
        ensures
            r@ == conversions(old(self).selected@, old(self).candidates@),
            final(self).is_cleared(),
    {
        let mut results: Vec<(Entity, Entity)> = Vec::new();
        let mut i: usize = 0;
        while i < self.selected.len()
            invariant
                i <= self.selected@.len(),
                results@ == conversions(self.selected@.take(i as int), self.candidates@),
            decreases self.selected@.len() - i,
        {
            assert(self.selected@.take(i + 1).drop_last() =~= self.selected@.take(i as int));
            let token = self.selected[i];
            match find_candidate(&self.candidates, token) {
                Some(area) => results.push((token, area)),
                None => {},
            }
            i += 1;
        }
        assert(self.selected@.take(i as int) =~= self.selected@);
        self.clear();
        results
    }
}

} // verus!
