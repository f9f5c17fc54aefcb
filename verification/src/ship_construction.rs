use vstd::prelude::*;
use crate::entity::Entity;
use crate::util::{first_index, lemma_first_index, next_index, position_of, prev_index, step_next, step_prev};

verus! {

/// Marks a human player while they plan their ship construction.
#[derive(Debug, Default)]
pub struct AwaitingShipPlacement;

/// A human player's ship-building plan: how many ships, and for each one
/// the area it is built in, chosen among the offered areas; a slot cursor
/// over the planned ships and an area cursor over the offered areas.
#[derive(Debug)]
pub struct ShipConstructionState {
    pub player: Option<Entity>,
    pub available_areas: Vec<Entity>,
    pub ships_to_build: usize,
    pub max_buildable: usize,
    pub selected_areas: Vec<Entity>,
    pub current_slot: usize,
    pub area_cursor: usize,
}

impl Default for ShipConstructionState {
    fn default() -> (s: Self)
        ensures
            s.is_cleared(),
    {
        ShipConstructionState {
            player: None,
            available_areas: Vec::new(),
            ships_to_build: 0,
            max_buildable: 0,
            selected_areas: Vec::new(),
            current_slot: 0,
            area_cursor: 0,
        }
    }
}

impl ShipConstructionState {
    pub open spec fn is_cleared(self) -> bool {
        &&& self.player is None
        &&& self.available_areas@.len() == 0
        &&& self.ships_to_build == 0
        &&& self.max_buildable == 0
        &&& self.selected_areas@.len() == 0
        &&& self.current_slot == 0
        &&& self.area_cursor == 0
    }

    /// The plan has one area per ship, never more ships than allowed.
    pub open spec fn wf(self) -> bool {
        &&& self.selected_areas@.len() == self.ships_to_build
        &&& self.ships_to_build <= self.max_buildable
    }

    /// The plan with the current slot set to the area under the cursor,
    /// when both exist.
    pub open spec fn area_synced(self) -> Seq<Entity> {
        if self.area_cursor < self.available_areas@.len() && self.current_slot < self.selected_areas@.len() {
            self.selected_areas@.update(self.current_slot as int, self.available_areas@[self.area_cursor as int])
        } else {
            self.selected_areas@
        }
    }

    /// The area cursor moved onto the current slot's area (to the first
    /// area when that area is not offered), when the slot exists.
    pub open spec fn cursor_synced(self) -> usize {
        if self.current_slot < self.selected_areas@.len() {
            let a = self.selected_areas@[self.current_slot as int];
            if self.available_areas@.contains(a) {
                first_index(self.available_areas@, a) as usize
            } else {
                0
            }
        } else {
            self.area_cursor
        }
    }

    /// `player` may build up to `max_buildable` ships in `available_areas`.
    pub fn populate(&mut self, player: Entity, available_areas: Vec<Entity>, max_buildable: usize)
        ensures
            final(self).player == Some(player),
            final(self).available_areas@ == available_areas@,
            final(self).ships_to_build == 0,
            final(self).max_buildable == max_buildable,
            final(self).selected_areas@.len() == 0,
            final(self).current_slot == 0,
            final(self).area_cursor == 0,
            final(self).wf(),
    {
        self.player = Some(player);
        self.available_areas = available_areas;
        self.ships_to_build = 0;
        self.max_buildable = max_buildable;
        self.selected_areas.clear();
        self.current_slot = 0;
        self.area_cursor = 0;
    }

    pub fn clear(&mut self)
        ensures
            final(self).is_cleared(),
    {
        *self = Self::default();
    }

    /// Plans one more ship, in the first offered area, if allowed.
    pub fn increment(&mut self)
        ensures
            ({
                let grows = old(self).ships_to_build < old(self).max_buildable
                    && old(self).available_areas@.len() > 0;
                if grows {
                    *final(self) == (ShipConstructionState {
                        ships_to_build: (old(self).ships_to_build + 1) as usize,
                        selected_areas: final(self).selected_areas,
                        ..*old(self)
                    }) && final(self).selected_areas@ == old(self).selected_areas@.push(
                        old(self).available_areas@[0],
                    )
                } else {
                    *final(self) == *old(self)
                }
            }),
            old(self).wf() ==> final(self).wf(),
    {
        if self.ships_to_build < self.max_buildable && self.available_areas.len() > 0 {
            self.ships_to_build = self.ships_to_build + 1;
            let first = self.available_areas[0];
            self.selected_areas.push(first);
        }
    }

    /// Plans one ship fewer (the last one), keeping the slot cursor on a
    /// planned ship.
    pub fn decrement(&mut self)
        ensures
            old(self).ships_to_build == 0 ==> *final(self) == *old(self),
            old(self).ships_to_build > 0 ==> ({
                let n = (old(self).ships_to_build - 1) as usize;
                &&& *final(self) == (ShipConstructionState {
                    ships_to_build: n,
                    selected_areas: final(self).selected_areas,
                    current_slot: if old(self).current_slot >= n && old(self).current_slot > 0 {
                        (old(self).current_slot - 1) as usize
                    } else {
                        old(self).current_slot
                    },
                    ..*old(self)
                })
                &&& final(self).selected_areas@ == if old(self).selected_areas@.len() > 0 {
                    old(self).selected_areas@.drop_last()
                } else {
                    old(self).selected_areas@
                }
            }),
            old(self).wf() ==> final(self).wf(),
    {
        if self.ships_to_build > 0 {
            self.ships_to_build = self.ships_to_build - 1;
            self.selected_areas.pop();
            if self.current_slot >= self.ships_to_build && self.current_slot > 0 {
                self.current_slot = self.current_slot - 1;
            }
        }
    }

    /// The area under the cursor.
    pub fn current_area(&self) -> (a: Option<Entity>)
        ensures
            a == if self.area_cursor < self.available_areas@.len() {
                Some(self.available_areas@[self.area_cursor as int])
            } else {
                None
            },
    {
        if self.area_cursor < self.available_areas.len() {
            Some(self.available_areas[self.area_cursor])
        } else {
            None
        }
    }

    /// Moves the area cursor forward and plans the current ship there.
    pub fn next_area(&mut self)
        requires
            old(self).available_areas@.len() > 0 ==> old(self).area_cursor < usize::MAX,
        ensures
            old(self).available_areas@.len() == 0 ==> *final(self) == *old(self),
            old(self).available_areas@.len() > 0 ==> ({
                let moved = ShipConstructionState {
                    area_cursor: next_index(old(self).area_cursor as nat, old(self).available_areas@.len())
                        as usize,
                    ..*old(self)
                };
                &&& *final(self) == (ShipConstructionState {
                    selected_areas: final(self).selected_areas,
                    ..moved
                })
                &&& final(self).selected_areas@ == moved.area_synced()
            }),
            old(self).wf() ==> final(self).wf(),
    {
        if self.available_areas.len() > 0 {
            self.area_cursor = step_next(self.area_cursor, self.available_areas.len());
            self.sync_area_to_slot();
        }
    }

    /// Moves the area cursor back and plans the current ship there.
    pub fn prev_area(&mut self)
        ensures
            old(self).available_areas@.len() == 0 ==> *final(self) == *old(self),
            old(self).available_areas@.len() > 0 ==> ({
                let moved = ShipConstructionState {
                    area_cursor: prev_index(old(self).area_cursor as nat, old(self).available_areas@.len())
                        as usize,
                    ..*old(self)
                };
                &&& *final(self) == (ShipConstructionState {
                    selected_areas: final(self).selected_areas,
                    ..moved
                })
                &&& final(self).selected_areas@ == moved.area_synced()
            }),
            old(self).wf() ==> final(self).wf(),
    {
        if self.available_areas.len() > 0 {
            self.area_cursor = step_prev(self.area_cursor, self.available_areas.len());
            self.sync_area_to_slot();
        }
    }

    /// Moves the slot cursor to the next planned ship and the area cursor
    /// onto its area.
    pub fn next_slot(&mut self)
        requires
            old(self).ships_to_build > 0 ==> old(self).current_slot < usize::MAX,
        ensures
            old(self).ships_to_build == 0 ==> *final(self) == *old(self),
            old(self).ships_to_build > 0 ==> ({
                let moved = ShipConstructionState {
                    current_slot: next_index(old(self).current_slot as nat, old(self).ships_to_build as nat)
                        as usize,
                    ..*old(self)
                };
                *final(self) == (ShipConstructionState { area_cursor: moved.cursor_synced(), ..moved })
            }),
    {
        if self.ships_to_build > 0 {
            self.current_slot = step_next(self.current_slot, self.ships_to_build);
            self.sync_cursor_to_slot();
        }
    }

    /// Moves the slot cursor to the previous planned ship and the area
    /// cursor onto its area.
    pub fn prev_slot(&mut self)
        ensures
            old(self).ships_to_build == 0 ==> *final(self) == *old(self),
            old(self).ships_to_build > 0 ==> ({
                let moved = ShipConstructionState {
                    current_slot: prev_index(old(self).current_slot as nat, old(self).ships_to_build as nat)
                        as usize,
                    ..*old(self)
                };
                *final(self) == (ShipConstructionState { area_cursor: moved.cursor_synced(), ..moved })
            }),
    {
        if self.ships_to_build > 0 {
            self.current_slot = step_prev(self.current_slot, self.ships_to_build);
            self.sync_cursor_to_slot();
        }
    }

    fn sync_area_to_slot(&mut self)
        ensures
            *final(self) == (ShipConstructionState {
                selected_areas: final(self).selected_areas,
                ..*old(self)
            }),
            final(self).selected_areas@ == old(self).area_synced(),
    {
        if self.area_cursor < self.available_areas.len() && self.current_slot < self.selected_areas.len() {
            let area = self.available_areas[self.area_cursor];
            self.selected_areas.set(self.current_slot, area);
        }
    }

    fn sync_cursor_to_slot(&mut self)
        ensures
            *final(self) == (ShipConstructionState { area_cursor: old(self).cursor_synced(), ..*old(self) }),
    {
        if self.current_slot < self.selected_areas.len() {
            let area = self.selected_areas[self.current_slot];
            match position_of(&self.available_areas, area) {
                Some(idx) => {
                    proof {
                        lemma_first_index(self.available_areas@, area, idx as int);
                    }
                    self.area_cursor = idx;
                },
                None => {
                    self.area_cursor = 0;
                },
            }
        }
    }

    /// The planned area of every ship; the state is cleared.
    pub fn take_result(&mut self) -> (r: Vec<Entity>)
        ensures
            r@ == old(self).selected_areas@,
            final(self).is_cleared(),
    {
        let mut areas: Vec<Entity> = Vec::new();
        std::mem::swap(&mut areas, &mut self.selected_areas);
        self.clear();
        areas
    }
}

} // verus!
