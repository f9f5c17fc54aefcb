use vstd::prelude::*;

verus! {

/// Identifier of a game object (a player, an area, a token, a city or a ship).
///
/// An identifier is a row number; the largest `u32` is reserved and never
/// names an object.
#[derive(Clone, Copy, Debug, PartialEq, Eq, Hash, PartialOrd, Ord, Structural)]
pub struct Entity {
    row: u32,
}

impl Entity {
    /// The numeric row of this identifier.
    pub closed spec fn spec_row(self) -> u32 {
        self.row
    }

    /// Builds the identifier with row `row`; `None` for the reserved row `u32::MAX`.
    pub fn from_raw_u32(row: u32) -> (res: Option<Entity>)
        ensures
            row == u32::MAX <==> res is None,
            res matches Some(e) ==> e.spec_row() == row,
    {
        if row == u32::MAX {
            None
        } else {
            Some(Entity { row })
        }
    }

    /// The numeric row of this identifier.
    pub fn index(&self) -> (r: u32)
        ensures
            r == self.spec_row(),
            r < u32::MAX,
    {
        proof {
            use_type_invariant(self);
        }
        self.row
    }

    #[verifier::type_invariant]
    spec fn row_in_range(self) -> bool {
        self.row < u32::MAX
    }

    /// Two identifiers are equal exactly when their rows are.
    pub proof fn lemma_row_determines(a: Entity, b: Entity)
        ensures
            a.spec_row() == b.spec_row() <==> a == b,
    {
    }
}

} // verus!
