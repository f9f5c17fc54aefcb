use vstd::prelude::*;
use crate::entity::Entity;
use crate::calamities::secondary_loss;

verus! {

/// Flood (rule 30.51): the primary victim loses at most 17 unit points (7
/// with Engineering) from the flood plain where they have most; secondary
/// victims there share a loss of 10.  With no victim units on a flood plain,
/// one coastal city is lost instead.
#[derive(Debug, Clone, Default)]
pub struct FloodState {
    pub phase: FloodPhase,
    pub flood_plain_area: Option<Entity>,
    pub primary_max_loss: i32,
    pub has_engineering: bool,
    /// The coastal city chosen under rule 30.514.
    pub fallback_city: Option<Entity>,
}

#[derive(Debug, Clone, Default, PartialEq, Eq, Structural)]
pub enum FloodPhase {
    #[default]
    FindFloodPlain,
    ApplyPrimaryLoss,
    ApplySecondaryLoss,
    FallbackCoastalCity,
    SelectFallbackCity,
    Complete,
}

impl FloodState {
    pub fn new() -> (s: Self)
        ensures
            s == (FloodState {
                phase: FloodPhase::FindFloodPlain,
                flood_plain_area: None,
                primary_max_loss: 17,
                has_engineering: false,
                fallback_city: None,
            }),
    {
        FloodState {
            phase: FloodPhase::FindFloodPlain,
            flood_plain_area: None,
            primary_max_loss: 17,
            has_engineering: false,
            fallback_city: None,
        }
    }

    /// Engineering caps the primary loss at 7.
    pub fn with_engineering(self) -> (s: Self)
        ensures
            s == (FloodState { has_engineering: true, primary_max_loss: 7, ..self }),
    {
        let mut s = self;
        s.has_engineering = true;
        s.primary_max_loss = 7;
        s
    }
}

/// Divides the Flood secondary loss (rule 30.512); see
/// [`secondary_loss::secondary_allocation`].
pub fn allocate_secondary_loss(
    secondary_players: &[(Entity, usize)],
    total: usize,
    primary_choice: Option<&[(Entity, usize)]>,
) -> (res: Vec<(Entity, usize)>)
    ensures
        res@ == secondary_loss::secondary_allocation(
            secondary_players@,
            total as nat,
            match primary_choice {
                Some(c) => Some(c@),
                None => None,
            },
        ),
{
    secondary_loss::allocate(secondary_players, total, primary_choice)
}

} // verus!
