//! Constants of the remote service's data model: positions, queues and ranks.

use vstd::prelude::*;

verus! {

/// A ranked position on the map, as the lobby service names them.
#[derive(Debug, Clone, Copy, PartialEq, Eq, Structural)]
pub enum Position {
    TOP,
    JUNGLE,
    MIDDLE,
    BOTTOM,
    UTILITY,
    FILL,
    UNSELECTED,
}

impl Default for Position {
    fn default() -> (r: Self)
        ensures
            r == Position::TOP,
    {
        Position::TOP
    }
}

/// The queue a lobby was opened for.
#[derive(Debug, Clone, Copy, PartialEq, Eq, Structural)]
pub enum QueueId {
    Draft,
    Solo,
    Blind,
    Flex,
    Aram,
    Clash,
}

/// A ranked tier, from unranked up to challenger.
#[derive(Debug, Clone, Copy, PartialEq, Eq, Structural)]
pub enum Tier {
    Unranked,
    Iron,
    Bronze,
    Silver,
    Gold,
    Platinum,
    Diamond,
    Master,
    Grandmaster,
    Challenger,
}

/// A ranked division inside a tier; `NA` where the tier has none.
#[derive(Debug, Clone, Copy, PartialEq, Eq, Structural)]
pub enum Division {
    I,
    II,
    III,
    IV,
    NA,
}

} // verus!
