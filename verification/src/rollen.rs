use vstd::prelude::*;

verus! {

/// The role a player draws at the start of a game.
#[derive(Debug, Clone, Copy, PartialEq, Eq, Structural)]
pub enum Rolle {
    Dorfbewohner,
    Werwolf,
    Seher,
    Hexe,
    Jaeger,
    Amor,
    Doktor,
    Priester,
}

/// The side a player wins or loses with.
#[derive(Debug, Clone, Copy, PartialEq, Eq, Structural)]
pub enum Team {
    TeamWerwolf,
    TeamDorf,
    TeamLiebende,
}

/// The team that a role belongs to when it is dealt: the werewolves form
/// their own team, every other role plays for the village.
pub open spec fn team_von(rolle: Rolle) -> Team {
    match rolle {
        Rolle::Werwolf => Team::TeamWerwolf,
        _ => Team::TeamDorf,
    }
}

impl Rolle {
    pub fn team(&self) -> (t: Team)
        ensures
            t == team_von(*self),
    {
        match self {
            Rolle::Werwolf => Team::TeamWerwolf,
            Rolle::Seher => Team::TeamDorf,
            Rolle::Hexe => Team::TeamDorf,
            Rolle::Jaeger => Team::TeamDorf,
            Rolle::Amor => Team::TeamDorf,
            Rolle::Dorfbewohner => Team::TeamDorf,
            Rolle::Doktor => Team::TeamDorf,
            Rolle::Priester => Team::TeamDorf,
        }
    }
}

} // verus!
