use vstd::prelude::*;

verus! {

/// The game mode of a player.
#[derive(Clone, Copy, Debug, PartialEq, Eq, Structural)]
pub enum GameMode {
    Survival,
    Creative,
    Adventure,
    Spectator,
}

impl Default for GameMode {
    fn default() -> (m: GameMode)
        ensures
            m == GameMode::Spectator,
    {
        GameMode::Spectator
    }
}

impl GameMode {
    pub open spec fn spec_value(self) -> u8 {
        match self {
            GameMode::Survival => 0,
            GameMode::Creative => 1,
            GameMode::Adventure => 2,
            GameMode::Spectator => 3,
        }
    }

    /// The number the game mode is sent as.
    pub fn value(self) -> (v: u8)
        ensures
            v == self.spec_value(),
    {
        match self {
            GameMode::Survival => 0,
            GameMode::Creative => 1,
            GameMode::Adventure => 2,
            GameMode::Spectator => 3,
        }
    }
}

} // verus!
