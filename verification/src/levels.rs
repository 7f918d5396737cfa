//! The level table: each level names itself, its enemy count and where
//! the player starts (whole playfield units).

use vstd::prelude::*;

verus! {

/// One level of the campaign.
#[derive(Debug)]
pub struct Level {
    pub name: String,
    pub enemy_count: u32,
    pub player_start_position: (i64, i64),
}

impl Level {
    /// A level with the given name, enemy count and start position.
    pub fn new(name: &str, enemy_count: u32, player_start_position: (i64, i64)) -> (r: Level)
        ensures
            r.name@ == name@,
            r.enemy_count == enemy_count,
            r.player_start_position == player_start_position,
    {
        Level { name: name.to_owned(), enemy_count, player_start_position }
    }
}

/// The three levels of the campaign, in order, each with five more
/// enemies than the one before and a start position one unit further out.
pub fn load_levels() -> (r: Vec<Level>)
    ensures
        r@.len() == 3,
        r@[0].name@ == "Level 1"@ && r@[0].enemy_count == 5 && r@[0].player_start_position == (
            0i64,
            0i64,
        ),
        r@[1].name@ == "Level 2"@ && r@[1].enemy_count == 10 && r@[1].player_start_position == (
            1i64,
            1i64,
        ),
        r@[2].name@ == "Level 3"@ && r@[2].enemy_count == 15 && r@[2].player_start_position == (
            2i64,
            2i64,
        ),
{
    let mut r: Vec<Level> = Vec::new();
    r.push(Level::new("Level 1", 5, (0, 0)));
    r.push(Level::new("Level 2", 10, (1, 1)));
    r.push(Level::new("Level 3", 15, (2, 2)));
    r
}

} // verus!
