//! Which scene the game enters after login.

use vstd::prelude::*;
use vstd::string::StringExecFns;

verus! {

/// Knows the scenes of the game.
#[derive(Debug)]
pub struct LevelManager {}

impl LevelManager {
    pub fn new() -> LevelManager {
        LevelManager {  }
    }

    /// Resource path of the scene that is loaded once the player is logged in.
    pub fn get_entry_scene_path(&self) -> (path: String)
        ensures
            path@ == "res://scenes/world/entry.tscn"@,
    {
        String::from_str("res://scenes/world/entry.tscn")
    }
}

impl Default for LevelManager {
    fn default() -> LevelManager {
        LevelManager::new()
    }
}

} // verus!
