//! The settings the launcher keeps for its user.

use vstd::prelude::*;

verus! {

/// The game's executable, relative to the installation folder.
pub const GAME_EXECUTABLE: &'static str = "destiny2.exe";

/// The user's saved settings.
#[derive(Clone, Debug)]
pub struct Preferences {
    /// The installation folder, as the user typed or picked it.
    pub install_directory: String,
    /// The Steam account name handed to DepotDownloader.
    pub steam_username: String,
    /// The Steam language of the installed or selected language depot.
    pub steam_language: String,
    /// The CrossOver bottle the game runs in, as the user typed it.
    pub crossover_bottle: String,
    /// The CrossOver graphics backend the user chose.
    pub crossover_backend: String,
}

} // verus!
