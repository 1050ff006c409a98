//! Fixed names and default paths of the application.

use vstd::prelude::*;

verus! {

/// Name shown in the window title.
pub const APP_NAME: &'static str = "Sakawa Wuwa Modloader";

/// Default game installation root for the Epic Games distribution.
pub const EPIC_PATH: &'static str =
    "C:\\Program Files\\Epic Games\\WutheringWavesj3oFh\\Wuthering Waves Game";

/// Default game installation root for the Kuro distribution.
pub const KURO_PATH: &'static str = "Kuro";

/// Fixed subpath beneath the game root where active mod files live.
pub const MOD_DIR_SUBPATH: &'static str = "Client/Content/Paks/~mod";

/// Name of the game executable beneath the game root.
pub const GAME_EXECUTABLE: &'static str = "Wuthering Waves.exe";

} // verus!
