# soulsy

The logic of a hotkey HUD for a role-playing game: items are gathered into
cycles (powers, utilities, left hand, right hand) and equipment sets, hotkeys
advance the cycles, and the HUD shows and equips what is on top. Items are
classified from the game's keywords into kinds with icons and colors.

- `src/` is the library, verified with Verus: item classification and icons
  (`data/`, `images/`), cycles and equipment sets, key tracking, the
  controller that turns game events into HUD changes and effects for the game
  (`controller/hud.rs`), settings read from the menu's `.ini` text, the
  saved-cycle formats, and text conversion of names the game hands over.
- `app/` is plain Rust around it: the session's controller, a bounded cache
  of the items the game described, the settings file on disk, and carrying
  out effects through a `Game` trait that the game side implements.
- `tests/` runs the library on concrete values.
