# crash_site

The rules of a small top-down survival game (find three beacon parts in the
dark, bring them to the rescue point, send the signal), written as a Verus
library with contracts and proved laws, plus the Bevy application around it.

- `src/` — the verified rules: health and status effects
  (`character_controls`), items and the beacon count (`items`), game
  progression and the signal (`win`), the dog (`dog`), enemy attacks and
  fleeing (`enemies`), animation frames (`animation`), and small decisions of
  the HUD, dialogs, menu, collision setup and dead bodies.  Bevy's
  `HashSet` is used through trusted wrappers whose contracts are stated over
  the set of elements each set holds.
- `app/` — the game itself: systems, rendering, audio, input, and everything
  that is measured in floating point (positions, light, sanity, timers).
- `tests/` — tests of the library on concrete values.
