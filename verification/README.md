# heat_city

The rules of Heat City, a top-down crime game, as a library verified with
Verus, and a small program that runs the city around it.

## Layout

- `src/` — the verified library. Each module states its behaviour in
  `requires` / `ensures` contracts over mathematical models (`Seq`, `Map`,
  `Set`, views of the data types), and the laws that tie several operations
  together stand as public proof functions.
  - `economy` — wallet and inventory (stacking, removal, the starter kit).
  - `police` — heat levels and their responses, crimes, the evidence ledger
    and the police state machine.
  - `safehouses`, `businesses`, `crew`, `heists` — what the player owns and
    runs: stash and garage capacities, laundering and income, hiring,
    readiness, one heist at a time.
  - `factions`, `rivals`, `missions`, `dialog`, `events`, `news`,
    `director` — the city's actors and stories, their identifiers, stages
    and state machines.
  - `world` — tiles, the test map, NPC behaviour and what NPCs say.
  - `input` — keys, buttons and the actions they are bound to, per frame.
  - `render` — the order sprites are drawn in, their draw calls and the
    index buffer.
  - `sprites` — procedural pixel art on an `image` canvas.
  - `ui`, `audio`, `save`, `engine`, `text`, `ids` — the HUD, the radio,
    save versions, engine handles and counters, number formatting.
- `tests/` — tests of the library on concrete values.
- `app/` — the program around the library: everything in floating point
  (positions, timers, moods, volumes), the ECS world (`hecs`), assets on
  disk, save files (`serde`, `bincode`, `ron`), the window (`winit`) and the
  GPU renderer (`wgpu`). `--headless` steps the city at 60 Hz under a
  scripted set of key presses instead of opening a window.

## Collections

The key and button sets of `InputState`, the nodes of a `DialogTree`, the
tile types of a `TileRegistry` and the factions of a `FactionRegistry` are
held in `Vec`s, with a `Set` or `Map` view that the contracts speak of. The
std forms were tried first: with a `HashSet<Key>` (the library's key enum,
with derived `Eq` and `Hash`), Verus could not prove that a key is in the
set right after `insert`, and with a `HashMap<String, _>` it could not
prove the length is 1 after one `insert`; with a `u64` key the same calls
prove. The keys here are enums and strings, so the `Vec` forms are used, and
their views give what the std collection gave: a set of keys and buttons,
and maps in which a later insert under the same id replaces the earlier.
