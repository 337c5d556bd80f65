# er_menus

Message tables (FMG files) of a game and the logic of a menu mod built on
them, as a library verified with Verus, with the programs around it.

- `src/` — the verified library:
  - `categories` — the message-table categories, their ids and names, and
    reading a category from its name;
  - `fmg` — message tables and the layered database (custom, second
    expansion, first expansion, base) with its lookups and additions;
  - `messages` — bounded replacement messages in UTF-16;
  - `gui` — the overlay's state and per-frame decisions;
  - `hook` — where to place the hook's code and the jump that reaches it;
  - `item_names` — item names from an `id:name` table;
  - `json` — JSON values, their compact text, and a navigator that searches
    arrays of objects;
  - `text` — UTF-16 encoding, trimming, character search and `i32` parsing.
- `tests/` — tests of the library.
- `app/` — file reading, XML and JSON parsing, the menu DLL (Windows only),
  its hooks and its render loop.
