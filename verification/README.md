# querry

The window logic of Querry, a desktop HTTP client, as a Verus-verified
library, with the Slint/SQLite program around it.

- `src/model.rs`: the store's records, the items the lists show, and the
  conversions between them.
- `src/state.rs`: the window's state (`AppState`), its abstract view, one
  spec function per user action describing the next state, and the
  executable transitions proved against them.
- `src/queries.rs`: what the window hands to the store and the icon loader.
- `src/db_path.rs`: where the database file lives.
- `src/laws.rs`: properties across transitions (undo, idempotence, tabs
  that stay distinct, removals that close tabs).
- `app/`: the Slint window, the SQLite calls and the file system; each
  callback awaits the store, loads icons, then hands the answers to a
  transition of `AppState` and shows the result.
