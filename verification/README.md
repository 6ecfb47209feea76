# tcc_launcher

The verified core of the TCC launcher, written in Verus.

- `src/` is the library. Its functions are verified against their
  contracts, except five small trusted wrappers (`external_body`) around the
  outside calls it makes: `sha2`'s SHA-256, chrono's timestamp check, uuid's
  text form, `str::to_uppercase`, and collecting characters into a `String`.
  It covers version parsing and comparison (`version`), the update manifest,
  checksum and installer decisions (`updater`), account rows (`account`), the
  credentials store's default account (`store`), the account queries and
  mutations (`queries`), the launcher core cell (`launcher`), and the small UI
  state and styling the views share (`actions`, `theme`, `dropdown`,
  `onboarding`, `state`). `text` holds the character-level helpers.
- `tests/` runs the library on concrete values.
- `app/` is the program around it: the freya window and components, the
  network, the SQLite database, dialogs and files. It hands the library plain
  values and acts on what the library decides.
