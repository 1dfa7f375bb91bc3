# sigvim

A vim-first desktop client for Signal (through signal-cli over D-Bus) and
Telegram, split in two:

- `src/` is the library, verified with Verus: the modal key engine and
  keymaps, `:command` parsing and `:set`, messenger identifiers and message
  normalisation, notification policy and unread badges, theme resolution
  and the built-in stylesheets (each proved to define the whole palette),
  input validation for linking and sign-in, and the decision tables the
  window acts on (composer keys, engine actions, link-flow steps, sidebar
  navigation, cache write plans). Each public function states its result
  in its contract; the `laws` modules prove properties that span several
  functions (round trips, what every update keeps, what one call undoes).
- `app/` is the GTK 4 / libadwaita shell around it: windows and widgets,
  the tokio runtime, the SQLite cache, D-Bus, desktop notifications and
  file watching. It performs what the library decides.

Calls into outside crates (QR encoding) and into the few parts of std
that vstd gives no specification (string formatting, the channel of the
stylesheet watcher) go through small trusted wrappers whose contracts say
what the crate or std documents, and no more.

`tests/` runs the library on concrete values, with the outside crates
linked.
