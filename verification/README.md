# seer_updater

An updater for the Seer (賽爾號) PC client. On each start it first compares its
own SHA-256 with the checksum published with the latest updater release and,
when they differ, downloads the release, verifies it and hands over to a batch
script that swaps it in. Then it compares the MD5 of `seer.exe` with the
published one; when they differ it fetches the update configuration, downloads
the update archive, verifies its MD5, extracts it over the game and starts the
game.

## Layout

- `src/` — the library, verified with Verus:
  - `chars.rs`, `text.rs` — character classes, trimming, decimal numerals;
  - `checksum.rs` — reading a digest out of a `.sha256` checksum listing;
  - `digest.rs` — MD5 / SHA-256 of data given in chunks, hexadecimal form;
  - `naming.rs` — addresses, temporary file names, the replacement script;
  - `http.rs` — response statuses, how they are shown, and fetch outcomes;
  - `self_update.rs` — the decisions of the updater's check on itself, and its error texts;
  - `game_update.rs` — the decisions of a whole run;
  - `extract.rs` — the treatment of each archive entry.
  The two decision modules are state machines: the caller performs the
  action each step asks for and reports the result as the next event. Their
  proof functions state what every run guarantees (for instance, that an
  archive is extracted only after its MD5 matched the configuration, and that
  a downloaded archive is always deleted again).
- `app/main.rs` — the program: files, network, processes and messages.
- `tests/` — tests of the library on concrete inputs.
