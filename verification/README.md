# vorleser_server

The verified core of an audiobook server, written with Verus.

- `src/` is the library. Each public function states what it returns in its
  contract and Verus proves it: MLLT seek tables built from MP3 frames,
  planning answers to HTTP range requests, reading API tokens from requests,
  password checks, the decisions of a library scan (which books to read
  again, which are gone or moved, how a multi-file book is split into
  chapters), directory checksums, the time line of concatenated audio files
  and the byte-stream bookkeeping of the Opus re-encoder.
  Calls into other crates (`uuid`, `mp3-metadata`, `ring`, `regex`,
  `argon2rs`, `rocket` for content types, and a few std functions) stand behind small trusted wrappers
  whose contracts say what those crates do.
- `app/` is the command-line front end: configuration files, logging,
  tagging MP3 files with their seek table, and the file-system side of a
  scan.
- `tests/` runs the library on concrete values.
