# rey

The core of an end-to-end encrypted photo library client, written in Verus.
Every function under `src/` is verified by Verus against its contract; the calls
into cryptographic, image, EXIF and encoding crates sit behind small trusted
wrappers whose contracts restate what those crates document.

Layout:

- `src/crypto`: secretbox and stream encryption, key wrapping, sealed boxes,
  Argon2id and BLAKE2b key derivation, encodings.
- `src/metadata`: encrypted file metadata and per-field "magic" metadata.
- `src/sync`: decrypting what the server sends and deciding, page by page,
  what a sync stores, archives and fetches next.
- `src/media`: decoding, orienting, resizing and encoding images; EXIF facts.
- `src/client`: the client's commands and their errors; upload planning.
- `src/store`: the local database's key, migrations, cursors and errors.
- `src/common`: configuration, errors with context, time.
- `app/`: the unverified shell: environment and files, SQLite, HTTP, JSON,
  logging, and the command handlers that call the library.
