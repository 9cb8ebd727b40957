# clip_verse

The verified core of a desktop clipboard recorder. The recorder polls the
system clipboard, fingerprints what it finds with SHA-256, and keeps each new
text or image in a SQLite database under `~/.clip_verse`, filing images and
their thumbnails by `YYYY/MM`, optionally with an AES-256-GCM encrypted copy.

`src/` is the library, checked by Verus:

- `paths` — the data directory and every file and directory inside it.
- `text` — trimming, decimal numbers in text form, reading a `u64`.
- `digest` — SHA-256 fingerprints in lower-case hex, of texts and of images.
- `cipher` — AES-256-GCM encryption and decryption of image copies.
- `time` — clock readings in China Standard Time, the Gregorian calendar
  they are read in, and the `YYYY/MM/DD` path.
- `store` — the stored records, the schema, and every SQL statement with the
  values bound to it.
- `commands` — the checks made on what the user interface sends.
- `monitor` — the clipboard monitor's settings and the state machine of one
  polling tick.

`app/` carries out what the library decides: it opens the database and runs
the statements, reads the clipboard, writes image files, and drives the
monitor's state machine from a polling thread.
