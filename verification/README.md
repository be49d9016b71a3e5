# rusty_melvor

A decoder for Melvor Idle save files, verified with Verus.

A save file holds Base64 text of a zlib stream. Inflated, the stream starts with the
magic `melvor`, then a header buffer (the text ids of the game's data, by namespace, and
a version) and a data buffer (the save itself, in the game's big-endian binary format).
The library decodes the data buffer into a JSON-like value tree.

Every reading primitive and every decoder is specified by a parser over the bytes
(`src/traits/read.rs` and the `parse_*` spec functions beside each decoder), and Verus
proves that the code returns what the parser describes, or `None` exactly where the
data ends early.

Layout:

- `src/value.rs`: the value tree and its model; objects replace the value of a key that
  is inserted again.
- `src/text.rs`: decimal rendering and UTF-8 decoding.
- `src/traits/`: the reading primitives and the decoders of each part of a save.
- `src/save_reader.rs`: the reader over a buffer, the header's id table and the decoding
  of a whole save (`MelvorSaveReader::read_save`).
- `src/save_file.rs`: from the text of a save file to its bytes (Base64, then zlib).
- `src/laws.rs`: properties of the format stated and proved over the parsers.
- `app/main.rs`: the program: reads `save2.txt` and writes the decoded header and save
  as JSON files.
- `tests/`: tests on encoded sample data.
