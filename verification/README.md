# swf_parser

A parser of SWF (Flash) files, written in Verus: every parser is a function on
bytes whose result is stated by a specification over byte sequences, and the
library is proved to meet those specifications and never to panic.

## Layout

- `src/` — the verified library.
  - `error`, `bytes`, `bits`: parser results, byte and bit readers.
  - `fixed`, `ast`, `basic_data_types`: fixed-point numbers, rectangles, colors,
    matrices, color transforms.
  - `header`, `movie`, `decompress`: the SWF signature, the movie header, whole
    files (uncompressed, zlib with the `inflate` crate, LZMA with `lzma-rs`).
  - `tag`, `tags`, `ast_tags`: tag framing, the tag dispatch and the simple tags.
  - `shape`, `shape_tags`, `morph_shape`, `display`, `button`, `text`,
    `text_tags`, `image`, `sound`, `video`: the structured tags.
  - `actions`, `avm1`: AVM1 bytecode actions.
  - `stream_buffer`, `streaming`, `state`: the incremental parser, fed with
    chunks of bytes. For zlib payloads it drives an `inflate` decoder step by
    step: the decoder's input and output so far are named over the decoder
    itself, its output always agrees with whole-input zlib decompression, a
    refusal means that no input starting with those bytes decompresses, and the
    contracts read the header and tags from that output; a decoder that
    refused its input is never called again.
- `tests/` — tests run against the compiled library.
- `app/` — a command line front end that prints the movie of a file.
