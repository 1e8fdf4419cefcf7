# rakukan

The core of the rakukan input method for Japanese, written in Rust and verified with Verus.

`src/` is the library. Verus proves its functions against their contracts, but for the few
that only call another crate or the standard library: what those promise is not proved, and
their doc comments say what it is.

- `text`, `scan`: strings, numbers and UTF-16.
- `engine`: the state of a composition, conversion between kana and letters, pages of
  candidates, settings and their reload, input modes per document, window and application.
- `tsf`: what each key does. A handler runs in turns: a turn lists what is to be done and
  either ends the handler or asks the conversion engine for something.
- `logfile`: names, rotation and clean-up of log files.
- `builder`: word lists and definitions for the dictionary of the tokenizer.

`tests/` runs the library from outside.

`app/` is the ordinary Rust around it: the dictionary builder's `main`, files, threads, and
the text service itself. What needs Windows there is compiled on Windows alone. The client of
the conversion engine, key maps, tray and settings window are handed in through the traits
in `app/host.rs`.
