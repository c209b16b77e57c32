# termcolor

Colored text for terminals, written with ANSI escape sequences, as a library
whose behaviour is stated in Verus contracts and proved.

- `src/` is the verified library: the color syntax and its parser, color
  specifications, the escape sequences they are written as, the `WriteColor`
  trait with the `Ansi` and `NoColor` writers over in-memory byte vectors,
  `Buffer`, the decisions of `BufferWriter`, and how `ColorChoice::Auto`
  reads the environment. `src/laws.rs` holds the properties that span
  several functions.
- `app/` holds what performs I/O: `StandardStream`, `StandardStreamLock`,
  `BufferedStandardStream`, `AnsiWriter` and `NoColorWriter` over any
  `io::Write`, a thread-safe `BufferWriter` that writes to the
  standard streams, reading the environment, and `Display`/`Error` for the
  error types.
- `tests/` runs the library on concrete values.
