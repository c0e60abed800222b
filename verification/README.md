# rust_fundamentals

Verified versions of the chapter examples and exercises of a Rust study
workspace, written in Verus.

- `src/` is the verified library. `texto.rs` holds the text layer that the
  rest shares (trimming, lines, words, substring search and integer parsing
  with std's error messages); every other module is one chapter (`chNN_…`) or
  one set of exercises (`exNN_…`). Each public function carries a contract
  that Verus proves, and the public proof functions state the laws that
  relate several functions.
- `tests/` runs the library on concrete values.
- `app/` is the program around the library: the chapter demonstrations that
  print, file and network I/O, threads, the thread pool, shared `RefCell`
  graphs, raw pointers and floating-point results. It calls the library for
  every decision.

The only outside crate is `rand`, used to draw the secret number of the
guessing game.
