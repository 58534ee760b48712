# soundanalysis

The verified core of Rust bindings to Apple's SoundAnalysis framework.

- `src/` — the library, verified with Verus: error codes and the errors that
  bridge statuses stand for (`error`), decimal text (`text`), path checks
  (`paths`), stream-format and PCM-buffer checks (`streaming`), the
  book-keeping of observed requests (`observer`), classifier codes and label
  lists (`request`), lookup by identifier (`classifier`), constraint kinds
  (`time`), live-session errors (`live`) and the bridge's integer codes
  (`codes`).
- `app/` — the bindings themselves: the native bridge declarations, the
  types that carry floating-point data, user callbacks and async plumbing.
  Every decision they make goes through the library.
- `tests/` — tests of the library on concrete values.
