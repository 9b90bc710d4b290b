# flowflow

The decisions behind FlowFlow's screens (a voice-notes app for iPhone and
Mac), written as a Verus library: what the notes feed shows and in which
order, when a note is saved or left alone, how another device's version of a
note is taken in, the tags, reminders, themes, shared spaces, sync and
settings screens. Each public function carries a contract that Verus proves.

Layout:

- `src/` the verified library, one module per screen or concern
  (`feed`, `note_edit`, `tags`, `folders`, `spaces`, `sync`, `chat_provider`,
  `recording`, `settings`, ...), with `text`, `text_set` and `dates` as the
  shared building blocks. Calls into chrono, serde_json and std's Unicode
  text functions stand behind a few trusted wrappers, each documented.
- `tests/` runs the library on concrete values.
- `app/` the part that stays outside the library: the Dioxus signals the
  components share, file paths, the waits and saves that the library's
  state machines ask for, and the arithmetic on floating-point durations,
  playhead positions and pointer positions.
