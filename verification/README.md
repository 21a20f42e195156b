# jot

Jot splits note-taking in two: a scratchpad window that only takes a note and a
priority and sends it off, and a web inbox where notes are read, most important
first, and dismissed.

- `src/` is the verified library (Verus):
  - `note`: notes, their priorities and how priorities are numbered, named and cycled;
  - `inbox`: the inbox order (priority, then time, latest first) and how stored notes
    are shown, with dates formatted by chrono;
  - `auth`: login and registration decisions and the session cookie;
  - `decimal`: decimal writing and parsing of user IDs;
  - `geometry`: screen rectangles with SDL2's clamping rules;
  - `scratchpad`: the scratchpad's layout and its input state machine.
- `app/` runs the two programs: the Rocket server with its SQLite storage
  (`jot inbox`) and the SDL2 window that posts notes over HTTP (`jot scratchpad`).
- `tests/` runs the library on concrete values.
