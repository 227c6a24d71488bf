# Yastr

A small Nostr relay for a circle of friends. Users are denied write access by
default; content is allowed for users that have been granted access and for
those they follow. Files can be stored in events and are served over HTTP.

The rules of the relay are a verified library; the program around it does the
talking to sockets, disks and the database.

- `src/` is the library.
  - `text`, `event`, `message`: texts, events, and what clients and the relay
    say to each other.
  - `sqlx_extras`, `db`: SQL with bound values, and the statements that the
    relay runs.
  - `commands`: what a command line sets out to do.
  - `server`: what is done about a message; `server::access` decides who may
    write, `server::search` answers requests, `server::nip1` reads messages
    with better errors, `server::immutable` caches for good.
  - `server::nip95`: the pages about files, and the files; `meta` reads the
    description of a file, `ranges` reads its bytes from any position.
- `tests/` are its tests.
- `app/` is the program.

A function whose contract rests on an outside crate says so in its doc comment.
