# chatroom

A small chat-room web service whose decisions are verified with Verus.

- `src/` is the verified library: users and the password check
  (`auth`, with `password` wrapping the `password-auth` crate), chat rooms
  (`models`), what the handlers make of database answers (`database`), the view
  models of the pages (`templates`), the home page and room creation
  (`pages::home`), and the login and sign-in exchanges as a state machine
  (`pages::login`).
- `app/` is the server around it: axum routing, axum-login sessions, the
  SQLite database through sqlx, and page rendering through askama.
- `tests/` runs the library on concrete values.
