# zero2prod

A newsletter service: people subscribe with their e-mail address, receive a
confirmation link carrying a random token, and confirm; an administrator
logs in and can change their password.

- `src/` is the verified library. It holds the subscription token and its
  validation, subscriber records, the confirmation e-mail, page rendering
  through Tera, the text of errors, and the flow of each HTTP handler as a
  state machine (`subscribe`, `confirm`, `change_password`): each step takes
  the outcome of the last outside step (database, e-mail service, session)
  and returns the next state and action. Laws over whole runs of these
  machines are proved next to them.
- `app/` is the actix-web side: handlers that run the state machines and
  perform their database queries and HTTP calls, the e-mail HTTP client,
  serde/sqlx copies of the library's types, and server start-up.
- `tests/` exercises the library on concrete values.
