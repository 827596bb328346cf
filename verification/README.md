# zapo

A chat service in two parts: an HTTP server (sign-up, login, sending and
pulling messages) and the client calls of a chat app.

- `src/` is the library, verified with Verus: the answers the server gives to
  each request, the login flow as a state machine over the user store's
  lookups, password hashing and checking (Argon2), session tokens (URL-safe
  base64), the in-memory message block, and what the client makes of the
  server's answers.
- `app/` is the server program (actix-web, MySQL through sqlx, tokio) and the
  client's HTTP calls (reqwest); it hands plain values to the library and
  turns its replies into HTTP responses.
- `tests/` runs the library on concrete values.

The server keeps its state in MySQL: a sign-up stores the user, a send stores
its message in the `Global` table, a pull reads the newest hundred messages
from it, and a login answers with the user's session token and creation date.
The library also holds `block_mess`, an in-memory block of messages (newest
first) with its own laws; the server does not use it.
