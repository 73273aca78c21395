# auth_service

An authentication service (sign-up, sign-in, email verification, token
refresh, own profile) whose decision logic is a Verus-verified library.

- `src/` — the library. `ids` (object ids and their hex form), `validation`
  (field rules), `repo` (user and revoked-token records, sign-up payload),
  `mailing` (mail composition), `routes` (one step function per route: each
  takes the result of a database, hashing, token or mail operation and says
  what happens next, or answers).
- `app/` — the actix-web server: MongoDB, SMTP, password hashing and JWTs,
  driving the library's route steps.
- `tests/` — tests of the library.
