# backend

The server side of a chat service in the manner of Discord: users, servers
with an invitation code, ranked memberships (owner, admins, members), text
channels, direct conversations, messages with emoji reactions, bans, and live
notices over a websocket.

## Layout

- `src/` is the library, verified with Verus. Each request is split into the
  decisions it makes, and each decision is a function with a contract:
  - `domain/models` — the rows of the tables, with ids as the 128-bit values
    of UUIDs and times as microseconds since the Unix epoch;
  - `application/dto` — requests and answers, and `AppError` with its HTTP
    status;
  - `application/services` — the rules of each endpoint (`server_service`,
    `channel_service`, `message_service`, `auth_service`), the rank checks
    they share (`access`) and the assembly of server descriptions (`roster`);
  - `application/utils` — identifiers, the clock, password hashing (Argon2),
    access tokens (JWT) and avatar pictures, each behind a small trusted
    wrapper of the crate that does the work;
  - `application/events` — the notices broadcast to clients;
  - `infrastructure/api` — the bearer-token check and the routing of
    broadcasts to websocket clients;
  - `properties` — laws that span several functions: a server keeps exactly
    one owner, nobody moderates the owner or themselves, bans hold exactly
    while they last, a toggled reaction flips, broadcasts stay within their
    server.
- `tests/` exercises the library on concrete values.
- `app/` is the program around it: the axum routes, the sea-orm tables and
  migrations, the JSON shapes, the authentication layer and the websocket
  loop. It reads and writes the database and broadcasts; the checks, the
  rows it writes, the answers and the notices come from the library.

`JWT_SECRET` signs the access tokens; `DATABASE_URL` and `PORT` configure the
program.
