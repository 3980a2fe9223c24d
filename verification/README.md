# exec(ut)

The backend of exec(ut), a conference for and by IT students: attendees and
exhibitors sign in with a badge and a one-time token, scan each other's
badges, and exhibitors list the scans they made and the scans made of them.
Admins seed the users from CSV uploads.

## Layout

- `src/` is the library, verified with Verus. It holds every decision of the
  service:
  - `errors.rs`: the errors and the HTTP status and message of each;
  - `auth.rs`, `auth/`: signing in, the claims of a token, the signing keys;
  - `users.rs`, `users/`: roles, users and profiles; the CSV records
    (`records.rs`); the seeding of users from uploads (`seeding.rs`,
    `attendee.rs`, `exhibitor.rs`, `populate.rs`); scanning and listing
    scans (`scans.rs`);
  - `store.rs`: the statements a request asks the database to run, and the
    replies it gets back;
  - `ids.rs`: UUIDs and decimals as text.

  Each request is a flow: it names the next statement, takes the database's
  reply, and decides again until it answers. The contracts state what each
  step does; the `law_*` proof functions state what holds across steps.
- `app/` is the HTTP service around it (axum, sqlx on Postgres): it reads
  requests, runs the statements the flows ask for, and writes the answers as
  JSON.
- `tests/` runs the library on concrete requests and replies.

## Usage

Run a Postgres database, set `DATABASE_URL` and `JWT_SECRET` (or put them in
`.env`), and start the service; it listens on port 3000 under `/v1`.

| Route                 | Method | Who                      |
| :-------------------- | :----- | :----------------------- |
| `/v1/health`          | any    | everyone                 |
| `/v1/auth`            | POST   | a badge and its token    |
| `/v1/attendees`       | POST   | admins (CSV upload)      |
| `/v1/exhibitors`      | POST   | admins (CSV upload)      |
| `/v1/populate`        | POST   | admins (CSV upload)      |
| `/v1/scans`           | GET    | exhibitors               |
| `/v1/scans/:badge`    | POST   | attendees and exhibitors |

Signing in takes the badge in the JSON body and the one-time token either in
the body or in the query string:

```bash
curl http://127.0.0.1:3000/v1/auth?token=000000 \
  -H 'Content-Type: application/json' \
  -d '{ "badge": "00000000-0000-0000-0000-000000000000" }'
```
