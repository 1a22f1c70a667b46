# Patrol

Patrol is a small authentication service that sits behind a reverse proxy
(Caddy): visitors log in, get a session cookie, and the proxy passes the
signed-in user to the protected services in the `X-Patrol` header.

## Layout

- `src/` is the library, verified with Verus. It holds the decisions of the
  service and states them in contracts:
  - `base64url`: the URL-safe Base64 encoding (RFC 4648, section 5), with and
    without padding, and the proof that a padded encoding decodes back to
    what was encoded;
  - `crypto::hashing`: Argon2 password hashes in PHC string format;
  - `session`: reading the `X-Patrol` header, the session endpoint, new
    sessions;
  - `pages`: login, logout, registration (the first user becomes the
    administrator) and password change;
  - `is_first_admin_registered`: the state that grants the administrator
    role at most once;
  - `token`, `keys`, `api`, `well_known`: signed tokens, the RSA keys, and
    the published JSON Web Key set;
  - `text`, `http`, `models`: whitespace trimming, statuses and paths, and
    the stored rows.
- `app/` is the HTTP server around it (poem, SeaORM, Tera, Redis): it reads
  requests, files and the database, and hands the library plain values.
- `tests/` exercises the library on concrete values.
