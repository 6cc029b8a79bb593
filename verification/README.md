# harness-registry

The workflow registry API for ai-harness: a small service that owns the
`harness-registry` Postgres database and publishes it over HTTP, so that any
harness instance can browse and publish workflows.

The library in `src/` decides everything. It takes a request apart, says which
statement to run next, and says what each reply means to the caller; of the
outside world it reads only the clock and the random generator. Its behaviour is stated in contracts and proved with Verus. The
program in `app/` reads sockets and settings, runs the statements, and
writes the answers.

## Layout

| | |
|---|---|
| `src/text.rs` | trimming, splitting, comparing, decimal numbers |
| `src/models.rs` | requests and answers, and the checks on every field |
| `src/auth.rs` | publisher tokens, and who presents one |
| `src/ratelimit.rs` | the per-client limit on the install endpoints |
| `src/config.rs`, `src/cors.rs` | settings, and which pages may read |
| `src/db.rs`, `src/error.rs` | statements, failures, and what the caller is told |
| `src/routes/` | the handlers, as chains of stages |
| `src/tables.rs` | how the statements read on rows, and the promises on rows |
| `src/deps.rs` | what is believed of outside functions, all in one place |
| `tests/` | the library on concrete values |
| `app/` | the program |

## API

| Method | Path | Auth | |
|---|---|---|---|
| `GET` | `/healthz` | -- | process is up |
| `GET` | `/readyz` | -- | database is reachable |
| `GET` | `/v1/workflows` | -- | list; `?tag=`, `?q=`, `?official=`, `?sort=`, `?limit=`, `?offset=` |
| `GET` | `/v1/workflows/{slug}` | -- | one workflow |
| `GET` | `/v1/workflows/{slug}/versions` | -- | version history |
| `GET` | `/v1/workflows/{slug}/versions/{n}` | -- | the YAML document |
| `POST` | `/v1/workflows` | publisher | create, with version 1 |
| `POST` | `/v1/workflows/{slug}/versions` | publisher | publish the next version |
| `PATCH` | `/v1/workflows/{slug}` | publisher | title, description, tags |
| `DELETE` | `/v1/workflows/{slug}` | publisher | unlist (soft) |
| `PUT` | `/v1/workflows/{slug}/installs` | -- | record or refresh an install; limited per client |
| `DELETE` | `/v1/workflows/{slug}/installs/{installation_id}` | -- | forget an install; limited per client |
| `GET` | `/v1/me` | publisher | who the token belongs to |
| `PATCH` | `/v1/me` | publisher | the name it publishes under |
| `POST` | `/v1/admin/tokens` | admin | issue a publisher token |
| `PUT` | `/v1/admin/workflows/{slug}/official` | admin | set the badge |
| `PUT` | `/v1/admin/publishers/{github_id}/blocked` | admin | block or unblock |

## Configuration

| Variable | Default | |
|---|---|---|
| `DATABASE_URL` | *required* | connection string |
| `BIND_ADDR` | `0.0.0.0:8080` | |
| `CORS_ALLOW_ORIGINS` | *(none)* | comma-separated; empty means no browser access |
| `ADMIN_TOKEN` | *(none)* | unset disables the admin endpoints |
| `MAX_YAML_BYTES` | `262144` | largest workflow document accepted |
| `INSTALL_RATE_LIMIT` | `60` | install writes per client and window |
| `INSTALL_RATE_WINDOW_SECS` | `60` | length of that window |
| `RUST_LOG` | `info,harness_registry=debug` | |
