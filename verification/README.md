# store_postgres

The decisions of a PostgreSQL store for a build server: projects, pipelines, build
configurations, triggers, builds and their jobs, agents and pools, leases, event logs and their
search index, artifacts, caches, retention.

`src/` is the library, written in Verus. It takes rows, counts and verdicts as plain values and
says what they mean: what is written, what is answered, and what is refused and how. Each public
function states that in its contract; properties that span functions are public `proof fn`s beside
them. Where several statements run in turn, the library offers the steps between them (claiming a
job, accepting a trigger).

`app/` runs statements with sqlx around these decisions: migrations, mutations and their
idempotency records, triggers, jobs, leases, log indexing and search, retention, and what is read
of builds and agents. The rules of the server's domain that the store consults enter through the
trait `Rules`.

`tests/` runs the library on concrete values.

Calls into `sha2`, `uuid` and `serde_json` go through the small functions of `hash`,
`identity_text` and `document`, whose contracts say what is taken from those crates.
