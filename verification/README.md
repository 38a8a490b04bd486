# tokimo-app-helloworld

The "hello world" Tokimo app: an items service behind a local socket, with a
greeting and echo endpoint, a data-plane sample, UI assets and a small CLI.

- `src/` is the verified library (Verus). It holds the app's decisions:
  asset names and sources, reply bodies, item validation, the SQL the app
  runs, the add-item flow with the bus call it makes, the migration plan and
  how a refused step ends it, the ledger walk, start-up sequencing with what
  the app registers as, socket placement, and the CLI's calls and output.
- `app/` is the program around it: axum and hyper servers, Postgres through
  sqlx and sea-orm, the Tokimo bus, environment and file access. It performs
  the actions the library returns and hands back what happened. The HTTP
  route table (axum's router), the accept loops and the translation of the
  library's values to and from JSON stay there.
- `tests/` exercises the library on concrete values.
