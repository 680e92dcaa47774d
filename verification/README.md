# gateway

The decisions of a gateway that hosts projects for its users, verified with
[Verus](https://github.com/verus-lang/verus).

The gateway keeps a table of accounts and a table of projects in SQLite, hands
projects to a worker that moves them from state to state, and passes requests on
to the projects that run. The library decides; it performs no I/O. Each operation
of `GatewayService` is a value that says which statement to run or which work to
send, takes the reply, and gives the next step or the result.

- `src/lookup.rs`, `src/users.rs`, `src/projects.rs`, `src/route.rs`,
  `src/refresh.rs`: the operations, step by step. Each step says exactly what it makes
  of a reply; what an operation that takes several comes to as a whole is stated
  by its `.._outcome`.
- `src/service.rs`: start-up, and the sender by which work reaches the worker.
- `src/statement.rs`, `src/tables.rs`: the statements, and what they and the
  start do to the tables.
- `src/laws.rs`: what holds of several operations taken together.
- `src/http.rs`, `src/random.rs`: the calls into `axum` and `rand`, and what is
  believed of them.
- `app/`: the service with its database, channel and proxy.
- `tests/`: the operations against a real database and a real channel.
