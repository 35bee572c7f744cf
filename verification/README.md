# analytics_api

The logic of an analytics API: metrics, their thresholds, the columns of the
analytics tables, and queries of metrics, each within one tenant. It is a Verus
library; the HTTP service around it is in `app/`.

A request is a sequence of calls to the database. The function of
`handlers` that is named after an endpoint says which call comes first, and
`handlers::resume` says, for each reply, which call comes next or what the request
is answered. The service performs the calls.

- `src/handlers.rs`: the endpoints, and how a request goes on from reply to reply
- `src/sql.rs`: the statement of a query, and the date bounds of its filter
- `src/levels.rs`: the levels that the fields of a row reach by the thresholds
- `src/mappers.rs`: from rows of the database to what the API shows
- `src/domain/`, `src/entities/`, `src/protocol.rs`, `src/response.rs`,
  `src/pending.rs`: what goes in and out
- `src/json.rs`, `src/ids.rs`: JSON objects and ids, which come from `serde_json` and
  `uuid`; the functions there that call these crates have contracts that are believed
  without proof
- `src/store.rs`: a model of what the database holds and of what calls do to it
- `src/laws/`: what holds of the API as a whole, stated over that model

Numbers are carried as bit patterns, and how a number compares with a threshold is a
question that the library puts to the service.
