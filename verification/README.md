# joblode

Job search over the open-jobs dataset, exposed as MCP tools and a small REST
API, with optional resume-aware ranking.

The library (`src/`) is verified with Verus. It holds the decisions of the
service; the program around it (`app/`) does the I/O.

## Library modules

- `store` — search criteria, the job record, and the parameterized DuckDB
  statements for search (hard filters ANDed across fields and ORed within one,
  case-insensitive substring terms, deduplication by company and title, id
  order, row cap, full match count) and for lookup by id.
- `placeholders` — proof that every statement binds exactly one parameter per
  `?` placeholder.
- `dto` — wire shapes shared by the MCP tools and the REST API: the row cap,
  the projection onto criteria, compact rows and result pages.
- `order` — stable best-first ordering by integer keys, with proofs that the
  order is unique and that equal keys keep the incoming order.
- `rank` — ranking methods, the preconditions of the model-backed ones, and
  the head of the taste order handed to a model.
- `pairwise` — the all-pairs comparison schedule and the half-game win tally
  that feeds Bradley–Terry.
- `taste` — when a set of embeddings has a usable mean.
- `gemini`, `embed` — prompts, JSON extraction from model output, pairwise
  verdicts, and client configuration.
- `config` — the server command and whether ranking and embeddings are
  configured.
- `text` — string helpers (joining, ASCII case, trailing characters, decimal
  rendering) and the two std string functions the library calls.

Floating-point values (compensation floors, salaries) are carried inside the
library as `f64` bit patterns; scores are ordered through order-preserving
integer keys computed in `app/`.

## Program

`app/` holds the server: DuckDB execution, the HTTP clients for the cheap
model and the embeddings, the taste model and Bradley–Terry arithmetic, the
MCP server (`rmcp`), the REST router (`axum`), and `main`.
