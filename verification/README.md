# parquet_ui

A viewer for Parquet files with a small data-wrangling pipeline, written as a
Verus-verified library (`src/`) and a thin iced front end (`app/`).

## Library (`src/`)

- `state` — the viewer as a state machine: `App::update` applies a message,
  changes the state as `update_spec` says, and returns the work to do next
  (`Action`). Laws about it (the state stays well formed, queries only run with
  a session, toggles undo themselves, stale results are dropped, …) are proof
  functions next to it.
- `wrangle::pipeline` — pipeline steps, the SQL each step wraps around the
  previous query, their descriptions, and the readable CTE form.
- `editor` — the step form and the step it describes once filled in.
- `wrangle::{session, insights, summary, export}` — the SQL sent around a
  pipeline's query, statistics queries and histogram buckets, and the export
  format of a destination.
- `types`, `schema` — type labels, the schema's nested children, sort orders.
- `format`, `views`, `text` — cell previews, JSON of nested cells, byte sizes,
  counts, the pager and other text the views show; string and number helpers.

## Front end (`app/`)

Reads files and runs queries with DataFusion, converts Arrow values into the
library's types, performs the actions that `update` returns, and draws the
window with iced.
