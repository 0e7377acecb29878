# pingcrm

The logic of a small CRM web application, written in Verus and proved
against its specifications.

## Layout

- `src/` — the verified library:
  - `text`, `parse`, `string_map`: character-level helpers, `str::parse`
    for integers and booleans, and a string-keyed map.
  - `search_filter`: the search/role/trashed filter of index pages.
  - `query`: how JSON:API listing requests become database queries
    (filters, orderings, pages, searches, batch loads).
  - `jsonapi`: operation checks, relationship lookups, the resource
    registry, and the collection of included resources.
  - `middleware`: authentication routing, maintenance mode, profiler and
    security headers, client addresses.
  - `cookie`, `rate_limit`, `media`, `validation`, `requests`, `events`,
    `listeners`, `audit`: cookies, the per-client request budget, media
    paths and thumbnails, request validation, domain events and what their
    listeners record.
  - `fixtures`: the seed data — which fixtures run, in which order, what
    each one creates, and the run itself as a state machine (purge first
    when asked, then each fixture, stopping at the first failed step).
- `tests/` — tests of the library on concrete values.
- `app/` — the HTTP side: axum middleware, cookies on responses, client
  addresses, and serde shapes of the library's types.
