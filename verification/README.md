# sdkwork-shop

The shop service of the SDKWork commerce platform: an administration API and
an app API over the shops of a tenant, their sub-resources (category
bindings, qualifications, channels, policies, profiles, risk signals, ...),
their review and operation transitions, and the process identity that mints
their ids.

The decisions of the service are a Verus library, proved against their
contracts:

- `src/routes.rs`: every endpoint of both HTTP surfaces with its method, path
  template and action, and the proofs that no two share a route.
- `src/subresource.rs`: which table a write addresses, the id of the row it
  writes and the values bound to its upsert statement.
- `src/admin.rs`: shop creation, edits, status transitions, status events
  and launch readiness.
- `src/store.rs`: the current-shop read model: scopes, paging windows, row
  rendering, fulfillments.
- `src/identity.rs`: how the process obtains its Snowflake node id.
- `src/json.rs`, `src/text.rs`: the JSON and text values the above work on.
- `src/laws.rs`: properties that span several of these functions.

`app/` holds what runs around the library: the axum routers built from the
endpoint tables, the PostgreSQL statements, the identity bootstrap and the
gateway's `main`.
