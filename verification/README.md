# portals_api

The verified core of a GraphQL API server for portals, projects, dashboards,
pages and blocks.

- `src/` is the library, verified with Verus: the data model behind the schema
  (with its enumerations and their stored names), the reading of stored rows
  into that model, the table and chart visitors over the intermediate
  representation of blocks, the batch loaders' grouping of query results, the
  bearer-token parsing, the configuration source rule, and the decisions the
  resolvers make between their database and storage calls (portal invitations,
  default portal views, file keys, presigned-URL requests, OAuth redirect URIs,
  invitation e-mails).
- `tests/` exercises the library on concrete values.
- `app/` is the unverified edge: reading the configuration from the
  environment and disk, decoding bearer tokens, decoding the JSON columns of
  stored rows, and converting identifiers and timestamps to and from the
  `uuid` and `chrono` types.

Identifiers are held as `u128` (the big-endian value of the UUID), timestamps
as `Timestamp` (seconds since the Unix epoch and nanoseconds), and 64-bit floats as their bit
patterns.
