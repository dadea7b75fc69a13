# recommended_config

Recommended configurations for automatic setup: per launcher, which
capabilities may be enabled automatically and which catalog models fill each
capability's model slots.

- `src/schema.rs`: the schema types, their abstract views and clones.
- `src/string_match.rs`: exact / regular-expression string matching; the
  `regex` crate is called behind two trusted wrappers.
- `src/resolution.rs`: lookup of a launcher's effective entry (user entry over
  built-in, built-in in list order) and its effective capability list (own
  entry, else the `"*"` wildcard entry, never blended).
- `src/builtin.rs`: assembling the built-in list from per-source parse results.
- `src/laws.rs`: proved properties of the resolution rules and of matching.
- `app/lib.rs`: serde/JSON-schema copies of the schema types and YAML loading.
