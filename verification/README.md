# privaxy_filters

Filter-list configuration for an ad-blocking proxy, verified with Verus.

- `src/` — the verified library: filter groups and their names, the built-in
  catalogue of filter lists, cache file names (SHA-256 + hex), the byte order
  of strings, the merge of fetched filter contents with custom filters
  (sorted, without duplicates), and the decision taken after reading a cached
  filter list.
- `app/` — HTTP fetching, file-system caching and the serde forms of the
  configuration types, built on the library.
- `tests/` — tests of the library.
