# blrs

The logic of a blog back end, verified with Verus: request validation, paging,
tag and file-name sanitising, configuration loading, error codes, the login,
friend-link, search-reindex and mail workflows as state machines, and the
text and calendar helpers they rest on.

- `src/` — the verified library. Every executable function carries a contract;
  the public `lemma_*` proof functions state the laws that span several calls.
- `tests/` — tests of the library on concrete values.
- `app/` — the HTTP server around the library: routing, database, cache, mail
  transport and blob-store calls, and serde copies of the library types.
