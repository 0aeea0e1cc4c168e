# website

The Pelorus Marine website, with its logic verified by Verus.

- `src/` — the verified library:
  - `fetch`: validation of a fetched `ARCHITECTURE.md` (size, status, UTF-8).
  - `links`: rewriting repository-relative Markdown links to GitHub blob URLs,
    and rendering a document with pulldown-cmark.
  - `cache`: the cache policy (freshness, what a page request does with what
    the cache holds, one background revalidation per page at a time).
  - `pages`: the HTML pages, with HTML escaping.
  - `site`: request routing, the architecture pages' responses, and the
    configuration values (document URLs, git ref, listen port).
  - `text`: string utilities.
- `app/` — the server around it: environment, SQLite cache, HTTPS fetches,
  warp filters and `main`.
- `tests/` — tests of the library.
