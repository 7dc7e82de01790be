# remux_dashboard

The logic of the Remux admin dashboard as a verified library: every
decision the dashboard pages make on user input and server data — labels,
form checks, filter-rule editing, chip inputs, catalog selection, task
grouping, routes, pagers, URLs, and the requests a page sends and the
state it moves to when a reply comes — is a function with a contract
proved by Verus. What the server SDK decides (such as whether a user name
is acceptable) and decimal-number values (tone-mapping strengths) stay
outside; the library takes the SDK's answer as an argument.

Layout:

- `src/` — the library, one module per area (`catalogs`, `chips`,
  `collections`, `filters`, `iptv`, `settings`, `task_list`, …). Laws that
  relate several functions are public proof functions named `law_*`.
- `tests/` — tests of the library on concrete values.
- `app/` — the browser side: local storage, the page's origin and language,
  the clipboard, log downloads and polling.
