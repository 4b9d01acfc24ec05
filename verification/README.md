# besim_gui

A web front end for BeSMART thermostats (through a BeSIM server's REST API),
with its logic verified by Verus.

- `src/` — the verified library: API addresses (`api`), the weekly heating
  program and its nibble encoding (`schedule`), rooms and the commands that
  change them (`room`), JSON values as the pages read them (`json`, `weather`,
  `device`), what each page shows (`pages`, `clock`, `chart`) and the page of
  each route (`route`).
- `app/` — the Yew shell: HTTP requests, JSON decoding, timers, the browser
  clock and time zone, canvas drawing, and the HTML of each page.
- `tests/` — tests of the library on concrete values.

Set the API address in `window.__API_URL` in the hosting page, or in the
`API_URL` environment variable at build time.
