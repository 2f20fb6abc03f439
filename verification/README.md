# yggtorrent

A client library for the YggTorrent tracker, written in Verus.

- `src/` is the verified library: search options (`yggtorrent_params`), the
  text processing it rests on (`text`), the reading of the tracker's pages
  (`data_struct`, with the CSS selectors in `selector`), and the state and
  decisions of a session (`yggtorrent_client`).  HTML parsing (`scraper`),
  date parsing and printing (`chrono`), the clock (`std::time`), `Debug`
  quoting (`std`) and percent-encoding
  (`percent-encoding`) are called through the trusted items of `html`,
  `clock` and `percent`.
- `app/` performs the network requests (`reqwest`, `tokio`), writes
  downloaded files, parses the ratio as a floating-point number, and gives
  the library's data `Display` (through the library's `display_text`) and
  `serde` forms.
- `tests/` runs the library on concrete pages and values.
