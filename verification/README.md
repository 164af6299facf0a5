# ivan_scraper

A small web application for collecting business contacts: a daily Apify run searches
Google Maps for the configured terms, new places land in PostgreSQL and are announced
by e-mail, and the web interface lists them with filters, tracks which were contacted
or contracted, keeps notes, phones and e-mails, and exports a selection as JSON, XML
or `.xlsx`.

## Layout

- `src/` — the library, verified with Verus. Every public function states its result
  in `ensures`; the laws that span functions are public proof functions.
  - `text`, `kodovani`, `dotaz` — text helpers, percent-encoding, and how a query
    string is read back;
  - `filtry`, `parametry` — the listing state in the URL, links, paging, filter pills;
  - `config`, `nastaveni` — configuration from variables, the scraper settings form;
  - `vyber`, `export`, `xlsx` — the selection of places and its export;
  - `prihlaseni`, `kontakt`, `apify` — login cookie, the detail forms, the Apify side.
- `app/` — the axum server around the library: routes, database, templates, SMTP,
  HTTP and the cron job.
- `tests/` — tests of the library on concrete values.
