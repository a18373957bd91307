# instagram_reels_scraper

Collects reels from a list of Instagram accounts, ranks them by views per
follower, lays them out as a spreadsheet with the sheets `today`,
`yesterday` and `last month`, and sends the file to Slack (failures of
scraping workers are reported to Telegram).

## Layout

- `src/` — the verified library:
  - `config.rs`: the settings and their defaults;
  - `text.rs`: decimal numbers (written and read as `std` does), searches in
    text;
  - `json.rs`: JSON documents as trees of plain values, read and written by
    serde_json;
  - `time.rs`: local instants, video durations, their text forms;
  - `insta/reel.rs`: reels, how a media response body and its item become
    one, the rank order;
  - `insta/scraper.rs`: the decisions of a scraping worker;
  - `insta/mod.rs`: the login as a state machine, and the supervisor's
    notices;
  - `report.rs`: the set of reels, the ranking, the sheets and the report;
  - `form.rs`: encoding text fields as a `multipart/form-data` body;
  - `slack.rs`: the three-call file upload as a state machine;
  - `telegram.rs`: the Bot API request;
  - `browserwithtmpdir.rs`: how a browser is launched.
- `app/` — the program around it: environment, browser automation, threads,
  HTTP, and writing the spreadsheet file.
- `tests/` — tests of the library on concrete values.
