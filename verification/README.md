# synmem

The decision logic of SynMem, a browser-automation memory service, written in
Verus: each function states what it returns in its contract, and Verus proves
it.

- `src/` is the verified library:
  - `twitter/`: input validation, URL building, tweet-id extraction, the
    token-bucket rate limiter and the admission of every tool's request;
  - `navigation.rs`: the browser tools' option parsing and answers, and the
    base64 encoding of screenshots;
  - `marketplace/`: packages, reviews, installs and payouts, the rules of the
    marketplace, review and payout services, and package submissions;
  - `storage.rs`: the full-text search statement and its parameters, and
    how stored rows are read back and written, with their fallbacks;
  - `memory_tools.rs`: the memory tools' inputs and the answers they build;
  - `ports.rs`, `search_tool.rs`, `macro_tools.rs`, `tags.rs`: the data of
    the ports and tools, and their small decisions;
  - `text.rs`, `clock.rs`: text helpers, identifiers and the clock.
- `app/` is the asynchronous side around it: the tools as async functions, the
  services over a repository and a payment gateway, and JSON.

Times read from storage are kept as RFC 3339 text in UTC.
- `tests/` runs the library on concrete values.

Amounts of money are kept in cents and times in milliseconds.
