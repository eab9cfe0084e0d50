# fast_marketplace

A desktop service that publishes home and vehicle listings on Facebook
Marketplace by driving a Chromium browser, behind a small local HTTP API.

The crate is split in two:

- `src/` is the library, written in Verus and verified. It holds the listing
  domain (properties, vehicles, their choices and labels), the use cases as
  flows from state and result to the next call, the status tracker with its
  generation counter, and the decisions of the automation: which client ids
  are accepted, the fields of each marketplace form, the option locators,
  the page scripts, how pages are read, the order of the publication steps,
  the launch attempts, where a Chrome executable is looked for and in which
  order, the path a PATH lookup printed, the retries of the photo upload,
  the photo limits and shrinking steps, which photo directories are cleaned
  up, the log line and clock, and the reports the HTTP handlers act on.
- `app/` is the ordinary Rust around it: the HTTP server and handlers, the
  browser driver, the looks on disk, in the environment and on the PATH
  for a Chrome executable and the Chromium download, the photo downloads,
  logging to the terminal and to a file, and the desktop shell.

`tests/` exercises the library from outside, including complete publication
runs against in-memory services.
