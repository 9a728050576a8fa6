# hesocial_frontend

The browser front end of the HeSocial event platform, with its logic written
in Verus and proved against its contracts.

- `src/` is the verified library: route guards, status classification and
  labels, URL and query building with form encoding, the login answer and
  the OAuth landing address, the event-management and media pages as step
  functions from state and event to next state and request (`mgmt_flow`,
  `media_flow`), the approval and publishing rules, form validation and the
  event payload, upload validation and multipart framing, the analytics
  dashboard's loading, and the decoding of every API answer into the
  library's own records. Each figure is kept as text: `serde_json`'s printed
  form of the parsed number (so `1e3` reads `1000.0`), or the string the
  server sent. JSON is parsed and written by `serde_json` behind two trusted
  wrappers (`json::parse_json`, `json::write_json`), which convert through
  two contract-free helpers (`json_from_value`, `json_to_value`); everything
  around those calls is verified.
- `src/` also states the laws the library keeps as public proof functions
  (`lemma_*`), for example that percent decoding undoes form encoding, that
  date-times brought to ISO form stay there, and that unticking a tier just
  ticked gives the tiers back.
- `tests/` runs the library on concrete answers and inputs.
- `app/` is the part that stays outside verification: browser storage and
  requests, the browser's date formatting, the loop that makes each request
  a page step asks for and feeds the answer back (`app/pages.rs`), and the
  reading of figures into floating point (prices, rates, the analytics
  charts). It renders no pages: the views are not part of this crate.
