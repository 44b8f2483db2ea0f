# DS Authority Governance UI — verified core

The governance console of a dataspace authority (an EDC Issuer Service):
credential definitions, trusted holders, issued credentials and the
identity bootstrap flow.

- `src/` is the verified library: the route table, the startup sequence,
  the shared store, and each route view's decisions (form validation with
  its round trip, status classification, page and modal state, error
  texts), together with the text primitives they rest on (Unicode
  trimming, integer parsing and formatting, comma-separated lists, ASCII
  case-insensitive search). One trusted wrapper calls
  `reqwest::StatusCode` for the HTTP status line.
- `app/` is the browser app around it: fetches, navigation, the yewdux
  store and the Yew/PatternFly rendering.
- `tests/` exercises the library on concrete values.
