# axum_serde_boundary

A typed Serde HTTP boundary for axum, with its decisions verified by
Verus.

`src/` is the verified library:

- `media` — `MediaType::try_new`: 1–255 bytes, exactly one `/`
  separating two non-empty segments of HTTP token characters; the
  contract gives the exact rejection reason for every input.
- `table` — `ResponseRepresentation`, `ResponseTable::try_new` (non-empty,
  each media type declared once; the first repeat is named) and
  `ResponseTable::negotiate`, which settles the negotiation layer's
  verdict on an `Accept` header into a `Negotiated` entry or a 406.
- `envelope` — `ResponseEnvelope` (at most 16 warnings) and the
  `ErrorBody` error contract with its `CODE_*` constants.
- `error`, `contract` — `BoundaryError`, its status, wire code and
  message, and the `HttpErrorContract` trait.
- `respond` — `ResponsePlan`: how a success or failure goes on the wire
  (`204` bodyless, failures always as an envelope in the entry's error
  format, `retry-after` in decimal seconds).
- `body` — which format a request body decodes from, by `Content-Type`.

`app/` is the axum side: the `FromRequest` extractor, `Accept` parsing
through `http-content-negotiation`, Serde encoding and response writing,
and the Serde/`Error` shapes of the library's types.
