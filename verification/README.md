# application_server

The decision logic of a CRM application server, verified with Verus: the
billing webhook (authorization, normalization, idempotency), the showcase
pipeline (step inputs, step results, reports, approvals), the realtime hub
(numbering, replay window, resume cursors), the truth-run rules for credit
refills, service suspension, ledger reconciliation, subscription activation,
renewal briefs, campaign planning and meeting slates, and the request
parsing of the HTTP routes.

Layout:

- `src/` — the verified library. Each public function states what it returns
  in its `ensures`; the laws that span functions are public proof functions
  named `law_*`.
- `tests/` — executable tests of the library.
- `app/` — the axum server around the library: routing, locks, background
  runs, Parquet seed reading, JSON and server-sent events.
