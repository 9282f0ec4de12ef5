# nordnet

A command-line client for the Nordnet External API v2, whose logic is a
Verus-verified library.

- `src/` — the library, verified with Verus: the request that every API
  operation sends (method, path, form-encoded query, body encoding and
  what a blank reply means), the status-to-error rule, the
  `Authorization` header, the login requests and the challenge signature,
  configuration layering, the stored session and its expiry, the
  `--fields` output filter, and the parsing of command-line values.
  Public proof functions named `law_*` state properties that hold across
  calls, such as that an encoded query string reads back as the pairs
  written.
- `app/` — the `nordnet` binary: argument parsing, HTTP, files, JSON
  encoding, and printing.
- `tests/` — tests of the library on concrete values.
