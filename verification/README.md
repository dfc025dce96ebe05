# open_ai_compatible

The decisions of a language model provider for OpenAI-compatible services, verified with Verus:
which models a provider offers, how they are discovered, what a completion asks a service for, and
what the page shows on which a user configures the provider.

- `src/` is the library. It does no I/O. A fetch of models is a value that says what it waits for
  (`FetchModels::action`) and takes what happened (`FetchModels::handle`). A completion is planned
  as a `CompletionCall`. Every function states its result in its contract; the proof functions
  whose names start with `law_` state what holds of several functions together.
- `tests/` runs the library on concrete values.
- `app/` is the provider inside the editor: it sends the requests, decodes the JSON documents of
  the services, and draws the page. `app/wire.rs` needs `serde` and `serde_json`; the other files
  need the crates of the editor too.

One call of the library is believed and not proved: `char::is_whitespace`, in `src/text.rs`.
