# microsoft_365

A tool that works with a Microsoft 365 account through Microsoft Graph:
mail, Teams channels, the OneDrive drive, Excel ranges, the calendar, and
generated Word and PowerPoint documents. The logic is written in Verus and
its contracts are proved.

## Layout

- `src/` — the verified library.
  - `graph.rs`: the Graph base URL, the token gate, URL encoding, error
    payloads, and what a response status and body come to.
  - `api.rs`: for each action, the request it sends (method, endpoint,
    JSON payload, with its argument checks) and how its response is read;
    ISO-8601 splitting for events; uploads.
  - `documents.rs`: XML escaping, file extensions, the parts of a
    PowerPoint package and its ZIP archive, and the layout of a Word
    document.
  - `json.rs`: JSON values as plain data, with their mathematical view.
  - `json_codec.rs`: reading and writing JSON text through `serde_json`.
  - `text.rs`: blank strings, decimal rendering, string comparison.
  - `types.rs`: the actions and the document sections and slides.
  - `base64_codec.rs`, `zip_archive.rs`, `docx_render.rs`, `pptx_parts.rs`:
    the calls into `base64`, `zip` and `docx-rs`, with what is claimed of
    them, and the fixed XML of a deck.
- `tests/` — tests of the library.
- `app/` — the host around the library: secrets, logging and HTTP through a
  `Host` trait, JSON (de)serialisation of actions and results, dispatch.
