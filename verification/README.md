# wassette_gkeep

A Google Keep tool component for Wassette, with its logic verified in Verus.

- `src/` is the verified library: the Keep data model (`types`), percent-encoding,
  decimal rendering and lossy UTF-8 decoding (`text`), note-ID validation
  (`note_id`), authenticated request values (`request`) and the tools' API
  operations (`api`): the request each tool sends, the notes it writes, and what
  it answers once the API has responded.
- `app/` is the component around it: environment, Spin's outgoing HTTP, the JSON
  form of the data model (serde), and the exported WIT interface.
- `tests/` runs the library on concrete values.
