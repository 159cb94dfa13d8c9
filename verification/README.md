# manuscript

The document model of Manuscript, a writing tool for book authors, with its
behaviour proved by Verus.

- `src/models`: chunks (chapters, character sheets, the manifest), notes,
  settings, and the document that keeps its chunks by identifier, with its
  stored form.
- `src/services`: the text analyzer that turns markdown-like markup into
  formatting rules, the serializer of tagged text, the document manager that
  applies actions and queues signals, and the list of translators.
- `src/libs`, `src/widgets`: the computations behind margins, progress and
  focus that the user interface shows.
- `tests/`: tests on concrete values, run against the compiled library.
- `app/`: the program's edge: translation through gettext, colors as floats, the serde form of a stored
  document and its bincode encoding, document files, and the loop that feeds
  actions to the document manager.
