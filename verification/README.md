# jester

A file watcher that uploads new and changed files to DeepLynx data sources,
with its decision logic verified in Verus.

- `src/` — the verified library: configuration checks (`config`), the
  registry of data-source tasks (`registry`), the per-file decisions of the
  watcher (`watch`, `checksum`, `timestamps`), the DeepLynx client's token
  handling and request building (`deep_lynx`, `decimal`), the plugin
  version check (`plugin`) and the messages to data-source tasks
  (`messages`).
- `app/` — the program around it: command line, YAML configuration, SQLite
  database, glob scanning, HTTP exchanges and plugin loading.
- `tests/` — tests of the library on concrete values.
