# rustyllama

The verified core of a desktop chat client for a local Ollama server.

- `src/` is the library, verified with Verus:
  - `time`: UTC instants and their RFC 3339 text (through chrono);
  - `ids`: 128-bit UUID identifiers and their hyphenated text (through uuid);
  - `models`: conversations and messages;
  - `db`: the rows a conversation is stored as, and reading them back;
  - `provider`: chat requests and replies, model listings, the Ollama server's
    addresses, its health status and decimal size labels;
  - `ndjson`: framing of a streamed reply body into its lines, one JSON reply
    per line, however the body is cut into chunks;
  - `stream`: the shared state of a streamed reply and how each stream event
    changes it;
  - `session`: the chat session behind the window and what each user action
    and each poll of the stream does to it, with the laws that relate them;
  - `text`, `config`: blank input, the colour theme and the default settings.
- `app/` is the program around it: the egui window, the SQLite store, the
  configuration file and the HTTP client.
- `tests/` exercises the library on concrete values.
