# nixacp_gateway

An OpenAI-compatible gateway in front of an Ollama server, with an agent
tool loop, answer reflection, and an Agent Client Protocol endpoint.

## Layout

- `src/` — the library, verified with Verus. Conversation entities, prompt
  shaping per model, context compression, tool-call normalisation, the
  built-in tools' argument and path rules, the tool loop and reflection
  state machines, the Ollama wire mapping and NDJSON framing, token
  counting, the OpenAI and Responses API shapes, request logging, the
  configuration defaults and the ACP session store.
- `app/` — the server around it: configuration loading, HTTP routes,
  streaming, the Ollama HTTP client, file-system and process work of the
  tools, and the asynchronous loops that perform what the library decides.
- `tests/` — tests of the library.

Calls into outside crates made by the library (serde_json, uuid,
tiktoken-rs, chrono, memchr, bytes, dashmap, tokio's broadcast channel) stand
behind small trusted wrappers whose contracts state what those crates
document.

Token counting takes texts without a run of white space of
`MAX_SPACE_RUN` characters: the tokenizer's backtracking stack overflows on
such a run. `chat::prepare` answers `None` for a request whose shaped
messages hold one, and the server fails such a request.
