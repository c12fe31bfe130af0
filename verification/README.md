# ai_search_mcp

A web-search client for any chat-completion service in the OpenAI format,
with its logic verified by Verus.

- `src/` — the verified library:
  - `text` — character-level text functions (trim, prefix/suffix stripping,
    replacement, decimal printing and parsing) specified over `Seq<char>`;
  - `config` — the configuration: building it from the `AI_*` variables,
    validating it, and its `Debug` text with the secrets hidden;
  - `error` — the error type and the text of each error;
  - `thinking` — removal of reasoning blocks from an answer;
  - `chat` — the request and response messages, the endpoint, HTTP status
    judgement;
  - `client` — the client, query routing, splitting a query into tagged
    sub-questions and reporting their answers;
  - `call` — the retry decisions of one API call;
  - `stream` — decoding a streamed answer chunk by chunk;
  - `laws` — properties that relate several of the above.
- `app/` — the command-line program: environment, HTTP, waits and concurrent
  sub-searches, each step decided by the library.
- `tests/` — tests of the library on concrete values.
