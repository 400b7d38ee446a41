# gitcoach

A verified library for GitCoach, an AI mentor that guides newcomers to their
first open-source contribution. The library holds the logic of the mentor
service and of its browser client, each function with a contract proved by
Verus; `app/` is the thin program around it (HTTP server, Gemini and GitHub
calls, Leptos user interface, JSON forms of the types).

- `src/text.rs`: search, trim, split, join, replace and line splitting on
  character sequences, specified over `Seq<char>`.
- `src/model.rs`: the chat request and response types, persona and domain
  names and their parsing.
- `src/errors.rs`: user-facing notices for failed model calls, and how the
  client recognises error notices.
- `src/context.rs`: the system instruction, the GitHub issue search and its
  summary, and the lookup of a repository's contribution guide.
- `src/fallback.rs`: salvaging content, suggestions and a repository request
  from an answer that is not valid JSON.
- `src/links.rs`: bare bracketed URLs to markdown links, markdown to HTML with
  links opening in a new tab.
- `src/agent.rs`: the retrieval loop of one chat turn as a state machine, with
  its laws (progress, append-only history, bounded rounds).
- `src/service.rs`: opening and abandoning a chat turn.
- `src/client.rs`: the client's state changes and the skill tree's laws.
