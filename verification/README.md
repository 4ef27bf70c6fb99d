# Nanocodex

Verified core of a coding agent: the queue of turns, the conversation with the
model, tool calls, prices, and records.

- `src/` decides. Functions state what they return and what they change, and
  Verus proves it. What the core takes from outside libraries is marked as
  trusted where it is declared, and is believed without proof.
  - `driver`, `queue`, `control`, `handle`, `branch`: which turn runs, who is
    answered what, and what further agents start from.
  - `run`, `tool_calls`, `conversation`: one turn of the model. `run::drive`
    names what a turn needs next, and takes each reply.
  - `session`, `response`, `service`, `openai`, `responses`: managed sessions
    with the provider, and the settings of a client.
  - `tools`, `code_mode`, `emitted_output`, `host`: the tools of an agent and
    the code that calls them.
  - `rollout`: what is kept of conversations, and where.
  - `pricing`, `usage`: exact prices and token counts.
  - `transport`, `error`: failures, and what may be tried again.
- `app/` performs: the task that owns an agent, the loop that runs a turn,
  record files, JSON, a JavaScript host. Connections to the provider, the
  environment of a conversation, and the tools' own work are traits that a
  program implements.
- `tests/` runs the core on given values.

Proof functions whose names start with `law_` state what holds across several
functions.
