# channels

The state that a bot keeps for the chat channels it serves (Discord and Slack), and the
rules by which it asks its owner to approve a tool call.

- `src/` is the library. Its contracts are proved with Verus.
  - `approval`: what both channels share: the text of a request, its buttons, and what a
    reply amounts to.
  - `pending`: the requests that wait for an answer.
  - `discord`, `slack`: the state of a channel, the request that it posts (`prompt`), and
    what holds of the state whatever happens to it (`laws`).
- `tests/` runs the library on concrete values.
- `app/` shares the state between tasks and does the talking, through serenity and
  slack_morphism.

A request for approval goes through four calls: `begin_approval` decides it or says where
to ask, `DiscordPrompt::new` or `SlackPrompt::new` writes it, `after_prompt` opens the
channel for the answer once it is posted, and `conclude_approval` turns the reply into a
decision. Between the last two, a click reaches the waiting task through
`resolve_pending_approval`.
