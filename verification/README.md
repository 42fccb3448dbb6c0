# hermes_tui_rust

A terminal client for the Hermes agent gateway, whose logic is verified with
Verus.

- `src/` is the library. Every function in it has a contract that Verus
  proves. It covers the conversation state (messages, sessions, tool cards,
  subagents, streaming replies), the prompt state machines (approval,
  clarification, secrets), key and mouse decisions, the composer, the chat
  transcript's layout and actions, themes and colours, the hashline edit
  parser, gateway request bookkeeping, and the decisions the application
  makes around the gateway. Laws that span several calls are public proof
  functions next to the code they describe. The few thin wrappers over std
  (clock readings and durations, `str::to_lowercase`, `String::push` and
  `String::pop`) are trusted: their contracts are taken as given, and each
  says in its doc comment what it claims of the std function it calls.
- `app/` is the program around it: the terminal, the gateway process and its
  JSON lines, drawing with ratatui, and the floating-point animations.
- `tests/` runs the library on concrete values.
