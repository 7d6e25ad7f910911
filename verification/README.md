# picrust

A library for agents that talk to a language model: sessions and their history,
permissions, hooks, tools, the daemon that runs agents, and the clients that show
what they say. What the functions do is stated in their contracts and proved with
Verus.

## Layout

- `src/` is the library. Each module states its data as a mathematical model, the
  functions on it with contracts, and at its end the laws that hold of them.
  - texts and values: `text`, `json`, `style`, `maps`, `paths`, `errors`
  - agents: `messages`, `context`, `metadata`, `sessions`, `permissions`, `hooks`,
    `state`, `output`, `internals`, `subagents`, `runtime`, `agent_config`,
    `answers`
  - the model's service: `anthropic`
  - the daemon and the tools: `loop_server`, `shell_tools`
  - the clients: `loop_client`, `line_client`, `renderer`, `list_numbers`,
    `markdown`, `markdown_reader`, `markdown_room`, `terminal`, `daemon_events`,
    `daemon_reader`, `terminal_loop`, `chat`, `chat_text`, `chat_events`,
    `chat_commands`, `chat_keys`, `chat_view`, `chat_render`
- `tests/` runs the library on concrete values.
- `app/` is the program around it: arguments, files, sockets, the terminal, HTTP
  and the tasks that wait for them. It picks what to be by the name it is called
  under.

## What is taken on trust

The library calls `regex`, `serde_json`, `termimad`, `ratatui`, `base64`, `chrono`,
`uuid` and a few functions of the standard library. Each call stands in a small
function of its own with a comment that says what its contract takes from the
crate. All else in `src/` is proved.
