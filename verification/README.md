# cairn_tui

The terminal UI of a coding agent, as a verified library.

`src/` holds the state of the UI and everything that decides: key handling,
slash commands, completion, the permission prompt, session files, agent events,
and the layout of a frame. Each step is a function from state to state with a
contract over `TuiModel`, the mathematical value of the UI. Work that only the
program around it can do (files, the agent's channels, the clipboard) leaves the
UI as a `Request`, and its outcome comes back through a method.

`app/` is the terminal: the event loop, painting with ratatui, and the handling
of requests. What it needs from the rest of the program is the trait `Services`.

Two outside crates do part of the work in `src/`: tool inputs are parsed with
serde_json, and ratatui divides the screen into rows. Their calls stand behind
small functions whose contracts say what is relied on.

| Modules | What they hold |
| --- | --- |
| `state`, `tui`, `host`, `request` | the UI, what it knows, what it asks for |
| `keyboard`, `composer_keys`, `enter`, `permission`, `input`, `keys` | keys, mouse and pasting |
| `commands`, `pickers`, `preferences`, `listings`, `clipboard` | slash commands and their outcomes |
| `completion`, `sorting`, `edit` | completion, ranking, editing |
| `session`, `session_ops`, `events`, `transcript`, `llm`, `theme` | the conversation and the agent |
| `render`, `body`, `chrome`, `panels`, `prompt_panels`, `status`, `layout`, `lines`, `scroll` | frames |
| `text`, `tool_display`, `wire`, `chars` | text, previews, wire formats |
| `laws` | what holds of every key |
