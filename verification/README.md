# lsplex

A language-server multiplexer: one editor talks to several language
servers through it, as if they were one.

- `src/` is the verified library (Verus). It frames and classifies
  protocol messages (`header`, `msg`), reads and writes JSON text through
  serde_json (`codec`), merges JSON results (`json`), keeps
  track of which server owes which reply and which servers announced which
  capability (`tracker`, `capability`), decides where each message goes
  (`manager`, `client`, `lsp`), collects the diagnostics of several servers
  before they are published (`diagnostic`), and reads the command line
  (`cli`).
- `app/` is the program around it: the command line, the server processes,
  the channels and tasks.
- `tests/` runs the library on concrete inputs.
