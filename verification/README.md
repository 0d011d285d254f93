# zsh_sidecar

A sidecar that runs zsh commands for a host. It speaks JSON-RPC on standard input and output, one
message a line, and asks the host before a command starts and before each subcommand runs.

The library under `src/` holds the protocol and is verified with Verus; the program under `app/`
reads, writes, starts processes and waits.

| Module | What it holds |
| --- | --- |
| `session` | the session with the host: states, events, messages, actions |
| `wrapper` | the exec wrapper that holds up a subcommand and asks about it |
| `wrapper_json` | how the wrapper's question and its answer are read |
| `approval` | decisions, and how an answer to a question is read |
| `message` | what the sidecar says, and its JSON lines |
| `params`, `decode` | what the host says: identifiers and parameters |
| `environment` | the environment of a command |
| `json`, `text`, `chunk`, `token` | values, text, base64 chunks, random names |
| `error` | reasons to give up |
| `history` | what holds of every session from its start on |

Reading and writing JSON, base64 and random UUIDs come from `serde_json`, `base64` and `uuid`. The
functions that call them are marked as trusted and say what is taken for granted.
