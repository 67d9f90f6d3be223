# rikkahub_shell

The Rikkahub PC shell starts the Rikkahub server as a sidecar process, waits until it answers on its
loopback port, and shows its page in a window. This project holds the shell in two parts.

- `src/` is the verified library: what the shell decides and computes. Where deciding alternates
  with work on the system, a function takes an event (what has happened) and returns a step (what is
  to be done next). Every function carries a contract that Verus proves; the `law_` functions state
  what holds across calls.
- `app/` performs the steps: files, processes, sockets, the window and the Windows job object.

| module      | what it decides                                                        |
|-------------|------------------------------------------------------------------------|
| `config`    | the user's configuration: its file, its text, and how it is changed    |
| `data_dir`  | where the data lives: environment, configuration, or next to the exe   |
| `readiness` | when the sidecar counts as ready, dead or late                         |
| `sidecar`   | how the sidecar is started, watched and stopped                        |
| `job`       | how the sidecar's life is tied to the shell's                          |
| `installer` | which downloaded installers are launched                               |
| `startup`   | how the shell starts, fails to start, or is started twice              |
| `error`     | what the user is told                                                  |
| `json`      | the text of a JSON object with one member                              |
| `text`      | white space, ASCII case, decimal numbers, UTF-8                        |
| `path`      | an entry of a directory                                                |

What is believed rather than proved: `String::from_utf8` and `Path::extension` of std, and
`serde_json::to_string_pretty` on an object with one member. Their contracts stand in `text`,
`installer` and `json`.
