# dank-pinentry

A pinentry for gpg-agent that asks for a passphrase either on the terminal
named by `OPTION ttyname` or through a DankMaterialShell plugin listening on a
Unix socket.

## Layout

- `src/` is the library, written in Verus and verified: the Assuan codec and
  error codes, the pinentry state and the command loop (`assuan/`), the
  decisions of each frontend (`backend/`), configuration and command-line
  precedence, owner attribution, and the wiped passphrase buffer. Contracts
  are stated over mathematical models (`Seq`, `Option`, spec functions), and
  the laws that tie several operations together are public proof functions
  named `law_*`.
- `app/` is the program around it: argument parsing with clap, reading the
  configuration with the `config` crate, the raw terminal, the plugin socket
  and its JSON, and `/proc`. Started as `dank-askpass` it serves as a
  `SUDO_ASKPASS` / `SSH_ASKPASS` helper.
- `tests/` drives the library from outside, including whole gpg-agent
  sessions replayed through the command loop.
