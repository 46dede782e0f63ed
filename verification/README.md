# dodev

The `dodev` tunnel client: local.dev tunnels, account login and self-update, with its decisions
verified in [Verus](https://github.com/verus-lang/verus).

```bash
dodev login                 # browser-based OAuth
dodev local http 3000       # expose localhost:3000 at https://<your-subdomain>.local.dev
dodev update                # self-update to latest
```

## Layout

| Directory | What it holds |
|-----------|---------------|
| `src/`    | The library: every decision, format and message, with contracts and proofs. |
| `app/`    | The program around it: command line, files, sockets, terminal. |
| `tests/`  | Tests of the library. |

The library never reads or writes anything itself. Its functions take what was read (the bytes of a
callback, the content of a lock file, an event of the relay) and return what to do. The program
performs that and comes back with what happened.

## What is proved

- Frames: decoding an encoded message gives the message back, and the payload limit is exact.
- JSON: what is written determines what was meant, and envelopes are UTF-8.
- Tunnels: heartbeats are answered, refusals are final, waits grow up to half a minute, and a tunnel
  is given up after twenty tries in a row.
- WebSockets: messages reach an open one, and a closed one gets nothing until one of the same id is
  opened.
- Proxying: hop-by-hop headers and credentials stay behind, GET and HEAD carry no body, and every
  request gets a response.
- Accounts: a saved session is loaded again, and a logout forgets it. Unless the user names a relay,
  a tunnel gets a subdomain that its user may use and that no lock of a live tunnel on this machine
  holds.

## What is taken for granted

`src/outside/` holds the calls into other crates, and the end of `src/text.rs` two of the standard
library. Each states in its contract what the proofs rely on.
