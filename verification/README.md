# oxidescanner

The decisions of a port scanner, written in Rust and verified with Verus.

`src/` is the library. It does no input or output of its own: it is told what
came of a look-up, a connection or a program that was run, and says what that
means and what is to be done next.

- `arguments`, `config`, `setup`, `prompts`, `usage`: from the command line, the
  environment and the answers of the user to a configuration.
- `validation`: what counts as a target, a port count and a port list.
- `scanner`, `sorting`: what single probes tell of a port, and the results of a
  scan.
- `external`, `xml`: the arguments for nmap, and what its reports say.
- `detection`: services, the operating system and script results.
- `run`, `report`: the course of a run, and what is shown on the way.
- `rate_limit`, `duration`, `decimal`, `text`, `error`, `utils`, `constants`:
  what the others are made of.

What an outside crate or the standard library contributes without proof is
stated where it is called: XML parsing (`xml`), quotas (`rate_limit`), and the
lower case and the decoding of texts (`text`).

`app/` is the program `oxscan`: the network, the programs it runs, the terminal
and JSON. `tests/` runs the library on concrete values.
