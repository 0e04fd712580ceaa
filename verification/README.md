# stunt

Stupid Tunnel Tricks: a terminal user interface for defining and managing
SSH tunnels, Kubernetes port-forwards and sshuttle sessions.

The project's logic is written in Verus and proved against its contracts:

- `src/model.rs`, `src/session.rs`: the configuration and session records,
  with a view of each type over sequences and plain values.
- `src/command.rs`: the argument lists of `ssh`, `kubectl port-forward` and
  `sshuttle` built from an entry.
- `src/state.rs`, `src/supervisor.rs`, `src/pid.rs`: the connection state
  machine, reconnect backoff and restart decisions, and process recognition.
- `src/app.rs`, `src/form.rs`, `src/keys.rs`: the application state, its
  update step (one message to next state and effects), the entry forms and
  the key bindings, with the laws that every step keeps.
- `src/demo.rs`: demo fixtures and the steps of the simulated tunnels and
  the guided tour.
- `src/screen.rs`, `src/ui.rs`, `src/output.rs`: the text the screen shows
  and the bounded process log.
- `src/idmap.rs`, `src/text.rs`: an ordered map keyed by entry id and the
  string helpers the rest is built on.

`app/` holds the program around the library: argument parsing, the event
loop, file storage, process spawning and signals, and terminal drawing.
`tests/` holds the tests.
