# navigator-sandbox

The supervisor of the Navigator sandbox: it loads a policy, prepares the
filesystem and the network, starts the proxy, the SSH server and the sandboxed
command, and returns the command's exit code.

`src/` is the verified core. It performs no operation itself. It decides which
operation comes next and with which arguments, and takes the result as an event:

- `managed`: the children that have a waiter of their own
- `reaper`: which exited children the zombie reaper collects
- `policy`, `error`, `text`, `network`: the values that decisions are made on
- `load`: where the policy comes from
- `filesystem`: how the writable directories are prepared
- `model`: a run as a state machine over plain values
- `supervisor`: the machine that carries a run out
- `laws`: what holds of whole runs, whatever the operations report

`app/` performs the operations, on top of a host that supplies the policy
engine, the server client, the proxy, the SSH server and the sandboxed process.
