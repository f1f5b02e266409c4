# tmux_gateway_core

The core of a gateway onto local tmux sessions, written in Verus.

`src/` is the verified library: validation of session, window and pane
names and targets; construction of every tmux command line; parsing and
interpretation of what tmux prints (sessions, windows, panes, buffers,
options, environment, messages, health probes); pagination; and the plans
that realize a declarative session layout, with the rollback rule for
partial failures, and the step-by-step rule that carries such a plan out.
Public functions state their results in their contracts; where a result
rests on the clock or on a hash map's iteration order, the contract states
what holds whatever that reading or order is. Laws relating several
functions are public proof functions named `law_*`.

`app/` is the asynchronous shell: it runs `tmux` (through `tokio` and
`tmux_interface`), hands the output to the library, and carries out the
library's plans step by step. It also holds the serde and thiserror copies
of the library's types.

`tests/` runs the library on concrete values.
