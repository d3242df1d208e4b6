# maelstrom

Building blocks for nodes of the [Maelstrom](https://github.com/jepsen-io/maelstrom)
distributed-systems workbench, verified with Verus.

- `src/` is the verified library: the protocol's errors and messages, the
  decisions a node runtime takes on every incoming line (message ids,
  membership, the table of pending calls, replies and their types), the
  key/value service requests, and the wait-group counter.
- `app/` is the runtime around it: tokio tasks and channels, stdin/stdout,
  serde forms of the messages, and the `Node` trait that handlers implement.
- `tests/` exercises the library on concrete values.
