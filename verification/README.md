# tinkernet_node

The command logic of the Tinkernet parachain node, verified with Verus.

- `src/spec_source.rs` — which chain specification a `--chain` identifier selects.
- `src/command.rs` — the node's command line (`Cli`, `Subcommand`) and what the node
  does for it in a build with or without `runtime-benchmarks` and `try-runtime`.
- `src/relay.rs` — the embedded relay chain node: identity, default ports, chain id and
  base path resolution, argument list.
- `src/genesis.rs` — taking the runtime code out of a genesis state and what the
  genesis exports write.
- `src/hex.rs` — the `0x`-prefixed lowercase hexadecimal form the node prints.
- `src/parachain.rs` — the launch decision, the parachain's sovereign account and the
  start-up report of a collator.
- `src/error.rs` — the errors and the messages the node prints for them.
- `app/` — writing exports to files or standard output, logging the start-up report.
