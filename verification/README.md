# miden_node

Decision logic of a Miden node, verified with Verus.

- `src/genesis`: the accounts that a chain starts with, from a configuration of faucets and wallets.
- `src/actor`: the actor that runs the network transactions of one account: its lifecycle, the
  steps of a transaction, what it reads, and what it reports.
- `src/server.rs`: the settings of the remote prover's server.
- `src/validator.rs`: the rules by which a validator signs blocks.
- `src/account.rs`, `assets.rs`, `keys.rs`, `token.rs`, `index.rs`: accounts, assets, keys and
  tokens over the protocol crates. A function marked `external_body` holds calls into them and
  nothing else, and its comment says what is taken for granted of them.

`app` holds what talks to the outside: configuration files, the actor's event loop, the executor's
data store and the gRPC server.
