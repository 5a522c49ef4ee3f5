# bridge_mock

A verified model of the mock runtimes that the chain bridge pallet, its
ERC-721 example pallet and its example pallet are tested against.

- `src/weights.rs`, `src/params.rs`: the weight type and the runtime's parameters.
- `src/events.rs`: the checks that tests make on the event log (latest event,
  an emitted event, a run of latest events), with their laws.
- `src/resource.rs`: resource identifiers, and those the example runtime registers.
- `src/account.rs`: the account of a pallet, derived by FRAME from its identifier.
- `src/genesis.rs`: the storage a test starts from, and the chain bridge's configuration calls.
- `src/chainbridge_mock.rs`, `src/erc721_mock.rs`, `src/example_mock.rs`: the
  three mock runtimes: their weights, members, genesis builders and helpers.
- `app/lib.rs`: conversions to FRAME's types and FRAME trait impls.
