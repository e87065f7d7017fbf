# neutron_lockdrop_vault

The messages of the Neutron lockdrop vault for concentrated-liquidity pools and the
errors of the reserve contract, with a verified rendering of each error's text.

- `src/msg.rs`: instantiate, execute, query and migrate messages (amounts as `u128`).
- `src/error.rs`: `ContractError` and `message`, whose contract states the text of every variant.
- `src/text.rs`: decimal rendering of integers and of 18-place decimals.
- `src/vesting.rs`: the stand-in vesting contract that answers the vault's tests.
- `app/`: the same types with the serde, schema and error derives the chain needs, and the storage items.
