# tetcore

A deterministic execution framework for intelligence infrastructure, written
in Verus: the library's functions carry contracts that Verus proves, but
for six small trusted functions whose contracts Verus takes as given. They
make the outside calls: `digest::sha256` (the `sha2` crate), `hexenc::hex_encode`
and `hexenc::hex_decode` (the `hex` crate), and three uses of `format!` in
`kernel` (an address's debug text), `kernel::network` (an endpoint's text) and
`kernel::tvm` (the unknown-opcode message). Each one's doc comment says what
is taken on trust.

## Layout

- `src/` — the verified library
  - `bytes`, `arith`, `digest`, `hexenc`, `table`: byte strings, saturating
    arithmetic, SHA-256 and Merkle roots, hex text, and the insertion-ordered
    map every module stores its state in
  - `kernel`: the state machine (accounts, storage, transactions, blocks),
    with `consensus`, `economics`, `governance`, `ifp` (inference protocol),
    `network`, `runtime`, `sdk` and `tvm` (register/stack machine)
  - `primitives`: shared records — fixed-point arithmetic, accounts, API,
    blocks and block building, chain storage, consensus, contracts, economics,
    governance, inference, runtime headers and transactions, storage,
    validator discovery
  - `runtime`: the inference runtime's modules (accounts, governance, model
    registry, inference settlement, vaults, revenue routing)
  - `vm`: the contract language's syntax tree and the bytecode machine
  - `node`: the full node and its inference operator
- `tests/` — tests run against the compiled library
- `app/` — the command-line front end, the serialized forms of consensus
  messages, and the floating-point peer and compliance scores
