# akropolis_runtime

Verified logic of the Akropolis OS node runtime, written in Verus.

- `src/fees.rs`: how collected fees and tips are divided, 80% to the
  treasury and 20% to the block author, with the laws that nothing is lost
  and that the shares are exactly 80/20 (rounded down) for every amount.
- `src/era.rs`: the mortal era of a transaction (made by sp_runtime's
  `Era::mortal`, `birth` and `death`), the rounding of a period to a power of
  two, and the law that an era made at a block is alive at that block.
- `src/transaction.rs`: the signed extension data of a transaction that the
  runtime creates, and its creation: the payload is made from the call and
  that data, and the signature returned is the signer's over that payload.
- `src/parameters.rs`: the block fullness ratios.
- `src/benchmarks.rs`, `src/contracts.rs`: the routing of benchmark requests
  and the answer to a contract call through the runtime API.
- `src/version.rs`: the runtime's version record.
- `app/`: the FRAME fee handler that moves the imbalances by the amounts the
  library decides, transaction creation around a payload builder and signer,
  the native version built from the runtime's API list, benchmark routing,
  and the conversion of the library's era into sp_runtime's.
