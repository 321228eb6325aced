# subspace_verification

Verification primitives of the Subspace consensus, an example non-fungible token contract and
the object mappings of blocks and history, written in Verus.

- `src/` is the verified library:
  - `distance`: solution distance on the `u64` circle and the solution range check;
  - `solution_range`: next solution range at era boundaries and block weight;
  - `verification`: solution verification over the values derived from a solution, and proof
    of time entropy;
  - `piece`: layout of a record's chunks for its commitment and piece validity;
  - `signature`: reward signature checks (schnorrkel);
  - `hashing`: BLAKE3 hashing;
  - `objects`: block and global object mappings;
  - `nft`: the example token contract over its slots;
  - `metadata`: byte encoding of contract metadata kinds.
- `app/` holds what Verus does not check: the SCALE and serde encodings, the error messages, an
  in-memory environment for the token contract, and the calls into the crates that derive
  sector challenges, check proofs of space and Merkle witnesses and erasure-code records.
- `tests/` runs the library on concrete values.
