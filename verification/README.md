# dbc_pallets

Verified logic of the DBC chain's machine-verification and rental pallets,
written in Verus.

- `src/sort_key.rs` – keys with a strict total order (`u64`, byte strings,
  32-byte accounts) and a verified lexicographic comparison of bytes.
- `src/item_list.rs` – sorted lists without duplicates (binary search, insert,
  remove), with the proof that a sorted list is determined by the set it holds.
- `src/online_committee.rs` – the committee workflow: hash, reveal, summary,
  slashes and appeals.
- `src/generic_func.rs` – fee, fee collector, treasury donation and the nonce
  of random draws; the SCALE encoding of the nonce goes through
  `parity-scale-codec`.
- `src/transient_rental.rs` – admin, committee, vouched miners and machine
  registration with DLC stake.
- `src/terminating_rental.rs`, `src/support.rs`, `src/dispatch.rs` – error
  conversions, shared types, call origins.
- `app/` – the SCALE and serde forms of the types, with conversions, and
  drivers that make the fee, treasury and stake transfers through callbacks.
- `tests/` – tests on concrete values.

Calls that need chain state (storage, balances, randomness) are not made here:
each pallet call takes what it reads as arguments and answers with the
transfer or event to carry out.
