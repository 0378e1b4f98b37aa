# pallet-kitties

A verified kitties pallet: accounts create kitties with random DNA, transfer
them, and breed two kitties into a new one whose DNA mixes its parents' bit
by bit.  The price of each kitty is reserved from its owner.

- `src/` is verified with Verus.  `pallet.rs` holds the storage (`Module`),
  its abstract view (`KittiesState`) and the calls; each call's contract is a
  state transition over the view.  `consistency.rs` proves that every call
  keeps the storage consistent, `laws.rs` states what holds across calls, and
  `dna.rs` and `hashing.rs` cover DNA mixing and the random seed.
- The runtime that hosts the pallet implements `Trait`: it reserves and
  releases funds and supplies the block number and randomness.  The calls
  reach it through `Runtime` (`runtime.rs`), which records every request and
  answer, so each call's contract states exactly what it asked for.
- `app/` gives kitties their SCALE storage form.
- `tests/` drives the pallet through a mock runtime with balances.
