# raffle

The rules of an on-chain raffle and NFT auction program, verified with Verus.

- `src/` is the library. `accounts` holds, per instruction, what the rules read
  of its accounts and the constraints they must meet; `raffle` and `auction`
  hold the instructions, each of which updates the account values and returns
  the token transfers it asks for. The function named after an instruction
  runs its accounts check, its access check and its body in order; the body
  alone is the `*_unchecked` function beside it; `address` derives the program's account
  addresses; `external` holds the calls into the Solana and SPL crates;
  `laws` states and proves what holds across instructions.
- `app/` is the Anchor program around it: account loading and creation, the
  price feed read, and the token transfers.
- `tests/` runs the library on concrete accounts.
