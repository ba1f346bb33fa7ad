# matrix_system

The verified core of the DONUT referral matrix program for Solana. Every
user owns a 3-slot matrix; a new user registering under a referrer takes the
referrer's next slot, and the slot decides what happens to the SOL deposit:
the first slot swaps it for DONUT that is burnt, the second reserves it for the
referrer, the third pays the referrer what was reserved, completes the
referrer's matrix (which starts afresh) and walks up the upline, where the
deposit takes the next slot of each ancestor in turn.

## Layout

- `src/` — the library, verified with Verus.
  - `key`, `state`, `error`: addresses, account records, errors.
  - `matrix`: slots, fresh matrices, the upline of a new user.
  - `codec`: the byte layout of a user account, with its round-trip law.
  - `checks`, `token`, `airdrop`, `cascade`, `notify`: the address checks,
    token balances, airdrop weeks and accounts, the upline pairs and the
    matrix-completion notice.
  - `solana`: the calls into `solana-program`, `spl-token` and
    `spl-associated-token-account`, with the contracts they are trusted for.
  - `effects`: what the runtime must do (calls, events, account writes) and
    the instruction for each call.
  - `flow`, `deposit`, `deposit_exec`, `base`, `admin`: the instructions. A
    registration is a state machine: it gives effects and a request (read the
    price, an account, the clock) and goes on with the answer.
  - `decimal`: the decimal text of a fixed-point price.
  - `laws`, `records`: properties that relate the steps of a registration,
    among them that every step keeps the user records sound.
- `tests/` — tests of the library on concrete values.
- `app/` — the Anchor program: it reads the accounts, answers the requests,
  carries out the effects and stores the records.
