# proxy_contract

The decision logic of a NEAR proxy contract that compounds a user's farming
rewards: it reads the user's preference from a main account, claims rewards
from Burrow or the Ref boost farm, splits the increase between the caller and
a reinvestment into Burrow, and offers owner-only deposit, staking and
withdrawal operations.

- `src/` is verified with Verus. Each contract method is a function from the
  state and a `CallContext` (caller, own account, deposit, balance, time) to
  the next state and the chain of receipts to schedule, or to an `Abort`.
  `laws.rs` holds the properties that span several calls.
- `app/` is the NEAR contract itself: it reads the chain, hands the library
  the bytes that other contracts answer, calls the library, and turns its
  answers into promises, panics and log lines.
- `tests/` runs the library on concrete values.
