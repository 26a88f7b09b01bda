//! Stepping engine of a deterministic bytecode machine: a program counter
//! that validates jump targets, a frame state with gas accounting, caches of
//! external facts that are filled on demand, and a `Machine` that executes one
//! instruction per `step`.
//!
//! The instruction set is `STOP`, `BALANCE`, `BLOCKHASH`, `POP`, `MSTORE8`,
//! `JUMP`, `JUMPI`, `JUMPDEST`, `PUSH1` to `PUSH32`, `CALL` and `RETURN`, with
//! the usual opcodes. The contracts are stated over `step_spec` and the views
//! in `eval`; the laws the step obeys are proved in `laws`.

pub mod word;
pub mod errors;
pub mod pc;
pub mod commit;
pub mod eval;
pub mod check;
pub mod cost;
pub mod run;
pub mod machine;
pub mod laws;
