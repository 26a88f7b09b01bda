use vstd::prelude::*;
use crate::word::{M256, lemma_value_bounds};
use crate::errors::{EvalError, MachineError, PCError};
use crate::pc::Instruction;
use crate::eval::{
    State, ControlCheck, MAX_MEMORY, check_opcode_spec, jump_target, range_within, stack_in, stack_out,
};

verus! {

fn stack_in_of(ins: Instruction) -> (r: usize)
    ensures
        r == stack_in(ins),
{
    match ins {
        Instruction::Stop | Instruction::JumpDest | Instruction::Push(_) => 0,
        Instruction::Pop | Instruction::Jump | Instruction::Balance | Instruction::Blockhash => 1,
        Instruction::MStore8 | Instruction::JumpI | Instruction::Return => 2,
        Instruction::Call => 7,
    }
}

fn stack_out_of(ins: Instruction) -> (r: usize)
    ensures
        r == stack_out(ins),
{
    match ins {
        Instruction::Push(_) | Instruction::Balance | Instruction::Blockhash => 1,
        _ => 0,
    }
}

/// Checks that `ins` may run on `state`, without changing it: stack bounds,
/// the jump it makes, the memory it touches, and the facts it needs.
pub fn check_opcode(ins: Instruction, state: &State) -> (r: Result<Option<ControlCheck>, EvalError>)
    ensures
        r == check_opcode_spec(state@, ins),
{
    let len = state.stack.len();
    let pops = stack_in_of(ins);
    if len < pops {
        return Err(EvalError::Machine(MachineError::StackUnderflow));
    }
    if stack_out_of(ins) > state.patch.stack_limit || len - pops > state.patch.stack_limit - stack_out_of(ins) {
        return Err(EvalError::Machine(MachineError::StackOverflow));
    }
    match ins {
        Instruction::Jump => jump_check(&state.stack[len - 1]),
        Instruction::JumpI => {
            if !state.stack[len - 2].is_zero() {
                jump_check(&state.stack[len - 1])
            } else {
                Ok(None)
            }
        },
        Instruction::MStore8 => {
            let offset = state.stack[len - 1];
            proof {
                lemma_value_bounds(offset);
            }
            if offset.hi != 0 || offset.lo >= MAX_MEMORY as u128 {
                Err(EvalError::Machine(MachineError::InvalidRange))
            } else {
                Ok(None)
            }
        },
        Instruction::Balance => match state.account_state.balance(state.stack[len - 1]) {
            Ok(_) => Ok(None),
            Err(e) => Err(EvalError::Require(e)),
        },
        Instruction::Blockhash => match state.blockhash_state.get(state.stack[len - 1]) {
            Ok(_) => Ok(None),
            Err(e) => Err(EvalError::Require(e)),
        },
        Instruction::Call => {
            if !range_within(&state.stack[len - 4], &state.stack[len - 5]) || !range_within(
                &state.stack[len - 6],
                &state.stack[len - 7],
            ) {
                return Err(EvalError::Machine(MachineError::InvalidRange));
            }
            match state.account_state.balance(state.stack[len - 2]) {
                Ok(_) => Ok(None),
                Err(e) => Err(EvalError::Require(e)),
            }
        },
        Instruction::Return => {
            if range_within(&state.stack[len - 1], &state.stack[len - 2]) {
                Ok(None)
            } else {
                Err(EvalError::Machine(MachineError::InvalidRange))
            }
        },
        _ => Ok(None),
    }
}

fn jump_check(w: &M256) -> (r: Result<Option<ControlCheck>, EvalError>)
    ensures
        r == jump_target(*w),
{
    match w.as_usize() {
        Some(d) => Ok(Some(ControlCheck::Jump(d))),
        None => Err(EvalError::Machine(MachineError::PC(PCError::BadJumpDest))),
    }
}

} // verus!
