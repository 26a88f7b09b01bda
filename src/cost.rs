use vstd::prelude::*;
use crate::word::lemma_value_bounds;
use crate::pc::Instruction;
use crate::eval::{
    State, MAX_MEMORY, check_opcode_spec, gas_cost_spec, gas_stipend_spec, memory_cost_spec,
    memory_size_after, range_end_of, state_wf, top, words,
};

verus! {

/// The gas that memory costs once `ins` has run on `state`.
pub fn memory_cost(ins: Instruction, state: &State) -> (r: u128)
    requires
        check_opcode_spec(state@, ins).is_ok(),
        state_wf(state@),
    ensures
        r == memory_cost_spec(state@, ins),
        r <= 0x800_0000 * 0xffff_ffff_ffff_ffffu64,
        memory_size_after(state@, ins) <= MAX_MEMORY,
{
    let len = state.memory.len() as u64;
    let need: u64 = match ins {
        Instruction::MStore8 => {
            let offset = state.stack[state.stack.len() - 1];
            proof {
                lemma_value_bounds(offset);
                assert(offset == top(state@, 0));
            }
            offset.lo as u64 + 1
        },
        Instruction::Call => {
            let len = state.stack.len();
            let a = range_end_of(&state.stack[len - 4], &state.stack[len - 5]);
            let b = range_end_of(&state.stack[len - 6], &state.stack[len - 7]);
            if a < b {
                b
            } else {
                a
            }
        },
        Instruction::Return => {
            let len = state.stack.len();
            range_end_of(&state.stack[len - 1], &state.stack[len - 2])
        },
        _ => 0,
    };
    let size: u64 = if need <= len {
        len
    } else {
        (need + 31) / 32 * 32
    };
    let n: u64 = (size + 31) / 32;
    assert(n <= 0x800_0000);
    let price = state.patch.gas_memory_word;
    assert(n * price <= 0x800_0000 * 0xffff_ffff_ffff_ffffu64) by (nonlinear_arith)
        requires n <= 0x800_0000, price <= 0xffff_ffff_ffff_ffffu64;
    n as u128 * price as u128
}

/// The instruction's own gas, as the patch prices it.
pub fn gas_cost(ins: Instruction, state: &State) -> (r: u64)
    ensures
        r == gas_cost_spec(state@, ins),
{
    match ins {
        Instruction::Stop | Instruction::Return => 0,
        Instruction::Pop => state.patch.gas_base,
        Instruction::MStore8 | Instruction::Push(_) => state.patch.gas_verylow,
        Instruction::Jump => state.patch.gas_mid,
        Instruction::JumpI => state.patch.gas_high,
        Instruction::JumpDest => state.patch.gas_jumpdest,
        Instruction::Balance => state.patch.gas_balance,
        Instruction::Blockhash => state.patch.gas_blockhash,
        Instruction::Call => state.patch.gas_call,
    }
}

/// The gas a call hands to the callee on top of what it forwards.
pub fn gas_stipend(ins: Instruction, state: &State) -> (r: u64)
    requires
        check_opcode_spec(state@, ins).is_ok(),
    ensures
        r == gas_stipend_spec(state@, ins),
{
    match ins {
        Instruction::Call => {
            if state.stack[state.stack.len() - 3].is_zero() {
                0
            } else {
                state.patch.gas_call_stipend
            }
        },
        _ => 0,
    }
}

} // verus!
