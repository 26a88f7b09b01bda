use vstd::prelude::*;
use crate::word::lemma_value_bounds;
use crate::pc::Instruction;
use crate::eval::{
    State, StateView, Context, Control, MAX_MEMORY, check_opcode_spec, expand, memory_size_after,
    callee_context, range_end_of, run_control, run_state, state_wf, top,
};

verus! {

/// Grows `mem` with zero bytes to `n` bytes.
fn expand_memory(mem: &mut Vec<u8>, n: usize)
    ensures
        final(mem)@ == expand(old(mem)@, n as int),
{
    let ghost start = mem@;
    if n <= mem.len() {
        return;
    }
    while mem.len() < n
        invariant
            start.len() <= mem.len() <= n,
            mem@ == start + Seq::new((mem.len() - start.len()) as nat, |i: int| 0u8),
        decreases n - mem.len(),
    {
        let ghost before = mem@;
        mem.push(0);
        assert(mem@ =~= start + Seq::new((mem.len() - start.len()) as nat, |i: int| 0u8));
    }
}

/// The `n` bytes of `mem` from `start`.
fn copy_range(mem: &Vec<u8>, start: usize, n: usize) -> (r: Vec<u8>)
    requires
        start + n <= mem.len(),
    ensures
        r@ == mem@.subrange(start as int, start + n),
{
    let mut r: Vec<u8> = Vec::new();
    let mut i: usize = 0;
    while i < n
        invariant
            i <= n,
            start + n <= mem.len(),
            r@ == mem@.subrange(start as int, start + i),
        decreases n - i,
    {
        r.push(mem[start + i]);
        i = i + 1;
    }
    r
}

/// Performs `ins` on `state`, which the validity pass has accepted, with
/// `stipend` and `available` gas for a call it makes, and reports what the
/// machine must do next.
pub fn run_opcode(ins: Instruction, state: &mut State, stipend: u64, available: u64) -> (r: Option<Control>)
    requires
        check_opcode_spec(old(state)@, ins).is_ok(),
        state_wf(old(state)@),
    ensures
        final(state)@ == run_state(old(state)@, ins),
        match r {
            None => run_control(old(state)@, ins, stipend as int, available as int) is None,
            Some(c) => run_control(old(state)@, ins, stipend as int, available as int) == Some(c@),
        },
{
    let ghost s = state@;
    let len = state.stack.len();
    match ins {
        Instruction::Stop => {
            assert(state@.stack =~= run_state(s, ins).stack);
            Some(Control::Stop)
        },
        Instruction::JumpDest => {
            assert(state@.stack =~= run_state(s, ins).stack);
            None
        },
        Instruction::Push(w) => {
            state.stack.push(w);
            assert(state@.stack =~= run_state(s, ins).stack);
            None
        },
        Instruction::Pop => {
            state.stack.pop();
            assert(state@.stack =~= run_state(s, ins).stack);
            None
        },
        Instruction::Jump => {
            let dest = state.stack[len - 1];
            proof {
                lemma_value_bounds(dest);
            }
            state.stack.pop();
            assert(state@.stack =~= run_state(s, ins).stack);
            Some(Control::Jump(dest.lo as usize))
        },
        Instruction::JumpI => {
            let dest = state.stack[len - 1];
            let cond = state.stack[len - 2];
            proof {
                lemma_value_bounds(dest);
                lemma_value_bounds(cond);
            }
            state.stack.pop();
            state.stack.pop();
            assert(state@.stack =~= run_state(s, ins).stack);
            if !cond.is_zero() {
                Some(Control::Jump(dest.lo as usize))
            } else {
                None
            }
        },
        Instruction::Balance => {
            let address = state.stack[len - 1];
            let balance = match state.account_state.balance(address) {
                Ok(b) => b,
                Err(_) => address,
            };
            state.stack.pop();
            state.stack.push(balance);
            assert(state@.stack =~= run_state(s, ins).stack);
            None
        },
        Instruction::Blockhash => {
            let number = state.stack[len - 1];
            let hash = match state.blockhash_state.get(number) {
                Ok(h) => h,
                Err(_) => number,
            };
            state.stack.pop();
            state.stack.push(hash);
            assert(state@.stack =~= run_state(s, ins).stack);
            None
        },
        Instruction::MStore8 => {
            let offset = state.stack[len - 1];
            let value = state.stack[len - 2];
            proof {
                lemma_value_bounds(offset);
                assert(offset == top(s, 0));
            }
            let off = offset.lo as usize;
            let cur = state.memory.len();
            let size: usize = if off + 1 <= cur {
                cur
            } else {
                (off + 1 + 31) / 32 * 32
            };
            assert(size == memory_size_after(s, ins));
            state.stack.pop();
            state.stack.pop();
            expand_memory(&mut state.memory, size);
            state.memory.set(off, (value.lo % 256) as u8);
            assert(state@.stack =~= run_state(s, ins).stack);
            assert(state@.memory =~= run_state(s, ins).memory);
            None
        },
        Instruction::Call => {
            let gas = state.stack[len - 1];
            let address = state.stack[len - 2];
            let value = state.stack[len - 3];
            let in_offset = state.stack[len - 4];
            let in_size = state.stack[len - 5];
            let out_offset = state.stack[len - 6];
            let out_size = state.stack[len - 7];
            proof {
                lemma_value_bounds(gas);
                lemma_value_bounds(in_offset);
                lemma_value_bounds(in_size);
                assert(address == top(s, 1));
            }
            let a = range_end_of(&in_offset, &in_size);
            let b = range_end_of(&out_offset, &out_size);
            let need = if a < b {
                b
            } else {
                a
            };
            let cur = state.memory.len();
            let size: usize = if need as usize <= cur {
                cur
            } else {
                (need as usize + 31) / 32 * 32
            };
            assert(size == memory_size_after(s, ins));
            let mut k: usize = 0;
            assert(s.stack.subrange(0, len as int) =~= s.stack);
            while k < 7
                invariant
                    k <= 7 <= len == s.stack.len(),
                    state@ == (StateView { stack: s.stack.subrange(0, len - k), ..s }),
                decreases 7 - k,
            {
                state.stack.pop();
                k = k + 1;
                assert(state@.stack =~= s.stack.subrange(0, len - k));
            }
            expand_memory(&mut state.memory, size);
            let data = if in_size.is_zero() {
                Vec::new()
            } else {
                copy_range(&state.memory, in_offset.lo as usize, in_size.lo as usize)
            };
            let code = match state.account_state.code(address) {
                Ok(c) => c,
                Err(_) => Vec::new(),
            };
            let asked: u64 = if gas.hi == 0 && gas.lo <= u64::MAX as u128 {
                gas.lo as u64
            } else {
                u64::MAX
            };
            let forwarded = if asked < available {
                asked
            } else {
                available
            };
            let gas_limit = if forwarded > u64::MAX - stipend {
                u64::MAX
            } else {
                forwarded + stipend
            };
            let callee = Context {
                address,
                caller: state.context.address,
                code,
                data,
                gas_limit,
                value,
            };
            assert(state@.stack =~= run_state(s, ins).stack);
            assert(state@.memory == run_state(s, ins).memory);
            assert(callee@.data =~= callee_context(s, stipend as int, available as int).data);
            Some(Control::InvokeCall(callee, (out_offset, out_size)))
        },
        Instruction::Return => {
            let offset = state.stack[len - 1];
            let size_word = state.stack[len - 2];
            proof {
                lemma_value_bounds(offset);
                lemma_value_bounds(size_word);
            }
            let need = range_end_of(&offset, &size_word);
            let cur = state.memory.len();
            let size: usize = if need as usize <= cur {
                cur
            } else {
                (need as usize + 31) / 32 * 32
            };
            assert(size == memory_size_after(s, ins));
            state.stack.pop();
            state.stack.pop();
            expand_memory(&mut state.memory, size);
            let out = if size_word.is_zero() {
                Vec::new()
            } else {
                copy_range(&state.memory, offset.lo as usize, size_word.lo as usize)
            };
            state.out = out;
            assert(state@.stack =~= run_state(s, ins).stack);
            assert(state@.out =~= run_state(s, ins).out);
            Some(Control::Stop)
        },
    }
}

} // verus!
