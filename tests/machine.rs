use sputnikvm::commit::AccountCommitment;
use sputnikvm::errors::{CommitError, EvalError, MachineError, PCError, RequireError};
use sputnikvm::eval::{BlockHeader, Context, MachineStatus, Patch};
use sputnikvm::machine::Machine;
use sputnikvm::pc::{Instruction, PC};
use sputnikvm::word::M256;

fn word(v: u64) -> M256 {
    M256::from_u64(v)
}

fn patch() -> Patch {
    Patch {
        gas_base: 2,
        gas_verylow: 3,
        gas_mid: 8,
        gas_high: 10,
        gas_jumpdest: 1,
        gas_balance: 400,
        gas_blockhash: 20,
        gas_memory_word: 3,
        gas_call: 40,
        gas_call_stipend: 2300,
        stack_limit: 1024,
    }
}

fn block() -> BlockHeader {
    BlockHeader {
        coinbase: word(0),
        timestamp: word(0),
        number: word(100),
        difficulty: word(0),
        gas_limit: word(1_000_000),
    }
}

fn context(code: Vec<u8>, gas_limit: u64) -> Context {
    Context {
        address: word(1),
        caller: word(2),
        code,
        data: Vec::new(),
        gas_limit,
        value: word(0),
    }
}

fn machine(code: Vec<u8>, gas_limit: u64) -> Machine {
    Machine::new(context(code, gas_limit), block(), patch())
}

fn is_running(m: &Machine) -> bool {
    matches!(m.status(), MachineStatus::Running)
}

fn exited_with(m: &Machine, e: MachineError) -> bool {
    match m.status() {
        MachineStatus::ExitedErr(x) => x == e,
        _ => false,
    }
}

#[test]
fn gas_gate_leaves_state_untouched() {
    // PUSH1 7, PUSH1 0, MSTORE8: the store costs 20 and one word of memory at 5.
    let mut p = patch();
    p.gas_verylow = 20;
    p.gas_memory_word = 5;
    let mut m = Machine::new(context(vec![0x60, 0x07, 0x60, 0x00, 0x53], 61), block(), p);
    assert_eq!(m.step(), Ok(()));
    assert_eq!(m.step(), Ok(()));
    assert_eq!(m.state().used_gas, 40);
    // 21 gas are left, the store needs 25.
    assert_eq!(m.step(), Ok(()));
    assert!(exited_with(&m, MachineError::EmptyGas));
    assert_eq!(m.state().used_gas, 40);
    assert_eq!(m.state().memory_gas, 0);
    assert_eq!(m.state().stack.len(), 2);
    assert!(m.state().memory.is_empty());
    assert_eq!(m.position(), 4);
}

#[test]
fn gas_gate_passes_with_exact_gas() {
    let mut p = patch();
    p.gas_verylow = 20;
    p.gas_memory_word = 5;
    let mut m = Machine::new(context(vec![0x60, 0x07, 0x60, 0x00, 0x53], 65), block(), p);
    m.step().unwrap();
    m.step().unwrap();
    m.step().unwrap();
    assert!(is_running(&m));
    assert_eq!(m.state().used_gas, 60);
    assert_eq!(m.state().memory_gas, 5);
    assert_eq!(m.state().memory.len(), 32);
    assert_eq!(m.state().memory[0], 7);
}

#[test]
fn jump_to_jumpdest_moves_pc() {
    // PUSH1 3, JUMP, JUMPDEST
    let mut m = machine(vec![0x60, 0x03, 0x56, 0x5b], 1000);
    m.step().unwrap();
    m.step().unwrap();
    assert!(is_running(&m));
    assert_eq!(m.position(), 3);
    assert_eq!(m.state().used_gas, 3 + 8);
    m.step().unwrap();
    assert!(is_running(&m));
    assert_eq!(m.position(), 4);
    // The code is exhausted.
    m.step().unwrap();
    assert!(exited_with(&m, MachineError::PC(PCError::EndOfCode)));
}

#[test]
fn jump_into_push_operand_is_bad_dest() {
    // PUSH1 3, PUSH1 0x5b, POP, JUMP: offset 3 is the operand of the second push.
    let mut m = machine(vec![0x60, 0x03, 0x60, 0x5b, 0x50, 0x56], 1000);
    m.step().unwrap();
    m.step().unwrap();
    m.step().unwrap();
    let used = m.state().used_gas;
    m.step().unwrap();
    assert!(exited_with(&m, MachineError::PC(PCError::BadJumpDest)));
    assert_eq!(m.state().used_gas, used);
    assert_eq!(m.state().stack.len(), 1);
}

#[test]
fn jump_to_non_jumpdest_is_bad_dest() {
    // PUSH1 3, JUMP, STOP
    let mut m = machine(vec![0x60, 0x03, 0x56, 0x00], 1000);
    m.step().unwrap();
    m.step().unwrap();
    assert!(exited_with(&m, MachineError::PC(PCError::BadJumpDest)));
}

#[test]
fn jumpi_falls_through_on_zero() {
    // PUSH1 0, PUSH1 6, JUMPI, STOP, .., JUMPDEST
    let mut m = machine(vec![0x60, 0x00, 0x60, 0x06, 0x57, 0x00, 0x5b], 1000);
    m.step().unwrap();
    m.step().unwrap();
    m.step().unwrap();
    assert_eq!(m.position(), 5);
    assert!(m.state().stack.is_empty());
    m.step().unwrap();
    assert!(matches!(m.status(), MachineStatus::ExitedOk));
}

#[test]
fn jumpi_jumps_on_nonzero() {
    let mut m = machine(vec![0x60, 0x01, 0x60, 0x06, 0x57, 0x00, 0x5b], 1000);
    m.step().unwrap();
    m.step().unwrap();
    m.step().unwrap();
    assert_eq!(m.position(), 6);
    assert_eq!(m.state().used_gas, 3 + 3 + 10);
}

#[test]
fn missing_account_is_required_then_resumed() {
    // PUSH1 10, BALANCE, STOP
    let code = vec![0x60, 0x0a, 0x31, 0x00];
    let mut m = machine(code.clone(), 1000);
    m.step().unwrap();
    assert_eq!(m.step(), Err(RequireError::Account(word(10))));
    assert!(is_running(&m));
    assert_eq!(m.position(), 2);
    assert_eq!(m.state().used_gas, 3);
    assert_eq!(m.state().stack.len(), 1);
    let acc = AccountCommitment { address: word(10), balance: word(500), nonce: word(1), code: vec![] };
    assert_eq!(m.commit_account(acc), Ok(()));
    assert_eq!(m.step(), Ok(()));
    // A run that held the account from the start.
    let mut r = machine(code, 1000);
    let acc = AccountCommitment { address: word(10), balance: word(500), nonce: word(1), code: vec![] };
    r.commit_account(acc).unwrap();
    r.step().unwrap();
    r.step().unwrap();
    assert_eq!(m.state().stack, r.state().stack);
    assert_eq!(m.state().stack, vec![word(500)]);
    assert_eq!(m.state().memory, r.state().memory);
    assert_eq!(m.state().used_gas, r.state().used_gas);
    assert_eq!(m.state().used_gas, 403);
    assert_eq!(m.state().memory_gas, r.state().memory_gas);
    assert_eq!(m.state().out, r.state().out);
    assert_eq!(m.position(), r.position());
}

#[test]
fn missing_blockhash_is_required_then_resumed() {
    // PUSH1 99, BLOCKHASH
    let mut m = machine(vec![0x60, 0x63, 0x40], 1000);
    m.step().unwrap();
    assert_eq!(m.step(), Err(RequireError::Blockhash(word(99))));
    assert_eq!(m.check(), Err(EvalError::Require(RequireError::Blockhash(word(99)))));
    let h = M256 { hi: 0xdead, lo: 0xbeef };
    m.commit_blockhash(word(99), h).unwrap();
    assert_eq!(m.check(), Ok(()));
    m.step().unwrap();
    assert_eq!(m.state().stack, vec![h]);
    assert_eq!(m.state().used_gas, 23);
}

#[test]
fn commit_conflict_and_repeat() {
    let mut m = machine(vec![0x00], 10);
    assert_eq!(m.commit_blockhash(word(5), word(50)), Ok(()));
    assert_eq!(m.commit_blockhash(word(5), word(50)), Ok(()));
    assert_eq!(m.commit_blockhash(word(5), word(51)), Err(CommitError::AlreadyCommitted));
    let a = AccountCommitment { address: word(7), balance: word(1), nonce: word(0), code: vec![1, 2] };
    assert_eq!(m.commit_account(a), Ok(()));
    let same = AccountCommitment { address: word(7), balance: word(1), nonce: word(0), code: vec![1, 2] };
    assert_eq!(m.commit_account(same), Ok(()));
    let other = AccountCommitment { address: word(7), balance: word(1), nonce: word(0), code: vec![1, 3] };
    assert_eq!(m.commit_account(other), Err(CommitError::AlreadyCommitted));
    // The first fact stays.
    assert_eq!(m.state().blockhash_state.get(word(5)), Ok(word(50)));
    assert_eq!(m.state().account_state.balance(word(7)), Ok(word(1)));
}

#[test]
fn exited_machine_is_a_fixed_point() {
    let mut m = machine(vec![0x60, 0x01, 0x00, 0x60, 0x02], 1000);
    m.step().unwrap();
    m.step().unwrap();
    assert!(matches!(m.status(), MachineStatus::ExitedOk));
    let used = m.state().used_gas;
    let pos = m.position();
    assert_eq!(m.step(), Ok(()));
    assert_eq!(m.step(), Ok(()));
    assert!(matches!(m.status(), MachineStatus::ExitedOk));
    assert_eq!(m.state().used_gas, used);
    assert_eq!(m.state().stack, vec![word(1)]);
    assert_eq!(m.position(), pos);
}

#[test]
fn failed_machine_is_a_fixed_point() {
    let mut m = machine(vec![0x50, 0x60, 0x01], 1000);
    m.step().unwrap();
    assert!(exited_with(&m, MachineError::StackUnderflow));
    m.step().unwrap();
    assert!(exited_with(&m, MachineError::StackUnderflow));
    assert!(m.state().stack.is_empty());
    assert_eq!(m.position(), 0);
}

#[test]
fn stack_overflow_ends_machine() {
    let mut p = patch();
    p.stack_limit = 1;
    let mut m = Machine::new(context(vec![0x60, 0x01, 0x60, 0x02], 1000), block(), p);
    m.step().unwrap();
    m.step().unwrap();
    assert!(exited_with(&m, MachineError::StackOverflow));
    assert_eq!(m.state().stack.len(), 1);
}

#[test]
fn invalid_opcode_and_empty_code() {
    let mut m = machine(vec![0xfe], 1000);
    assert_eq!(m.check(), Err(EvalError::Machine(MachineError::PC(PCError::InvalidOpcode(0xfe)))));
    m.step().unwrap();
    assert!(exited_with(&m, MachineError::PC(PCError::InvalidOpcode(0xfe))));
    let mut e = machine(vec![], 1000);
    e.step().unwrap();
    assert!(exited_with(&e, MachineError::PC(PCError::EndOfCode)));
}

#[test]
fn mstore8_expands_memory_by_words() {
    // PUSH1 0xab, PUSH1 33, MSTORE8
    let mut m = machine(vec![0x60, 0xab, 0x60, 0x21, 0x53], 1000);
    m.step().unwrap();
    m.step().unwrap();
    m.step().unwrap();
    assert!(is_running(&m));
    assert_eq!(m.state().memory.len(), 64);
    assert_eq!(m.state().memory[33], 0xab);
    assert_eq!(m.state().memory[32], 0);
    assert_eq!(m.state().memory_gas, 6);
    assert_eq!(m.state().used_gas, 9);
    assert!(m.state().stack.is_empty());
}

#[test]
fn memory_gas_is_replaced_not_added() {
    // Two stores into the same word: memory gas stays one word.
    let mut m = machine(vec![0x60, 0x01, 0x60, 0x00, 0x53, 0x60, 0x02, 0x60, 0x1f, 0x53], 1000);
    for _ in 0..6 {
        m.step().unwrap();
    }
    assert_eq!(m.state().memory_gas, 3);
    assert_eq!(m.state().used_gas, 18);
    assert_eq!(m.state().memory[0], 1);
    assert_eq!(m.state().memory[31], 2);
}

#[test]
fn mstore8_far_offset_is_invalid_range() {
    // PUSH1 1, PUSH4 0x01000000, MSTORE8
    let mut m = machine(vec![0x60, 0x01, 0x63, 0x01, 0x00, 0x00, 0x00, 0x53], 1000);
    m.step().unwrap();
    m.step().unwrap();
    m.step().unwrap();
    assert!(exited_with(&m, MachineError::InvalidRange));
}

#[test]
fn push_words_are_big_endian() {
    let mut code = vec![0x7f];
    for i in 0..32u8 {
        code.push(i + 1);
    }
    let pc = PC::new(&code);
    let expected = M256 {
        hi: u128::from_be_bytes([1, 2, 3, 4, 5, 6, 7, 8, 9, 10, 11, 12, 13, 14, 15, 16]),
        lo: u128::from_be_bytes([17, 18, 19, 20, 21, 22, 23, 24, 25, 26, 27, 28, 29, 30, 31, 32]),
    };
    assert_eq!(pc.peek(), Ok(Instruction::Push(expected)));
    // A truncated operand reads as if padded with zeros.
    let pc = PC::new(&vec![0x61, 0x01]);
    assert_eq!(pc.peek(), Ok(Instruction::Push(word(0x0100))));
}

#[test]
fn pc_read_and_validity() {
    let mut pc = PC::new(&vec![0x60, 0x5b, 0x5b, 0x62, 0x5b]);
    assert!(!pc.is_valid(1));
    assert!(pc.is_valid(2));
    assert!(!pc.is_valid(4));
    assert!(!pc.is_valid(9));
    assert_eq!(pc.read(), Ok(Instruction::Push(word(0x5b))));
    assert_eq!(pc.position_of(), 2);
    assert_eq!(pc.read(), Ok(Instruction::JumpDest));
    assert_eq!(pc.read(), Ok(Instruction::Push(word(0x5b0000))));
    assert_eq!(pc.position_of(), 5);
    assert_eq!(pc.read(), Err(PCError::EndOfCode));
    assert_eq!(pc.jump(1), Err(PCError::BadJumpDest));
    assert_eq!(pc.position_of(), 5);
    assert_eq!(pc.jump(2), Ok(()));
    assert_eq!(pc.position_of(), 2);
}

#[test]
fn derive_copies_facts_and_diverges() {
    let mut parent = machine(vec![0x00], 1000);
    parent.commit_blockhash(word(1), word(11)).unwrap();
    let mut child = parent.derive(context(vec![0x60, 0x01, 0x40], 500));
    assert!(is_running(&child));
    assert_eq!(child.position(), 0);
    assert_eq!(child.state().context.gas_limit, 500);
    assert_eq!(child.state().block, block());
    child.step().unwrap();
    child.step().unwrap();
    assert_eq!(child.state().stack, vec![word(11)]);
    child.commit_blockhash(word(2), word(22)).unwrap();
    assert_eq!(parent.state().blockhash_state.get(word(2)), Err(RequireError::Blockhash(word(2))));
    assert_eq!(child.state().blockhash_state.get(word(2)), Ok(word(22)));
}

#[test]
fn check_is_a_dry_run() {
    let m = machine(vec![0x56], 1000);
    assert_eq!(m.check(), Err(EvalError::Machine(MachineError::StackUnderflow)));
    assert!(is_running(&m));
    assert_eq!(m.state().used_gas, 0);
}

#[test]
fn word_helpers() {
    assert!(M256::zero().is_zero());
    assert!(!M256 { hi: 1, lo: 0 }.is_zero());
    assert_eq!(word(42).as_usize(), Some(42));
    assert_eq!(M256 { hi: 1, lo: 0 }.as_usize(), None);
}

fn call_code(gas: u8, value: u8, in_size: u8) -> Vec<u8> {
    // out_size 2, out_offset 0x40, in_size, in_offset 1, value, address 9, gas, CALL
    vec![0x60, 0x02, 0x60, 0x40, 0x60, in_size, 0x60, 0x01, 0x60, value, 0x60, 0x09, 0x60, gas, 0xf1]
}

#[test]
fn call_requires_callee_then_suspends() {
    let mut m = machine(call_code(0xff, 1, 3), 1000);
    for _ in 0..7 {
        m.step().unwrap();
    }
    assert_eq!(m.step(), Err(RequireError::Account(word(9))));
    assert!(is_running(&m));
    let callee = AccountCommitment { address: word(9), balance: word(0), nonce: word(0), code: vec![0x00] };
    m.commit_account(callee).unwrap();
    assert_eq!(m.step(), Ok(()));
    match m.status() {
        MachineStatus::InvokeCall(ctx, (offset, len)) => {
            assert_eq!(offset, word(0x40));
            assert_eq!(len, word(2));
            assert_eq!(ctx.address, word(9));
            assert_eq!(ctx.caller, word(1));
            assert_eq!(ctx.code, vec![0x00]);
            assert_eq!(ctx.data, vec![0, 0, 0]);
            assert_eq!(ctx.value, word(1));
            // 255 asked and forwarded, plus the stipend of a call that moves value.
            assert_eq!(ctx.gas_limit, 255 + 2300);
            let mut child = m.derive(ctx);
            child.step().unwrap();
            assert!(matches!(child.status(), MachineStatus::ExitedOk));
        },
        _ => panic!("expected a call"),
    }
    assert!(m.state().stack.is_empty());
    assert_eq!(m.state().memory.len(), 96);
    assert_eq!(m.state().memory_gas, 9);
    assert_eq!(m.state().used_gas, 21 + 40);
    assert_eq!(m.position(), 15);
    // A suspended machine does not step on.
    m.step().unwrap();
    assert!(matches!(m.status(), MachineStatus::InvokeCall(_, _)));
}

#[test]
fn call_forwards_at_most_the_available_gas() {
    let mut m = machine(call_code(0xff, 0, 0), 100);
    let callee = AccountCommitment { address: word(9), balance: word(0), nonce: word(0), code: vec![] };
    m.commit_account(callee).unwrap();
    for _ in 0..8 {
        m.step().unwrap();
    }
    match m.status() {
        MachineStatus::InvokeCall(ctx, _) => {
            // 100 - 21 for the pushes - 9 for memory - 40 for the call; no stipend.
            assert_eq!(ctx.gas_limit, 30);
            assert!(ctx.data.is_empty());
        },
        _ => panic!("expected a call"),
    }
}

#[test]
fn call_with_unreachable_range_fails() {
    // in_offset 1 and in_size 0x01000000 reach past the addressable memory.
    let mut code = vec![0x60, 0x00, 0x60, 0x00, 0x63, 0x01, 0x00, 0x00, 0x00];
    code.extend_from_slice(&[0x60, 0x01, 0x60, 0x00, 0x60, 0x09, 0x60, 0x00, 0xf1]);
    let mut m = machine(code, 1000);
    for _ in 0..8 {
        m.step().unwrap();
    }
    assert!(exited_with(&m, MachineError::InvalidRange));
}

#[test]
fn gas_limit_21_with_cost_20_and_memory_5_is_out_of_gas() {
    let mut p = patch();
    p.gas_verylow = 0;
    p.gas_call = 20;
    p.gas_memory_word = 5;
    // out_size 1, out_offset 0, in_size 0, in_offset 0, value 0, address 9, gas 0, CALL
    let code = vec![0x60, 0x01, 0x60, 0x00, 0x60, 0x00, 0x60, 0x00, 0x60, 0x00, 0x60, 0x09, 0x60, 0x00, 0xf1];
    let mut m = Machine::new(context(code, 21), block(), p);
    let callee = AccountCommitment { address: word(9), balance: word(0), nonce: word(0), code: vec![] };
    m.commit_account(callee).unwrap();
    for _ in 0..7 {
        m.step().unwrap();
    }
    assert_eq!(m.state().used_gas, 0);
    assert_eq!(m.step(), Ok(()));
    assert!(exited_with(&m, MachineError::EmptyGas));
    assert_eq!(m.state().used_gas, 0);
    assert_eq!(m.state().memory_gas, 0);
    assert!(m.state().memory.is_empty());
    assert_eq!(m.state().stack.len(), 7);
    assert_eq!(m.position(), 14);
}

#[test]
fn return_sets_output_and_exits() {
    // PUSH1 0xab, PUSH1 1, MSTORE8, PUSH1 2, PUSH1 0, RETURN
    let mut m = machine(vec![0x60, 0xab, 0x60, 0x01, 0x53, 0x60, 0x02, 0x60, 0x00, 0xf3], 1000);
    for _ in 0..6 {
        m.step().unwrap();
    }
    assert!(matches!(m.status(), MachineStatus::ExitedOk));
    assert_eq!(m.state().out, vec![0x00, 0xab]);
    assert_eq!(m.state().used_gas, 15);
    assert_eq!(m.state().memory_gas, 3);
    assert!(m.state().stack.is_empty());
}

#[test]
fn return_of_nothing_gives_empty_output() {
    // PUSH1 0, PUSH2 0xffff, RETURN: an empty range needs no memory.
    let mut m = machine(vec![0x60, 0x00, 0x61, 0xff, 0xff, 0xf3], 1000);
    for _ in 0..3 {
        m.step().unwrap();
    }
    assert!(matches!(m.status(), MachineStatus::ExitedOk));
    assert!(m.state().out.is_empty());
    assert!(m.state().memory.is_empty());
    assert_eq!(m.state().memory_gas, 0);
}
