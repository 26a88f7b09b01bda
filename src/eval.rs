use vstd::prelude::*;
use crate::word::{M256, lemma_value_bounds};
use crate::errors::{EvalError, MachineError, PCError, RequireError};
use crate::commit::{AccountFact, AccountState, BlockhashState, copy_bytes, lookup};
use crate::pc::{Instruction, decode, is_valid_dest, next_position};

verus! {

/// The highest memory offset a frame may touch, plus one.
pub const MAX_MEMORY: u64 = 0x100_0000;

/// The call that a frame runs.
pub struct Context {
    pub address: M256,
    pub caller: M256,
    pub code: Vec<u8>,
    pub data: Vec<u8>,
    pub gas_limit: u64,
    pub value: M256,
}

pub ghost struct ContextView {
    pub address: M256,
    pub caller: M256,
    pub code: Seq<u8>,
    pub data: Seq<u8>,
    pub gas_limit: u64,
    pub value: M256,
}

impl Context {
    pub open spec fn view(&self) -> ContextView {
        ContextView {
            address: self.address,
            caller: self.caller,
            code: self.code@,
            data: self.data@,
            gas_limit: self.gas_limit,
            value: self.value,
        }
    }

    /// A copy with the same fields.
    pub fn duplicate(&self) -> (r: Context)
        ensures
            r@ == self@,
    {
        Context {
            address: self.address,
            caller: self.caller,
            code: copy_bytes(&self.code),
            data: copy_bytes(&self.data),
            gas_limit: self.gas_limit,
            value: self.value,
        }
    }
}

/// The block that encloses the call.
#[derive(Clone, Copy, Debug, PartialEq, Eq, Structural)]
pub struct BlockHeader {
    pub coinbase: M256,
    pub timestamp: M256,
    pub number: M256,
    pub difficulty: M256,
    pub gas_limit: M256,
}

/// The protocol's numbers: what each class of instruction costs, and the
/// stack's bound.
#[derive(Clone, Copy, Debug, PartialEq, Eq, Structural)]
pub struct Patch {
    pub gas_base: u64,
    pub gas_verylow: u64,
    pub gas_mid: u64,
    pub gas_high: u64,
    pub gas_jumpdest: u64,
    pub gas_balance: u64,
    pub gas_blockhash: u64,
    pub gas_call: u64,
    /// The gas a call that moves value hands to the callee on top of what it forwards.
    pub gas_call_stipend: u64,
    /// The cost of each 32-byte word of memory.
    pub gas_memory_word: u64,
    pub stack_limit: usize,
}

/// Where a machine stands.
pub enum MachineStatus {
    Running,
    ExitedOk,
    ExitedErr(MachineError),
    /// Waiting for the caller to run the call, whose output goes to the
    /// memory window (offset, length).
    InvokeCall(Context, (M256, M256)),
}

pub ghost enum StatusView {
    Running,
    ExitedOk,
    ExitedErr(MachineError),
    InvokeCall(ContextView, (M256, M256)),
}

impl MachineStatus {
    pub open spec fn view(&self) -> StatusView {
        match self {
            MachineStatus::Running => StatusView::Running,
            MachineStatus::ExitedOk => StatusView::ExitedOk,
            MachineStatus::ExitedErr(e) => StatusView::ExitedErr(*e),
            MachineStatus::InvokeCall(c, w) => StatusView::InvokeCall(c@, *w),
        }
    }
}

/// A jump that the validity pass found and that the program counter must allow.
#[derive(Clone, Copy, Debug, PartialEq, Eq, Structural)]
pub enum ControlCheck {
    Jump(usize),
}

/// What executing an instruction asks of the machine.
pub enum Control {
    Stop,
    Jump(usize),
    InvokeCall(Context, (M256, M256)),
}

pub ghost enum ControlView {
    Stop,
    Jump(usize),
    InvokeCall(ContextView, (M256, M256)),
}

impl Control {
    pub open spec fn view(&self) -> ControlView {
        match self {
            Control::Stop => ControlView::Stop,
            Control::Jump(d) => ControlView::Jump(*d),
            Control::InvokeCall(c, w) => ControlView::InvokeCall(c@, *w),
        }
    }
}

/// A frame's state, apart from the program counter.
pub struct State {
    pub memory: Vec<u8>,
    pub stack: Vec<M256>,
    pub context: Context,
    pub block: BlockHeader,
    pub patch: Patch,
    pub out: Vec<u8>,
    pub memory_gas: u64,
    pub used_gas: u64,
    pub refunded_gas: u64,
    pub account_state: AccountState,
    pub blockhash_state: BlockhashState,
}

pub ghost struct StateView {
    pub memory: Seq<u8>,
    pub stack: Seq<M256>,
    pub context: ContextView,
    pub block: BlockHeader,
    pub patch: Patch,
    pub out: Seq<u8>,
    pub memory_gas: u64,
    pub used_gas: u64,
    pub refunded_gas: u64,
    pub accounts: Seq<(M256, AccountFact)>,
    pub blockhashes: Seq<(M256, M256)>,
}

impl State {
    pub open spec fn view(&self) -> StateView {
        StateView {
            memory: self.memory@,
            stack: self.stack@,
            context: self.context@,
            block: self.block,
            patch: self.patch,
            out: self.out@,
            memory_gas: self.memory_gas,
            used_gas: self.used_gas,
            refunded_gas: self.refunded_gas,
            accounts: self.account_state@,
            blockhashes: self.blockhash_state@,
        }
    }
}

/// Gas is never spent past the limit, memory stays addressable and the stack
/// within the patch's bound.
pub open spec fn state_wf(s: StateView) -> bool {
    &&& s.used_gas + s.memory_gas <= s.context.gas_limit
    &&& s.memory.len() <= MAX_MEMORY
    &&& s.stack.len() <= s.patch.stack_limit
}

/// The `i`-th word from the top of the stack.
pub open spec fn top(s: StateView, i: int) -> M256 {
    s.stack[s.stack.len() - 1 - i]
}

/// How many words the instruction takes from the stack.
pub open spec fn stack_in(ins: Instruction) -> int {
    match ins {
        Instruction::Stop | Instruction::JumpDest | Instruction::Push(_) => 0,
        Instruction::Pop | Instruction::Jump | Instruction::Balance | Instruction::Blockhash => 1,
        Instruction::MStore8 | Instruction::JumpI | Instruction::Return => 2,
        Instruction::Call => 7,
    }
}

/// How many words the instruction puts on the stack.
pub open spec fn stack_out(ins: Instruction) -> int {
    match ins {
        Instruction::Push(_) | Instruction::Balance | Instruction::Blockhash => 1,
        _ => 0,
    }
}

/// The jump target a word names, where it fits an index.
pub open spec fn jump_target(w: M256) -> Result<Option<ControlCheck>, EvalError> {
    if 0 <= w.value() <= usize::MAX {
        Ok(Some(ControlCheck::Jump(w.value() as usize)))
    } else {
        Err(EvalError::Machine(MachineError::PC(PCError::BadJumpDest)))
    }
}

/// The validity pass for one instruction: stack bounds, the jump it makes,
/// the memory it touches, and the facts it needs.
pub open spec fn check_opcode_spec(s: StateView, ins: Instruction) -> Result<Option<ControlCheck>, EvalError> {
    if s.stack.len() < stack_in(ins) {
        Err(EvalError::Machine(MachineError::StackUnderflow))
    } else if s.stack.len() - stack_in(ins) + stack_out(ins) > s.patch.stack_limit {
        Err(EvalError::Machine(MachineError::StackOverflow))
    } else {
        match ins {
            Instruction::Jump => jump_target(top(s, 0)),
            Instruction::JumpI => if top(s, 1).value() != 0 {
                jump_target(top(s, 0))
            } else {
                Ok(None)
            },
            Instruction::MStore8 => if top(s, 0).value() >= MAX_MEMORY {
                Err(EvalError::Machine(MachineError::InvalidRange))
            } else {
                Ok(None)
            },
            Instruction::Balance => match lookup(s.accounts, top(s, 0)) {
                None => Err(EvalError::Require(RequireError::Account(top(s, 0)))),
                Some(_) => Ok(None),
            },
            Instruction::Blockhash => match lookup(s.blockhashes, top(s, 0)) {
                None => Err(EvalError::Require(RequireError::Blockhash(top(s, 0)))),
                Some(_) => Ok(None),
            },
            Instruction::Call => if range_end(top(s, 3), top(s, 4)) > MAX_MEMORY || range_end(
                top(s, 5),
                top(s, 6),
            ) > MAX_MEMORY {
                Err(EvalError::Machine(MachineError::InvalidRange))
            } else {
                match lookup(s.accounts, top(s, 1)) {
                    None => Err(EvalError::Require(RequireError::Account(top(s, 1)))),
                    Some(_) => Ok(None),
                }
            },
            Instruction::Return => if range_end(top(s, 0), top(s, 1)) > MAX_MEMORY {
                Err(EvalError::Machine(MachineError::InvalidRange))
            } else {
                Ok(None)
            },
            _ => Ok(None),
        }
    }
}

/// The end of the memory range (offset, size); an empty range needs no memory.
pub open spec fn range_end(offset: M256, size: M256) -> int {
    if size.value() == 0 {
        0
    } else {
        offset.value() + size.value()
    }
}

/// Whether the memory range (offset, size) lies within reach.
pub fn range_within(offset: &M256, size: &M256) -> (r: bool)
    ensures
        r == (range_end(*offset, *size) <= MAX_MEMORY),
{
    proof {
        lemma_value_bounds(*offset);
        lemma_value_bounds(*size);
    }
    if size.is_zero() {
        true
    } else if offset.hi != 0 || size.hi != 0 {
        false
    } else {
        offset.lo <= MAX_MEMORY as u128 && size.lo <= MAX_MEMORY as u128 - offset.lo
    }
}

/// The end of a memory range that lies within reach.
pub fn range_end_of(offset: &M256, size: &M256) -> (r: u64)
    requires
        range_end(*offset, *size) <= MAX_MEMORY,
    ensures
        r == range_end(*offset, *size),
{
    proof {
        lemma_value_bounds(*offset);
        lemma_value_bounds(*size);
    }
    if size.is_zero() {
        0
    } else {
        (offset.lo + size.lo) as u64
    }
}

/// Whole 32-byte words needed to hold `n` bytes.
pub open spec fn words(n: int) -> int {
    (n + 31) / 32
}

/// The bytes of memory the instruction needs.
pub open spec fn memory_need(s: StateView, ins: Instruction) -> int {
    match ins {
        Instruction::MStore8 => top(s, 0).value() + 1,
        Instruction::Call => {
            let a = range_end(top(s, 3), top(s, 4));
            let b = range_end(top(s, 5), top(s, 6));
            if a < b {
                b
            } else {
                a
            }
        },
        Instruction::Return => range_end(top(s, 0), top(s, 1)),
        _ => 0,
    }
}

/// The memory size after the instruction.
pub open spec fn memory_size_after(s: StateView, ins: Instruction) -> int {
    let need = memory_need(s, ins);
    if need <= s.memory.len() {
        s.memory.len() as int
    } else {
        words(need) * 32
    }
}

/// The gas that memory costs once the instruction has run: its words, each at
/// the patch's price.
pub open spec fn memory_cost_spec(s: StateView, ins: Instruction) -> int {
    words(memory_size_after(s, ins)) * s.patch.gas_memory_word
}

/// The instruction's own gas.
pub open spec fn gas_cost_spec(s: StateView, ins: Instruction) -> int {
    match ins {
        Instruction::Stop | Instruction::Return => 0,
        Instruction::Pop => s.patch.gas_base as int,
        Instruction::MStore8 | Instruction::Push(_) => s.patch.gas_verylow as int,
        Instruction::Jump => s.patch.gas_mid as int,
        Instruction::JumpI => s.patch.gas_high as int,
        Instruction::JumpDest => s.patch.gas_jumpdest as int,
        Instruction::Balance => s.patch.gas_balance as int,
        Instruction::Blockhash => s.patch.gas_blockhash as int,
        Instruction::Call => s.patch.gas_call as int,
    }
}

/// The gas a call hands to the callee on top of what it forwards: the
/// patch's stipend where the call moves value.
pub open spec fn gas_stipend_spec(s: StateView, ins: Instruction) -> int {
    match ins {
        Instruction::Call => if top(s, 2).value() != 0 {
            s.patch.gas_call_stipend as int
        } else {
            0
        },
        _ => 0,
    }
}

/// The callee's gas: what the call asks for, at most what is available, plus
/// the stipend, at most `u64::MAX`.
pub open spec fn callee_gas(asked: M256, available: int, stipend: int) -> u64 {
    let g = if asked.value() < available {
        asked.value()
    } else {
        available
    };
    if g + stipend > u64::MAX {
        u64::MAX
    } else {
        (g + stipend) as u64
    }
}

/// The context of the call that `Call` asks for, read after memory has grown.
pub open spec fn callee_context(s: StateView, stipend: int, available: int) -> ContextView {
    let mem = run_memory(s, Instruction::Call);
    ContextView {
        address: top(s, 1),
        caller: s.context.address,
        code: lookup(s.accounts, top(s, 1)).unwrap().code,
        data: if top(s, 4).value() == 0 {
            Seq::empty()
        } else {
            mem.subrange(top(s, 3).value(), top(s, 3).value() + top(s, 4).value())
        },
        gas_limit: callee_gas(top(s, 0), available, stipend),
        value: top(s, 2),
    }
}

/// `mem` grown with zero bytes to `n` bytes.
pub open spec fn expand(mem: Seq<u8>, n: int) -> Seq<u8> {
    if n <= mem.len() {
        mem
    } else {
        mem + Seq::new((n - mem.len()) as nat, |i: int| 0u8)
    }
}

/// The stack after the instruction.
pub open spec fn run_stack(s: StateView, ins: Instruction) -> Seq<M256> {
    let rest = s.stack.subrange(0, s.stack.len() - stack_in(ins));
    match ins {
        Instruction::Push(w) => rest.push(w),
        Instruction::Balance => rest.push(lookup(s.accounts, top(s, 0)).unwrap().balance),
        Instruction::Blockhash => rest.push(lookup(s.blockhashes, top(s, 0)).unwrap()),
        _ => rest,
    }
}

/// The memory after the instruction: a `MSTORE8` writes the low byte of its
/// value at its offset.
pub open spec fn run_memory(s: StateView, ins: Instruction) -> Seq<u8> {
    match ins {
        Instruction::MStore8 => expand(s.memory, memory_size_after(s, ins)).update(
            top(s, 0).value(),
            (top(s, 1).lo % 256) as u8,
        ),
        Instruction::Call | Instruction::Return => expand(s.memory, memory_size_after(s, ins)),
        _ => s.memory,
    }
}

/// The output after the instruction: a `RETURN` sets it to its memory range.
pub open spec fn run_out(s: StateView, ins: Instruction) -> Seq<u8> {
    match ins {
        Instruction::Return => if top(s, 1).value() == 0 {
            Seq::empty()
        } else {
            run_memory(s, ins).subrange(top(s, 0).value(), top(s, 0).value() + top(s, 1).value())
        },
        _ => s.out,
    }
}

/// The executor's effect on the state.
pub open spec fn run_state(s: StateView, ins: Instruction) -> StateView {
    StateView { stack: run_stack(s, ins), memory: run_memory(s, ins), out: run_out(s, ins), ..s }
}

/// The executor's control signal, given the stipend and the gas available
/// once the instruction is paid for.
pub open spec fn run_control(s: StateView, ins: Instruction, stipend: int, available: int) -> Option<ControlView> {
    match ins {
        Instruction::Stop | Instruction::Return => Some(ControlView::Stop),
        Instruction::Jump => Some(ControlView::Jump(top(s, 0).value() as usize)),
        Instruction::JumpI => if top(s, 1).value() != 0 {
            Some(ControlView::Jump(top(s, 0).value() as usize))
        } else {
            None
        },
        Instruction::Call => Some(
            ControlView::InvokeCall(callee_context(s, stipend, available), (top(s, 5), top(s, 6))),
        ),
        _ => None,
    }
}

pub ghost struct MachineView {
    pub state: StateView,
    pub code: Seq<u8>,
    pub position: int,
    pub status: StatusView,
}

/// The validity pass of a machine: decoding, the instruction's own checks,
/// and the jump target.
pub open spec fn check_spec(m: MachineView) -> Result<Instruction, EvalError> {
    match decode(m.code, m.position) {
        Err(e) => Err(EvalError::Machine(MachineError::PC(e))),
        Ok(ins) => match check_opcode_spec(m.state, ins) {
            Err(e) => Err(e),
            Ok(None) => Ok(ins),
            Ok(Some(ControlCheck::Jump(d))) => if d < m.code.len() && is_valid_dest(m.code, d as int) {
                Ok(ins)
            } else {
                Err(EvalError::Machine(MachineError::PC(PCError::BadJumpDest)))
            },
        },
    }
}

/// One step: what the machine becomes and what the call reports.
pub open spec fn step_spec(m: MachineView) -> (MachineView, Result<(), RequireError>) {
    if m.status != StatusView::Running {
        (m, Ok(()))
    } else {
        match check_spec(m) {
            Err(EvalError::Machine(e)) => (MachineView { status: StatusView::ExitedErr(e), ..m }, Ok(())),
            Err(EvalError::Require(e)) => (m, Err(e)),
            Ok(ins) => {
                let s = m.state;
                let mc = memory_cost_spec(s, ins);
                let gc = gas_cost_spec(s, ins);
                if s.context.gas_limit - s.used_gas < mc + gc {
                    (
                        MachineView { status: StatusView::ExitedErr(MachineError::EmptyGas), ..m },
                        Ok(()),
                    )
                } else {
                    let s2 = StateView {
                        used_gas: (s.used_gas + gc) as u64,
                        memory_gas: mc as u64,
                        ..run_state(s, ins)
                    };
                    let next = next_position(m.code, m.position);
                    let available = s.context.gas_limit - s.used_gas - mc - gc;
                    match run_control(s, ins, gas_stipend_spec(s, ins), available) {
                        None => (MachineView { state: s2, position: next, ..m }, Ok(())),
                        Some(ControlView::Stop) => (
                            MachineView { state: s2, position: next, status: StatusView::ExitedOk, ..m },
                            Ok(()),
                        ),
                        Some(ControlView::Jump(d)) => (
                            MachineView { state: s2, position: d as int, ..m },
                            Ok(()),
                        ),
                        Some(ControlView::InvokeCall(c, w)) => (
                            MachineView {
                                state: s2,
                                position: next,
                                status: StatusView::InvokeCall(c, w),
                                ..m
                            },
                            Ok(()),
                        ),
                    }
                }
            },
        }
    }
}

} // verus!
