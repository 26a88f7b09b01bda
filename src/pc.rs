use vstd::prelude::*;
use crate::word::M256;
use crate::errors::PCError;

verus! {

pub const OP_STOP: u8 = 0x00;
pub const OP_BALANCE: u8 = 0x31;
pub const OP_BLOCKHASH: u8 = 0x40;
pub const OP_POP: u8 = 0x50;
pub const OP_MSTORE8: u8 = 0x53;
pub const OP_JUMP: u8 = 0x56;
pub const OP_JUMPI: u8 = 0x57;
pub const OP_JUMPDEST: u8 = 0x5b;
pub const OP_PUSH1: u8 = 0x60;
pub const OP_PUSH32: u8 = 0x7f;
pub const OP_CALL: u8 = 0xf1;
pub const OP_RETURN: u8 = 0xf3;

/// A decoded instruction.
#[derive(Clone, Copy, Debug, PartialEq, Eq, Structural)]
pub enum Instruction {
    Stop,
    Pop,
    MStore8,
    Jump,
    JumpI,
    JumpDest,
    Push(M256),
    Balance,
    Blockhash,
    Call,
    Return,
}

/// How many operand bytes follow the opcode.
pub open spec fn immediate_len(op: u8) -> nat {
    if OP_PUSH1 <= op <= OP_PUSH32 {
        (op - OP_PUSH1 + 1) as nat
    } else {
        0
    }
}

/// A byte of the code; bytes past its end read as zero.
pub open spec fn code_byte(code: Seq<u8>, i: int) -> int {
    if 0 <= i < code.len() {
        code[i] as int
    } else {
        0
    }
}

/// The big-endian number held by `n` code bytes from `start`.
pub open spec fn be_value(code: Seq<u8>, start: int, n: nat) -> int
    decreases n,
{
    if n == 0 {
        0
    } else {
        be_value(code, start, (n - 1) as nat) * 256 + code_byte(code, start + n - 1)
    }
}

/// The word pushed by an instruction whose `n` operand bytes start at `start`.
pub open spec fn push_word(code: Seq<u8>, start: int, n: nat) -> M256 {
    if n <= 16 {
        M256 { hi: 0, lo: be_value(code, start, n) as u128 }
    } else {
        M256 {
            hi: be_value(code, start, (n - 16) as nat) as u128,
            lo: be_value(code, start + n - 16, 16) as u128,
        }
    }
}

/// The instruction at `pos`.
pub open spec fn decode(code: Seq<u8>, pos: int) -> Result<Instruction, PCError> {
    if pos < 0 || pos >= code.len() {
        Err(PCError::EndOfCode)
    } else {
        let op = code[pos];
        if op == OP_STOP {
            Ok(Instruction::Stop)
        } else if op == OP_BALANCE {
            Ok(Instruction::Balance)
        } else if op == OP_BLOCKHASH {
            Ok(Instruction::Blockhash)
        } else if op == OP_POP {
            Ok(Instruction::Pop)
        } else if op == OP_MSTORE8 {
            Ok(Instruction::MStore8)
        } else if op == OP_JUMP {
            Ok(Instruction::Jump)
        } else if op == OP_JUMPI {
            Ok(Instruction::JumpI)
        } else if op == OP_JUMPDEST {
            Ok(Instruction::JumpDest)
        } else if OP_PUSH1 <= op <= OP_PUSH32 {
            Ok(Instruction::Push(push_word(code, pos + 1, immediate_len(op) as nat)))
        } else if op == OP_CALL {
            Ok(Instruction::Call)
        } else if op == OP_RETURN {
            Ok(Instruction::Return)
        } else {
            Err(PCError::InvalidOpcode(op))
        }
    }
}

/// The position after the instruction at `pos`, at most the end of the code.
pub open spec fn next_position(code: Seq<u8>, pos: int) -> int {
    let n = pos + 1 + immediate_len(code[pos]);
    if n < code.len() {
        n
    } else {
        code.len() as int
    }
}

/// Walking instruction by instruction from `p`, the walk stops on `target`.
pub open spec fn reaches(code: Seq<u8>, p: int, target: int) -> bool
    decreases code.len() - p,
{
    if p < 0 || p >= code.len() || p > target {
        false
    } else if p == target {
        true
    } else if p + 1 + immediate_len(code[p]) >= code.len() {
        false
    } else {
        reaches(code, p + 1 + immediate_len(code[p]), target)
    }
}

/// `target` starts an instruction, rather than lying inside a push operand.
pub open spec fn is_boundary(code: Seq<u8>, target: int) -> bool {
    reaches(code, 0, target)
}

/// A jump may land on `target`.
pub open spec fn is_valid_dest(code: Seq<u8>, target: int) -> bool {
    is_boundary(code, target) && code[target] == OP_JUMPDEST
}

fn immediate_of(op: u8) -> (r: usize)
    ensures
        r == immediate_len(op),
        r <= 32,
{
    if OP_PUSH1 <= op && op <= OP_PUSH32 {
        (op - OP_PUSH1 + 1) as usize
    } else {
        0
    }
}

/// The big-endian number in `n` code bytes from `base + offset`.
fn read_be(code: &Vec<u8>, base: usize, offset: usize, n: usize) -> (r: u128)
    requires
        base <= code.len(),
        n <= 16,
        offset <= 32,
    ensures
        r == be_value(code@, base + offset, n as nat),
{
    let mut acc: u128 = 0;
    let mut j: usize = 0;
    while j < n
        invariant
            j <= n <= 16,
            base <= code.len(),
            offset <= 32,
            acc == be_value(code@, base + offset, j as nat),
            0 <= be_value(code@, base + offset, j as nat) < pow256(j as nat),
        decreases n - j,
    {
        let b: u8 = if offset + j < code.len() - base {
            code[base + offset + j]
        } else {
            0
        };
        proof {
            let prev = be_value(code@, base + offset, j as nat);
            lemma_pow256_step(j as nat);
            lemma_pow256_mono((j + 1) as nat, 16);
            lemma_pow256_16();
            assert(0 <= prev * 256 + b < pow256(j as nat) * 256) by (nonlinear_arith)
                requires 0 <= prev < pow256(j as nat), 0 <= b < 256;
            assert(be_value(code@, base + offset, (j + 1) as nat) == prev * 256 + b);
        }
        acc = acc * 256 + b as u128;
        j = j + 1;
    }
    acc
}

pub open spec fn pow256(n: nat) -> int
    decreases n,
{
    if n == 0 {
        1
    } else {
        256 * pow256((n - 1) as nat)
    }
}

proof fn lemma_pow256_step(n: nat)
    ensures
        pow256(n + 1) == pow256(n) * 256,
        pow256(n) > 0,
    decreases n,
{
    if n > 0 {
        lemma_pow256_step((n - 1) as nat);
    }
}

proof fn lemma_pow256_16()
    ensures
        pow256(16) == u128::MAX as int + 1,
{
    reveal_with_fuel(pow256, 17);
}

proof fn lemma_pow256_mono(a: nat, b: nat)
    requires
        a <= b,
    ensures
        pow256(a) <= pow256(b),
    decreases b - a,
{
    if a < b {
        lemma_pow256_mono(a, (b - 1) as nat);
        lemma_pow256_step((b - 1) as nat);
    }
}

/// The program counter: the code of a frame and the position in it.
pub struct PC {
    code: Vec<u8>,
    position: usize,
}

impl PC {
    pub closed spec fn code(&self) -> Seq<u8> {
        self.code@
    }

    pub closed spec fn position(&self) -> int {
        self.position as int
    }

    /// Well formed: the position never passes the end of the code.
    pub open spec fn wf(&self) -> bool {
        0 <= self.position() <= self.code().len() <= usize::MAX
    }

    pub fn new(code: &Vec<u8>) -> (r: PC)
        ensures
            r.code() == code@,
            r.position() == 0,
            r.wf(),
    {
        let mut own: Vec<u8> = Vec::new();
        let mut i: usize = 0;
        while i < code.len()
            invariant
                i <= code.len(),
                own@ == code@.subrange(0, i as int),
            decreases code.len() - i,
        {
            own.push(code[i]);
            i = i + 1;
        }
        assert(own@ =~= code@);
        PC { code: own, position: 0 }
    }

    pub fn position_of(&self) -> (r: usize)
        ensures
            r == self.position(),
    {
        self.position
    }

    /// The instruction at the current position, leaving the position as it is.
    pub fn peek(&self) -> (r: Result<Instruction, PCError>)
        requires
            self.wf(),
        ensures
            r == decode(self.code(), self.position()),
    {
        if self.position >= self.code.len() {
            return Err(PCError::EndOfCode);
        }
        let op = self.code[self.position];
        if op == OP_STOP {
            Ok(Instruction::Stop)
        } else if op == OP_BALANCE {
            Ok(Instruction::Balance)
        } else if op == OP_BLOCKHASH {
            Ok(Instruction::Blockhash)
        } else if op == OP_POP {
            Ok(Instruction::Pop)
        } else if op == OP_MSTORE8 {
            Ok(Instruction::MStore8)
        } else if op == OP_JUMP {
            Ok(Instruction::Jump)
        } else if op == OP_JUMPI {
            Ok(Instruction::JumpI)
        } else if op == OP_JUMPDEST {
            Ok(Instruction::JumpDest)
        } else if OP_PUSH1 <= op && op <= OP_PUSH32 {
            let n = immediate_of(op);
            let base = self.position + 1;
            let w = if n <= 16 {
                M256 { hi: 0, lo: read_be(&self.code, base, 0, n) }
            } else {
                M256 { hi: read_be(&self.code, base, 0, n - 16), lo: read_be(&self.code, base, n - 16, 16) }
            };
            Ok(Instruction::Push(w))
        } else if op == OP_CALL {
            Ok(Instruction::Call)
        } else if op == OP_RETURN {
            Ok(Instruction::Return)
        } else {
            Err(PCError::InvalidOpcode(op))
        }
    }

    /// The instruction at the current position; on success the position moves
    /// past it and its operand.
    pub fn read(&mut self) -> (r: Result<Instruction, PCError>)
        requires
            old(self).wf(),
        ensures
            r == decode(old(self).code(), old(self).position()),
            final(self).wf(),
            final(self).code() == old(self).code(),
            r.is_ok() ==> final(self).position() == next_position(old(self).code(), old(self).position()),
            r.is_err() ==> final(self).position() == old(self).position(),
    {
        let r = self.peek();
        if r.is_ok() {
            let step = 1 + immediate_of(self.code[self.position]);
            if step < self.code.len() - self.position {
                self.position = self.position + step;
            } else {
                self.position = self.code.len();
            }
        }
        r
    }

    /// Whether a jump may land on `dest`: a `JUMPDEST` that starts an
    /// instruction, not a byte inside a push operand.
    pub fn is_valid(&self, dest: usize) -> (r: bool)
        ensures
            r == (dest < self.code().len() && is_valid_dest(self.code(), dest as int)),
    {
        if dest >= self.code.len() {
            return false;
        }
        let mut p: usize = 0;
        while p < dest
            invariant
                p <= dest < self.code.len(),
                reaches(self.code@, 0, dest as int) == reaches(self.code@, p as int, dest as int),
            decreases dest - p,
        {
            let step = 1 + immediate_of(self.code[p]);
            assert(reaches(self.code@, p as int, dest as int) == reaches(
                self.code@,
                p + step,
                dest as int,
            ));
            if step > dest - p {
                assert(!reaches(self.code@, p + step, dest as int));
                return false;
            }
            p = p + step;
        }
        self.code[dest] == OP_JUMPDEST
    }

    /// Moves to `dest` where a jump may land there.
    pub fn jump(&mut self, dest: usize) -> (r: Result<(), PCError>)
        requires
            old(self).wf(),
        ensures
            final(self).wf(),
            final(self).code() == old(self).code(),
            r.is_ok() == (dest < old(self).code().len() && is_valid_dest(old(self).code(), dest as int)),
            r.is_ok() ==> final(self).position() == dest,
            r.is_err() ==> r == Err::<(), PCError>(PCError::BadJumpDest) && final(self).position()
                == old(self).position(),
    {
        if self.is_valid(dest) {
            self.position = dest;
            Ok(())
        } else {
            Err(PCError::BadJumpDest)
        }
    }
}

} // verus!
