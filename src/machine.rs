use vstd::prelude::*;
use crate::word::M256;
use crate::errors::{CommitError, EvalError, MachineError, PCError, RequireError};
use crate::commit::{
    AccountCommitment, AccountFact, AccountState, BlockhashState, commit_result, commit_view,
};
use crate::pc::{PC, Instruction};
use crate::eval::{
    State, StateView, Context, BlockHeader, Patch, MachineStatus, StatusView, ControlCheck,
    Control, MachineView, check_spec, step_spec, state_wf,
};
use crate::check::check_opcode;
use crate::cost::{gas_cost, gas_stipend, memory_cost};
use crate::run::run_opcode;

verus! {

/// Well formed: the position stays within the code, gas within the limit,
/// memory within reach.
pub open spec fn machine_wf(m: MachineView) -> bool {
    &&& 0 <= m.position <= m.code.len() <= usize::MAX
    &&& state_wf(m.state)
}

/// A frame's state for a fresh call.
pub open spec fn fresh_state(
    context: Context,
    block: BlockHeader,
    patch: Patch,
    accounts: Seq<(M256, AccountFact)>,
    blockhashes: Seq<(M256, M256)>,
) -> StateView {
    StateView {
        memory: Seq::empty(),
        stack: Seq::empty(),
        context: context@,
        block,
        patch,
        out: Seq::empty(),
        memory_gas: 0,
        used_gas: 0,
        refunded_gas: 0,
        accounts,
        blockhashes,
    }
}

impl MachineStatus {
    /// A copy of the status.
    pub fn duplicate(&self) -> (r: MachineStatus)
        ensures
            r@ == self@,
    {
        match self {
            MachineStatus::Running => MachineStatus::Running,
            MachineStatus::ExitedOk => MachineStatus::ExitedOk,
            MachineStatus::ExitedErr(e) => MachineStatus::ExitedErr(*e),
            MachineStatus::InvokeCall(c, w) => MachineStatus::InvokeCall(c.duplicate(), *w),
        }
    }
}

/// A frame: its state, its program counter and its status.
pub struct Machine {
    state: State,
    pc: PC,
    status: MachineStatus,
}

impl Machine {
    pub closed spec fn view(&self) -> MachineView {
        MachineView {
            state: self.state@,
            code: self.pc.code(),
            position: self.pc.position(),
            status: self.status@,
        }
    }

    pub open spec fn wf(&self) -> bool {
        machine_wf(self@)
    }

    /// A machine for a top-level call, running from the first byte of the code.
    pub fn new(context: Context, block: BlockHeader, patch: Patch) -> (r: Machine)
        ensures
            r.wf(),
            r@ == (MachineView {
                state: fresh_state(context, block, patch, Seq::empty(), Seq::empty()),
                code: context.code@,
                position: 0,
                status: StatusView::Running,
            }),
    {
        let pc = PC::new(&context.code);
        Machine {
            pc,
            status: MachineStatus::Running,
            state: State {
                memory: Vec::new(),
                stack: Vec::new(),
                context,
                block,
                patch,
                out: Vec::new(),
                memory_gas: 0,
                used_gas: 0,
                refunded_gas: 0,
                account_state: AccountState::new(),
                blockhash_state: BlockhashState::new(),
            },
        }
    }

    /// A machine for a nested call: the block, the patch and a copy of this
    /// machine's committed facts, with a fresh stack, memory and gas.
    pub fn derive(&self, context: Context) -> (r: Machine)
        ensures
            r.wf(),
            r@ == (MachineView {
                state: fresh_state(
                    context,
                    self@.state.block,
                    self@.state.patch,
                    self@.state.accounts,
                    self@.state.blockhashes,
                ),
                code: context.code@,
                position: 0,
                status: StatusView::Running,
            }),
    {
        let pc = PC::new(&context.code);
        Machine {
            pc,
            status: MachineStatus::Running,
            state: State {
                memory: Vec::new(),
                stack: Vec::new(),
                context,
                block: self.state.block,
                patch: self.state.patch,
                out: Vec::new(),
                memory_gas: 0,
                used_gas: 0,
                refunded_gas: 0,
                account_state: self.state.account_state.duplicate(),
                blockhash_state: self.state.blockhash_state.duplicate(),
            },
        }
    }

    /// Supplies an account.
    pub fn commit_account(&mut self, commitment: AccountCommitment) -> (r: Result<(), CommitError>)
        requires
            old(self).wf(),
        ensures
            final(self).wf(),
            r == commit_result(old(self)@.state.accounts, commitment.address, commitment.fact()),
            final(self)@ == (MachineView {
                state: StateView {
                    accounts: commit_view(
                        old(self)@.state.accounts,
                        commitment.address,
                        commitment.fact(),
                    ),
                    ..old(self)@.state
                },
                ..old(self)@
            }),
    {
        self.state.account_state.commit(commitment)
    }

    /// Supplies the hash of block `number`.
    pub fn commit_blockhash(&mut self, number: M256, hash: M256) -> (r: Result<(), CommitError>)
        requires
            old(self).wf(),
        ensures
            final(self).wf(),
            r == commit_result(old(self)@.state.blockhashes, number, hash),
            final(self)@ == (MachineView {
                state: StateView {
                    blockhashes: commit_view(old(self)@.state.blockhashes, number, hash),
                    ..old(self)@.state
                },
                ..old(self)@
            }),
    {
        self.state.blockhash_state.commit(number, hash)
    }

    fn check_instruction(&self) -> (r: Result<Instruction, EvalError>)
        requires
            self.wf(),
        ensures
            r == check_spec(self@),
    {
        let ins = match self.pc.peek() {
            Ok(i) => i,
            Err(e) => return Err(EvalError::Machine(MachineError::PC(e))),
        };
        match check_opcode(ins, &self.state) {
            Err(e) => Err(e),
            Ok(None) => Ok(ins),
            Ok(Some(ControlCheck::Jump(d))) => {
                if self.pc.is_valid(d) {
                    Ok(ins)
                } else {
                    Err(EvalError::Machine(MachineError::PC(PCError::BadJumpDest)))
                }
            },
        }
    }

    /// The validity pass alone, on the instruction at the program counter;
    /// nothing changes and no gas is charged.
    pub fn check(&self) -> (r: Result<(), EvalError>)
        requires
            self.wf(),
        ensures
            r == match check_spec(self@) {
                Ok(_) => Ok::<(), EvalError>(()),
                Err(e) => Err(e),
            },
    {
        match self.check_instruction() {
            Ok(_) => Ok(()),
            Err(e) => Err(e),
        }
    }

    /// Executes at most one instruction. A missing fact is reported and leaves
    /// the machine as it was; a fatal failure ends the machine and the call
    /// itself succeeds.
    pub fn step(&mut self) -> (r: Result<(), RequireError>)
        requires
            old(self).wf(),
        ensures
            final(self).wf(),
            final(self)@ == step_spec(old(self)@).0,
            r == step_spec(old(self)@).1,
    {
        match &self.status {
            MachineStatus::Running => {},
            _ => return Ok(()),
        }
        let instruction = match self.check_instruction() {
            Ok(i) => i,
            Err(EvalError::Machine(e)) => {
                self.status = MachineStatus::ExitedErr(e);
                return Ok(());
            },
            Err(EvalError::Require(e)) => return Err(e),
        };
        let memory_cost = memory_cost(instruction, &self.state);
        let gas_cost = gas_cost(instruction, &self.state);
        let remaining = self.state.context.gas_limit - self.state.used_gas;
        if (remaining as u128) < memory_cost + gas_cost as u128 {
            self.status = MachineStatus::ExitedErr(MachineError::EmptyGas);
            return Ok(());
        }
        let stipend = gas_stipend(instruction, &self.state);
        let available = (remaining as u128 - memory_cost - gas_cost as u128) as u64;
        let _ = self.pc.read();
        let result = run_opcode(instruction, &mut self.state, stipend, available);
        self.state.used_gas = self.state.used_gas + gas_cost;
        self.state.memory_gas = memory_cost as u64;
        match result {
            None => {},
            Some(Control::Stop) => {
                self.status = MachineStatus::ExitedOk;
            },
            Some(Control::Jump(dest)) => {
                let _ = self.pc.jump(dest);
            },
            Some(Control::InvokeCall(context, window)) => {
                self.status = MachineStatus::InvokeCall(context, window);
            },
        }
        Ok(())
    }

    /// A copy of the status.
    pub fn status(&self) -> (r: MachineStatus)
        ensures
            r@ == self@.status,
    {
        self.status.duplicate()
    }

    /// The frame's state.
    pub fn state(&self) -> (r: &State)
        ensures
            r@ == self@.state,
    {
        &self.state
    }

    /// The program counter's position.
    pub fn position(&self) -> (r: usize)
        ensures
            r == self@.position,
    {
        self.pc.position_of()
    }
}

} // verus!
