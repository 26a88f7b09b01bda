use vstd::prelude::*;
use crate::word::M256;
use crate::errors::{CommitError, MachineError, PCError, RequireError};
use crate::commit::{AccountFact, lookup, commit_result, commit_view};
use crate::pc::{Instruction, decode, immediate_len, is_boundary, is_valid_dest, reaches};
use crate::eval::{
    StateView, MachineView, StatusView, check_spec, gas_cost_spec, memory_cost_spec, step_spec, top,
};
use crate::machine::machine_wf;

verus! {

/// Two machines that differ at most in their caches of facts.
pub open spec fn same_but_facts(a: MachineView, b: MachineView) -> bool {
    &&& a.code == b.code
    &&& a.position == b.position
    &&& a.status == b.status
    &&& a.state.memory == b.state.memory
    &&& a.state.stack == b.state.stack
    &&& a.state.context == b.state.context
    &&& a.state.block == b.state.block
    &&& a.state.patch == b.state.patch
    &&& a.state.out == b.state.out
    &&& a.state.memory_gas == b.state.memory_gas
    &&& a.state.used_gas == b.state.used_gas
    &&& a.state.refunded_gas == b.state.refunded_gas
}

/// Two machines whose caches answer every key alike.
pub open spec fn same_answers(a: MachineView, b: MachineView) -> bool {
    &&& forall|k: M256| lookup(a.state.accounts, k) == #[trigger] lookup(b.state.accounts, k)
    &&& forall|k: M256| lookup(a.state.blockhashes, k) == #[trigger] lookup(b.state.blockhashes, k)
}

/// `m` after committing an account.
pub open spec fn with_account(m: MachineView, address: M256, fact: AccountFact) -> MachineView {
    MachineView {
        state: StateView { accounts: commit_view(m.state.accounts, address, fact), ..m.state },
        ..m
    }
}

/// `m` after committing a block hash.
pub open spec fn with_blockhash(m: MachineView, number: M256, hash: M256) -> MachineView {
    MachineView {
        state: StateView { blockhashes: commit_view(m.state.blockhashes, number, hash), ..m.state },
        ..m
    }
}

/// Gas gate: an instruction whose memory and own gas exceed what is left
/// ends the machine out of gas, and nothing of the state changes.
pub proof fn lemma_gas_gate(m: MachineView)
    requires
        machine_wf(m),
        m.status == StatusView::Running,
        check_spec(m) is Ok,
        m.state.context.gas_limit - m.state.used_gas < memory_cost_spec(m.state, check_spec(m)->Ok_0)
            + gas_cost_spec(m.state, check_spec(m)->Ok_0),
    ensures
        step_spec(m).0.state == m.state,
        step_spec(m).0.position == m.position,
        step_spec(m).0.status == StatusView::ExitedErr(MachineError::EmptyGas),
        step_spec(m).1 == Ok::<(), RequireError>(()),
{
}

/// A jump to a byte inside a push operand is never an instruction boundary.
pub proof fn lemma_operand_not_boundary(code: Seq<u8>, p: int, t: int)
    requires
        is_boundary(code, p),
        p < t <= p + immediate_len(code[p]),
    ensures
        !is_boundary(code, t),
{
    lemma_walk_skips_operand(code, 0, p, t);
}

proof fn lemma_walk_skips_operand(code: Seq<u8>, q: int, p: int, t: int)
    requires
        reaches(code, q, p),
        p < t <= p + immediate_len(code[p]),
    ensures
        !reaches(code, q, t),
    decreases code.len() - q,
{
    if q == p && p + 1 + immediate_len(code[p]) < code.len() {
        assert(!reaches(code, p + 1 + immediate_len(code[p]), t));
    }
    if q != p && 0 <= q < code.len() && q + 1 + immediate_len(code[q]) < code.len() {
        lemma_walk_skips_operand(code, q + 1 + immediate_len(code[q]), p, t);
    }
}

/// Jump validity: a jump to a byte inside a push operand ends the machine
/// with a bad jump destination.
pub proof fn lemma_jump_into_operand(m: MachineView, p: int)
    requires
        machine_wf(m),
        m.status == StatusView::Running,
        decode(m.code, m.position) == Ok::<Instruction, PCError>(Instruction::Jump),
        m.state.stack.len() >= 1,
        is_boundary(m.code, p),
        p < top(m.state, 0).value() <= p + immediate_len(m.code[p]),
    ensures
        step_spec(m).0.status == StatusView::ExitedErr(MachineError::PC(PCError::BadJumpDest)),
        step_spec(m).0.state == m.state,
        step_spec(m).1 == Ok::<(), RequireError>(()),
{
    crate::word::lemma_value_bounds(top(m.state, 0));
    if 0 <= top(m.state, 0).value() <= usize::MAX {
        lemma_operand_not_boundary(m.code, p, top(m.state, 0).value());
    }
}

/// Jump validity: a jump to a `JUMPDEST` that starts an instruction, with gas
/// enough, moves the program counter exactly there and the machine runs on.
pub proof fn lemma_jump_to_boundary(m: MachineView)
    requires
        machine_wf(m),
        m.status == StatusView::Running,
        decode(m.code, m.position) == Ok::<Instruction, PCError>(Instruction::Jump),
        m.state.stack.len() >= 1,
        0 <= top(m.state, 0).value() < m.code.len(),
        is_valid_dest(m.code, top(m.state, 0).value()),
        m.state.context.gas_limit - m.state.used_gas >= memory_cost_spec(m.state, Instruction::Jump)
            + gas_cost_spec(m.state, Instruction::Jump),
    ensures
        step_spec(m).0.position == top(m.state, 0).value(),
        step_spec(m).0.status == StatusView::Running,
        step_spec(m).0.state.stack == m.state.stack.drop_last(),
        step_spec(m).1 == Ok::<(), RequireError>(()),
{
    assert(m.state.stack.subrange(0, m.state.stack.len() - 1) =~= m.state.stack.drop_last());
}

/// A step that reports a missing fact leaves the machine as it was.
pub proof fn lemma_require_changes_nothing(m: MachineView)
    requires
        step_spec(m).1 is Err,
    ensures
        step_spec(m).0 == m,
{
}

/// A step reads the caches only through the answers they give: two machines
/// alike in all else, whose caches answer alike, step alike.
pub proof fn lemma_step_reads_answers(a: MachineView, b: MachineView)
    requires
        same_but_facts(a, b),
        same_answers(a, b),
    ensures
        step_spec(a).1 == step_spec(b).1,
        same_but_facts(step_spec(a).0, step_spec(b).0),
        step_spec(a).0.state.accounts == a.state.accounts,
        step_spec(a).0.state.blockhashes == a.state.blockhashes,
{
    if a.status == StatusView::Running {
        if let Ok(ins) = decode(a.code, a.position) {
            if a.state.stack.len() >= 1 {
                let k = top(a.state, 0);
                assert(lookup(a.state.accounts, k) == lookup(b.state.accounts, k));
                assert(lookup(a.state.blockhashes, k) == lookup(b.state.blockhashes, k));
            }
        }
    }
}

/// Committing a key that a cache did not hold makes it answer that key with
/// the fact and every other key as before.
pub proof fn lemma_commit_answers<V>(s: Seq<(M256, V)>, k: M256, v: V, j: M256)
    requires
        lookup(s, k) is None,
    ensures
        lookup(commit_view(s, k, v), j) == if j == k {
            Some(v)
        } else {
            lookup(s, j)
        },
{
    assert(commit_view(s, k, v).drop_last() =~= s);
}

/// Require idempotence, for accounts: a step that asked for an account, once
/// the account is committed, steps exactly as a machine that held the account
/// from the start.
pub proof fn lemma_account_retry(m: MachineView, r: MachineView, address: M256, fact: AccountFact)
    requires
        step_spec(m).1 == Err::<(), RequireError>(RequireError::Account(address)),
        same_but_facts(m, r),
        forall|k: M256|
            #[trigger] lookup(r.state.accounts, k) == if k == address {
                Some(fact)
            } else {
                lookup(m.state.accounts, k)
            },
        forall|k: M256| #[trigger] lookup(r.state.blockhashes, k) == lookup(m.state.blockhashes, k),
    ensures
        step_spec(m).0 == m,
        step_spec(with_account(m, address, fact)).1 == step_spec(r).1,
        same_but_facts(step_spec(with_account(m, address, fact)).0, step_spec(r).0),
{
    let c = with_account(m, address, fact);
    assert(lookup(m.state.accounts, address) is None) by {
        lemma_step_requires_absent(m);
    }
    assert forall|k: M256| lookup(c.state.accounts, k) == #[trigger] lookup(r.state.accounts, k) by {
        lemma_commit_answers(m.state.accounts, address, fact, k);
    }
    lemma_step_reads_answers(c, r);
}

/// Require idempotence, for block hashes: a step that asked for a block hash,
/// once the hash is committed, steps exactly as a machine that held it from
/// the start.
pub proof fn lemma_blockhash_retry(m: MachineView, r: MachineView, number: M256, hash: M256)
    requires
        step_spec(m).1 == Err::<(), RequireError>(RequireError::Blockhash(number)),
        same_but_facts(m, r),
        forall|k: M256| #[trigger] lookup(r.state.accounts, k) == lookup(m.state.accounts, k),
        forall|k: M256|
            #[trigger] lookup(r.state.blockhashes, k) == if k == number {
                Some(hash)
            } else {
                lookup(m.state.blockhashes, k)
            },
    ensures
        step_spec(m).0 == m,
        step_spec(with_blockhash(m, number, hash)).1 == step_spec(r).1,
        same_but_facts(step_spec(with_blockhash(m, number, hash)).0, step_spec(r).0),
{
    let c = with_blockhash(m, number, hash);
    assert(lookup(m.state.blockhashes, number) is None) by {
        lemma_step_requires_absent(m);
    }
    assert forall|k: M256| lookup(c.state.blockhashes, k) == #[trigger] lookup(r.state.blockhashes, k) by {
        lemma_commit_answers(m.state.blockhashes, number, hash, k);
    }
    lemma_step_reads_answers(c, r);
}

/// A step asks only for facts that its caches do not hold.
pub proof fn lemma_step_requires_absent(m: MachineView)
    ensures
        step_spec(m).1 matches Err(RequireError::Account(a)) ==> lookup(m.state.accounts, a) is None,
        step_spec(m).1 matches Err(RequireError::Blockhash(n)) ==> lookup(m.state.blockhashes, n) is None,
{
}

/// Commit immutability: once a fact is committed for a key, committing a
/// different fact for it fails and changes nothing, and committing the same
/// fact again succeeds and changes nothing.
pub proof fn lemma_commit_immutable<V>(s: Seq<(M256, V)>, k: M256, f: V, g: V)
    requires
        commit_result(s, k, f) is Ok,
    ensures
        lookup(commit_view(s, k, f), k) == Some(f),
        g != f ==> commit_result(commit_view(s, k, f), k, g) == Err::<(), CommitError>(
            CommitError::AlreadyCommitted,
        ),
        commit_view(commit_view(s, k, f), k, g) == commit_view(s, k, f),
        commit_result(commit_view(s, k, f), k, f) == Ok::<(), CommitError>(()),
{
}

/// Status monotonicity: a machine that has exited stays as it is.
pub proof fn lemma_exited_is_fixed(m: MachineView)
    requires
        m.status == StatusView::ExitedOk || m.status is ExitedErr,
    ensures
        step_spec(m) == (m, Ok::<(), RequireError>(())),
{
}

} // verus!
