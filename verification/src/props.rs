use vstd::prelude::*;

use crate::ast::OpModel;
use crate::decoder::decode_at;
use crate::error::PickleError;
use crate::interpreter::{
    lemma_step_continue_stop_none, lemma_step_done_stop_some, lookup_global, lookup_memo,
    memo_get_spec, memo_put_spec, step_spec, InterpModel,
};
use crate::value::{GlobalModel, ValueModel};

verus! {

/// Executing a sequence of instructions in order, stopping at the first
/// failure or at the terminal instruction.
pub open spec fn run_ops(s: InterpModel, ops: Seq<OpModel>) -> (InterpModel, Result<
    bool,
    PickleError,
>)
    decreases ops.len(),
{
    if ops.len() == 0 {
        (s, Ok(false))
    } else {
        let (s1, r) = step_spec(s, ops.first());
        match r {
            Err(e) => (s1, Err(e)),
            Ok(true) => (s1, Ok(true)),
            Ok(false) => run_ops(s1, ops.drop_first()),
        }
    }
}

/// Decoding is deterministic: the instruction decoded at a position is a
/// function of the bytes alone, so re-decoding equal byte streams yields
/// structurally equal instructions at every position.
pub proof fn lemma_decode_deterministic(b1: Seq<u8>, p1: int, b2: Seq<u8>, p2: int)
    requires
        b1 == b2,
        p1 == p2,
    ensures
        decode_at(b1, p1) == decode_at(b2, p2),
{
}

/// A sequence of instructions that reaches the terminal instruction yields
/// exactly one terminal value, and no further instruction is accepted
/// afterwards: every later step fails with `StreamAlreadyTerminated` and
/// leaves the state untouched.
pub proof fn lemma_single_terminal(s: InterpModel, ops: Seq<OpModel>)
    requires
        s.stop_value is None,
        run_ops(s, ops).1 == Ok::<bool, PickleError>(true),
    ensures
        run_ops(s, ops).0.stop_value is Some,
        forall|op: OpModel| #![trigger step_spec(run_ops(s, ops).0, op)]
            step_spec(run_ops(s, ops).0, op) == (
                run_ops(s, ops).0,
                Err::<bool, PickleError>(PickleError::StreamAlreadyTerminated),
            ),
    decreases ops.len(),
{
    if ops.len() == 0 {
    } else {
        let (s1, r) = step_spec(s, ops.first());
        match r {
            Err(_) => {},
            Ok(true) => {
                lemma_step_done_stop_some(s, ops.first());
            },
            Ok(false) => {
                lemma_step_continue_stop_none(s, ops.first());
                lemma_single_terminal(s1, ops.drop_first());
            },
        }
    }
}

/// The instructions that close one MARK each.
pub open spec fn is_mark_consumer(op: OpModel) -> bool {
    op is Tuple || op is SetItems || op is Appends
}

/// The number of MARK instructions in a sequence.
pub open spec fn count_marks(ops: Seq<OpModel>) -> int
    decreases ops.len(),
{
    if ops.len() == 0 {
        0
    } else {
        count_marks(ops.drop_first()) + if ops.first() is Mark {
            1int
        } else {
            0int
        }
    }
}

/// The number of mark-consuming instructions in a sequence.
pub open spec fn count_consumers(ops: Seq<OpModel>) -> int
    decreases ops.len(),
{
    if ops.len() == 0 {
        0
    } else {
        count_consumers(ops.drop_first()) + if is_mark_consumer(ops.first()) {
            1int
        } else {
            0int
        }
    }
}

/// One step of the mark discipline: MARK opens exactly one entry, each
/// accepted mark-consuming instruction closes exactly one, no other accepted
/// instruction changes the mark-stack depth, and a mark-consuming
/// instruction with no open MARK fails with `UnpairedMark`, never a silent
/// wrong result.
pub proof fn lemma_mark_discipline_step(s: InterpModel, op: OpModel)
    requires
        s.stop_value is None,
    ensures
        op is Mark && step_spec(s, op).1 is Ok ==> step_spec(s, op).0.metastack.len()
            == s.metastack.len() + 1,
        is_mark_consumer(op) && step_spec(s, op).1 is Ok ==> step_spec(s, op).0.metastack.len()
            == s.metastack.len() - 1,
        !(op is Mark) && !is_mark_consumer(op) && step_spec(s, op).1 is Ok ==> step_spec(
            s,
            op,
        ).0.metastack.len() == s.metastack.len(),
        is_mark_consumer(op) && s.metastack.len() == 0 ==> step_spec(s, op).1 == Err::<
            bool,
            PickleError,
        >(PickleError::UnpairedMark),
{
}

/// Across a fully accepted instruction sequence the mark-stack depth changes
/// by exactly the number of MARKs minus the number of mark-consuming
/// instructions: MARKs and their consumers are strictly paired.
pub proof fn lemma_mark_counts(s: InterpModel, ops: Seq<OpModel>)
    requires
        s.stop_value is None,
        run_ops(s, ops).1 == Ok::<bool, PickleError>(false),
    ensures
        run_ops(s, ops).0.metastack.len() == s.metastack.len() + count_marks(ops)
            - count_consumers(ops),
    decreases ops.len(),
{
    if ops.len() == 0 {
    } else {
        let (s1, r) = step_spec(s, ops.first());
        match r {
            Err(_) => {},
            Ok(true) => {},
            Ok(false) => {
                lemma_step_continue_stop_none(s, ops.first());
                lemma_mark_discipline_step(s, ops.first());
                lemma_mark_counts(s1, ops.drop_first());
            },
        }
    }
}

/// A sequence that a fresh machine accepts in full never closes more MARKs
/// than it opens: the mark-stack depth can never go below empty, so an
/// excess consumer always fails instead.
pub proof fn lemma_consumers_never_exceed_marks(s: InterpModel, ops: Seq<OpModel>)
    requires
        s.stop_value is None,
        s.metastack.len() == 0,
        run_ops(s, ops).1 == Ok::<bool, PickleError>(false),
    ensures
        count_consumers(ops) <= count_marks(ops),
{
    lemma_mark_counts(s, ops);
}

/// A memo put stores the current top of stack at the index without popping
/// it: the stack is unchanged and a lookup at that index now finds a value
/// structurally equal to the top. `BINPUT` and `LONG_BINPUT` both step
/// through `memo_put_spec`.
pub proof fn lemma_memo_put(s: InterpModel, idx: u32)
    requires
        s.stack.len() > 0,
    ensures
        memo_put_spec(s, idx).1 == Ok::<bool, PickleError>(false),
        memo_put_spec(s, idx).0.stack == s.stack,
        lookup_memo(memo_put_spec(s, idx).0.memo, idx) == Some(s.stack.last()),
{
}

/// A memo put at one index leaves every other index unchanged.
pub proof fn lemma_memo_put_other(s: InterpModel, idx: u32, other: u32)
    requires
        s.stack.len() > 0,
        idx != other,
    ensures
        lookup_memo(memo_put_spec(s, idx).0.memo, other) == lookup_memo(s.memo, other),
{
    assert(memo_put_spec(s, idx).0.memo.drop_last() =~= s.memo);
}

/// A memo get pushes a value structurally equal to what the newest put at
/// that index stored, and a get at an index that no put has written fails
/// with `MissingMemoEntry`, not a default value. `BINGET` and `LONG_BINGET`
/// both step through `memo_get_spec`.
pub proof fn lemma_memo_get(s: InterpModel, idx: u32)
    ensures
        lookup_memo(s.memo, idx) matches Some(v) ==> memo_get_spec(s, idx) == (
            InterpModel { stack: s.stack.push(v), ..s },
            Ok::<bool, PickleError>(false),
        ),
        lookup_memo(s.memo, idx) is None ==> memo_get_spec(s, idx) == (
            s,
            Err::<bool, PickleError>(PickleError::MissingMemoEntry(idx)),
        ),
{
}

/// No instruction except a memo put ever changes the memo table, so what a
/// put stored is still found by any later get at that index.
pub proof fn lemma_memo_preserved(s: InterpModel, op: OpModel)
    requires
        !(op is BInput),
        !(op is LongBInput),
    ensures
        step_spec(s, op).0.memo == s.memo,
{
}

/// True of a sequence holding no memo put.
pub open spec fn has_no_memo_put(ops: Seq<OpModel>) -> bool {
    forall|i: int| 0 <= i < ops.len() ==> !(#[trigger] ops[i] is BInput) && !(ops[i] is LongBInput)
}

/// Across any run of instructions holding no memo put, the memo table is
/// unchanged: a get after such a run still finds exactly what the last put
/// at its index stored.
pub proof fn lemma_memo_preserved_run(s: InterpModel, ops: Seq<OpModel>)
    requires
        has_no_memo_put(ops),
    ensures
        run_ops(s, ops).0.memo == s.memo,
    decreases ops.len(),
{
    if ops.len() > 0 {
        lemma_memo_preserved(s, ops.first());
        let (s1, r) = step_spec(s, ops.first());
        match r {
            Err(_) => {},
            Ok(true) => {},
            Ok(false) => {
                assert(has_no_memo_put(ops.drop_first()));
                lemma_memo_preserved_run(s1, ops.drop_first());
            },
        }
    }
}

/// A qualified identifier that is not in the registry is never resolved to
/// a callable: the instruction pushes it as an inert symbolic reference, and
/// registry, memo and mark-stack are untouched.
pub proof fn lemma_unregistered_global_symbolic(
    s: InterpModel,
    module: Seq<char>,
    name: Seq<char>,
)
    requires
        s.stop_value is None,
        lookup_global(s.globals, GlobalModel { module, name }) is None,
    ensures
        step_spec(s, OpModel::Global(module, name)) == (
            InterpModel {
                stack: s.stack.push(ValueModel::Global(GlobalModel { module, name })),
                ..s
            },
            Ok::<bool, PickleError>(false),
        ),
{
}

/// A call whose callee is not a registered callable executes nothing: the
/// callee and its arguments are repackaged unevaluated as an inert
/// pending-call value. Together with `lemma_unregistered_global_symbolic`
/// this is the security policy: only a registry entry can ever run, whether
/// the stream names it directly or calls it.
pub proof fn lemma_reduce_unresolved_pending(s: InterpModel)
    requires
        s.stop_value is None,
        s.stack.len() >= 2,
        !(s.stack[s.stack.len() - 2] is Function),
    ensures
        step_spec(s, OpModel::Reduce) == (
            InterpModel {
                stack: s.stack.subrange(0, s.stack.len() - 2).push(
                    ValueModel::Reduce(
                        Box::new(s.stack[s.stack.len() - 2]),
                        Box::new(s.stack.last()),
                    ),
                ),
                ..s
            },
            Ok::<bool, PickleError>(false),
        ),
{
}

} // verus!
