use vstd::prelude::*;

use itertools::Itertools;

use crate::ast::{Op, OpModel};
use crate::decoder::{decode_at, lemma_decode_advances, PickleReader};
use crate::error::PickleError;
use crate::value::{
    lemma_values_model_push, pairs_model, set_item_model, set_items_model, extend_model,
    values_model, Constructor, Dict, Function, FunctionModel, Global, GlobalModel, OrderedDict,
    Value, ValueModel,
};

verus! {

/// Relies on itertools' `Itertools::tuples`: it groups the items of a
/// sequence into consecutive pairs, in order, dropping an unpaired trailing
/// item.
#[verifier::external_body]
fn pair_up(items: Vec<Value>) -> (r: Vec<(Value, Value)>)
    ensures
        r@.len() == items@.len() / 2,
        forall|i: int|
            0 <= i < r@.len() ==> r@[i].0 == items@[2 * i] && r@[i].1 == items@[2 * i + 1],
{
    items.into_iter().tuples().collect()
}

/// A sequence of values read as consecutive key/value pairs, an unpaired
/// trailing value dropped.
pub open spec fn seq_to_pairs(items: Seq<ValueModel>) -> Seq<(ValueModel, ValueModel)> {
    Seq::new(items.len() / 2, |i: int| (items[2 * i], items[2 * i + 1]))
}

/// The models of a registry, entry by entry.
pub open spec fn globals_model(gs: Seq<(Global, Value)>) -> Seq<(GlobalModel, ValueModel)> {
    Seq::new(gs.len(), |i: int| (gs[i].0@, gs[i].1@))
}

/// The models of a memo table, entry by entry.
pub open spec fn memo_model(ms: Seq<(u32, Value)>) -> Seq<(u32, ValueModel)> {
    Seq::new(ms.len(), |i: int| (ms[i].0, ms[i].1@))
}

/// The models of a mark-stack, saved stack by saved stack.
pub open spec fn metastack_model(ms: Seq<Vec<Value>>) -> Seq<Seq<ValueModel>> {
    Seq::new(ms.len(), |i: int| values_model(ms[i]@))
}

/// The model of an optional value.
pub open spec fn option_value_model(v: Option<Value>) -> Option<ValueModel> {
    match v {
        Some(x) => Some(x@),
        None => None,
    }
}

/// The model of a fallible value result.
pub open spec fn result_value_model(r: Result<Value, PickleError>) -> Result<
    ValueModel,
    PickleError,
> {
    match r {
        Ok(v) => Ok(v@),
        Err(e) => Err(e),
    }
}

/// The newest registry entry under `key`, if any: later registrations win.
pub open spec fn lookup_global(gs: Seq<(GlobalModel, ValueModel)>, key: GlobalModel) -> Option<
    ValueModel,
>
    decreases gs.len(),
{
    if gs.len() == 0 {
        None
    } else if gs.last().0 == key {
        Some(gs.last().1)
    } else {
        lookup_global(gs.drop_last(), key)
    }
}

/// The newest memo entry at `idx`, if any: later puts win.
pub open spec fn lookup_memo(ms: Seq<(u32, ValueModel)>, idx: u32) -> Option<ValueModel>
    decreases ms.len(),
{
    if ms.len() == 0 {
        None
    } else if ms.last().0 == idx {
        Some(ms.last().1)
    } else {
        lookup_memo(ms.drop_last(), idx)
    }
}

/// What a registered constructor returns for each argument value.
///
/// The ordered-association constructor accepts exactly an empty argument
/// tuple and then yields a fresh empty ordered-association value; anything
/// else is an argument mismatch.
pub open spec fn constructor_call_model(c: Constructor, args: ValueModel) -> Result<
    ValueModel,
    PickleError,
> {
    match c {
        Constructor::OrderedDict => match args {
            ValueModel::Tuple(items) => if items.len() == 0 {
                Ok(ValueModel::OrderedDict(Seq::empty()))
            } else {
                Err(PickleError::ArgumentMismatch)
            },
            _ => Err(PickleError::ArgumentMismatch),
        },
    }
}

/// The seeded constructor for the distinguished ordered-association
/// container: accepts exactly an empty argument tuple.
pub fn ordered_dict_constructor(args: Value) -> (r: Result<Value, PickleError>)
    ensures
        result_value_model(r) == constructor_call_model(Constructor::OrderedDict, args@),
{
    match &args {
        Value::Tuple(items) => {
            if items.len() == 0 {
                proof {
                    assert(args@ == ValueModel::Tuple(values_model(items@)));
                }
                Ok(Value::OrderedDict(OrderedDict::new()))
            } else {
                Err(PickleError::ArgumentMismatch)
            }
        },
        _ => Err(PickleError::ArgumentMismatch),
    }
}

impl Function {
    /// Runs the built-in constructor this callable dispatches to.
    pub fn call(&self, args: Value) -> (r: Result<Value, PickleError>)
        ensures
            result_value_model(r) == constructor_call_model(self@.def, args@),
    {
        match self.def {
            Constructor::OrderedDict => ordered_dict_constructor(args),
        }
    }
}

/// The mathematical state of an interpreter.
#[verifier::ext_equal]
pub struct InterpModel {
    pub globals: Seq<(GlobalModel, ValueModel)>,
    pub stack: Seq<ValueModel>,
    pub metastack: Seq<Seq<ValueModel>>,
    pub memo: Seq<(u32, ValueModel)>,
    pub stop_value: Option<ValueModel>,
}

/// The stack machine that consumes decoded instructions.
///
/// It owns the operand stack, the mark-stack, the memo table, the safe-call
/// registry and, once the terminal instruction has run, the stream's result.
#[derive(Debug)]
pub struct Interpreter {
    pub globals: Vec<(Global, Value)>,
    pub stack: Vec<Value>,
    pub metastack: Vec<Vec<Value>>,
    pub memo: Vec<(u32, Value)>,
    pub stop_value: Option<Value>,
}

impl View for Interpreter {
    type V = InterpModel;

    open spec fn view(&self) -> InterpModel {
        InterpModel {
            globals: globals_model(self.globals@),
            stack: values_model(self.stack@),
            metastack: metastack_model(self.metastack@),
            memo: memo_model(self.memo@),
            stop_value: option_value_model(self.stop_value),
        }
    }
}

/// The state after pushing one value, with the step accepted.
pub open spec fn pushed(s: InterpModel, v: ValueModel) -> (InterpModel, Result<
    bool,
    PickleError,
>) {
    (InterpModel { stack: s.stack.push(v), ..s }, Ok(false))
}

/// A memo put: a copy of the top of stack is stored at `idx` without
/// popping; an empty stack is an underflow.
pub open spec fn memo_put_spec(s: InterpModel, idx: u32) -> (InterpModel, Result<
    bool,
    PickleError,
>) {
    if s.stack.len() == 0 {
        (s, Err(PickleError::StackUnderflow))
    } else {
        (InterpModel { memo: s.memo.push((idx, s.stack.last())), ..s }, Ok(false))
    }
}

/// A memo get: a copy of the value stored at `idx` is pushed; an index that
/// no put has written is a failure, not a default.
pub open spec fn memo_get_spec(s: InterpModel, idx: u32) -> (InterpModel, Result<
    bool,
    PickleError,
>) {
    match lookup_memo(s.memo, idx) {
        Some(v) => pushed(s, v),
        None => (s, Err(PickleError::MissingMemoEntry(idx))),
    }
}

/// What one instruction does to the interpreter state: the state after the
/// instruction, and whether the stream has reached its terminal instruction
/// or failed.
///
/// This function is the complete semantics of the machine; `exec_op` is
/// proved to follow it exactly.
pub open spec fn step_spec(s: InterpModel, op: OpModel) -> (InterpModel, Result<
    bool,
    PickleError,
>) {
    if s.stop_value is Some {
        (s, Err(PickleError::StreamAlreadyTerminated))
    } else {
        match op {
            OpModel::Proto(_) => (s, Ok(false)),
            OpModel::EmptyDict => pushed(s, ValueModel::Dict(Seq::empty())),
            OpModel::EmptyList => pushed(s, ValueModel::List(Seq::empty())),
            OpModel::BInput(i) => memo_put_spec(s, i as u32),
            OpModel::LongBInput(i) => memo_put_spec(s, i),
            OpModel::Binunicode(cs) => pushed(s, ValueModel::Str(cs)),
            OpModel::Global(module, name) => {
                let key = GlobalModel { module, name };
                match lookup_global(s.globals, key) {
                    Some(v) => pushed(s, v),
                    None => pushed(s, ValueModel::Global(key)),
                }
            },
            OpModel::BinInt(v) => pushed(s, ValueModel::I32(v)),
            OpModel::BinInt1(v) => pushed(s, ValueModel::I32(v as i32)),
            OpModel::BinInt2(v) => pushed(s, ValueModel::I32(v as i32)),
            OpModel::BinGet(i) => memo_get_spec(s, i as u32),
            OpModel::LongBinGet(i) => memo_get_spec(s, i),
            OpModel::Mark => (
                InterpModel { metastack: s.metastack.push(s.stack), stack: Seq::empty(), ..s },
                Ok(false),
            ),
            OpModel::Tuple => if s.metastack.len() == 0 {
                (s, Err(PickleError::UnpairedMark))
            } else {
                (
                    InterpModel {
                        stack: s.metastack.last().push(ValueModel::Tuple(s.stack)),
                        metastack: s.metastack.drop_last(),
                        ..s
                    },
                    Ok(false),
                )
            },
            OpModel::TupleN(n) => if s.stack.len() < n {
                (s, Err(PickleError::StackUnderflow))
            } else {
                let rest = s.stack.subrange(0, s.stack.len() - n);
                let items = s.stack.subrange(s.stack.len() - n, s.stack.len() as int);
                (InterpModel { stack: rest.push(ValueModel::Tuple(items)), ..s }, Ok(false))
            },
            OpModel::BinPersId => if s.stack.len() == 0 {
                (s, Err(PickleError::StackUnderflow))
            } else {
                (
                    InterpModel {
                        stack: s.stack.drop_last().push(
                            ValueModel::PersistentLoad(Box::new(s.stack.last())),
                        ),
                        ..s
                    },
                    Ok(false),
                )
            },
            OpModel::True => pushed(s, ValueModel::Bool(true)),
            OpModel::False => pushed(s, ValueModel::Bool(false)),
            OpModel::Reduce => if s.stack.len() < 2 {
                (s, Err(PickleError::StackUnderflow))
            } else {
                let args = s.stack.last();
                let func = s.stack[s.stack.len() - 2];
                let rest = s.stack.subrange(0, s.stack.len() - 2);
                match func {
                    ValueModel::Function(f) => match constructor_call_model(f.def, args) {
                        Ok(v) => (InterpModel { stack: rest.push(v), ..s }, Ok(false)),
                        Err(e) => (InterpModel { stack: rest, ..s }, Err(e)),
                    },
                    _ => (
                        InterpModel {
                            stack: rest.push(ValueModel::Reduce(Box::new(func), Box::new(args))),
                            ..s
                        },
                        Ok(false),
                    ),
                }
            },
            OpModel::SetItem => if s.stack.len() < 3 {
                (s, Err(PickleError::StackUnderflow))
            } else {
                let value = s.stack.last();
                let key = s.stack[s.stack.len() - 2];
                let target = s.stack[s.stack.len() - 3];
                let rest = s.stack.subrange(0, s.stack.len() - 3);
                match set_item_model(target, key, value) {
                    Ok(t2) => (InterpModel { stack: rest.push(t2), ..s }, Ok(false)),
                    Err(e) => (
                        InterpModel { stack: s.stack.subrange(0, s.stack.len() - 2), ..s },
                        Err(e),
                    ),
                }
            },
            OpModel::SetItems => if s.metastack.len() == 0 {
                (s, Err(PickleError::UnpairedMark))
            } else {
                let items = s.stack;
                let restored = s.metastack.last();
                let s1 = InterpModel {
                    stack: restored,
                    metastack: s.metastack.drop_last(),
                    ..s
                };
                if items.len() % 2 != 0 {
                    (s1, Err(PickleError::OddItemCount))
                } else if restored.len() == 0 {
                    (s1, Err(PickleError::StackUnderflow))
                } else {
                    match set_items_model(restored.last(), seq_to_pairs(items)) {
                        Ok(t2) => (
                            InterpModel { stack: restored.drop_last().push(t2), ..s1 },
                            Ok(false),
                        ),
                        Err(e) => (s1, Err(e)),
                    }
                }
            },
            OpModel::Appends => if s.metastack.len() == 0 {
                (s, Err(PickleError::UnpairedMark))
            } else {
                let items = s.stack;
                let restored = s.metastack.last();
                let s1 = InterpModel {
                    stack: restored,
                    metastack: s.metastack.drop_last(),
                    ..s
                };
                if restored.len() == 0 {
                    (s1, Err(PickleError::StackUnderflow))
                } else {
                    match extend_model(restored.last(), items) {
                        Ok(t2) => (
                            InterpModel { stack: restored.drop_last().push(t2), ..s1 },
                            Ok(false),
                        ),
                        Err(e) => (s1, Err(e)),
                    }
                }
            },
            OpModel::Build => if s.stack.len() < 2 {
                (s, Err(PickleError::StackUnderflow))
            } else {
                let state = s.stack.last();
                let obj = s.stack[s.stack.len() - 2];
                let rest = s.stack.subrange(0, s.stack.len() - 2);
                (
                    InterpModel {
                        stack: rest.push(ValueModel::SetState(Box::new(obj), Box::new(state))),
                        ..s
                    },
                    Ok(false),
                )
            },
            OpModel::Stop => if s.stack.len() == 0 {
                (s, Err(PickleError::StackUnderflow))
            } else {
                (
                    InterpModel {
                        stack: s.stack.drop_last(),
                        stop_value: Some(s.stack.last()),
                        ..s
                    },
                    Ok(true),
                )
            },
        }
    }
}

/// The qualified identifier of the one pre-seeded registry entry.
pub open spec fn ordered_dict_key() -> GlobalModel {
    GlobalModel { module: "collections"@, name: "OrderedDict"@ }
}

/// The state every interpreter starts from: empty stack, mark-stack and
/// memo, and the registry holding exactly the ordered-association
/// constructor.
pub open spec fn initial_model() -> InterpModel {
    InterpModel {
        globals: seq![
            (
                ordered_dict_key(),
                ValueModel::Function(
                    FunctionModel { name: "OrderedDict"@, def: Constructor::OrderedDict },
                ),
            ),
        ],
        stack: Seq::empty(),
        metastack: Seq::empty(),
        memo: Seq::empty(),
        stop_value: None,
    }
}

/// The newest registry entry matching `key`, as an owned copy.
fn find_global(globals: &Vec<(Global, Value)>, key: &Global) -> (r: Option<Value>)
    ensures
        match r {
            Some(v) => lookup_global(globals_model(globals@), key@) matches Some(m) && v@ == m,
            None => lookup_global(globals_model(globals@), key@) is None,
        },
{
    let ghost gm = globals_model(globals@);
    proof {
        assert(gm.subrange(0, gm.len() as int) =~= gm);
    }
    let mut i: usize = globals.len();
    while i > 0
        invariant
            i <= globals@.len(),
            gm == globals_model(globals@),
            gm.len() == globals@.len(),
            lookup_global(gm, key@) == lookup_global(gm.subrange(0, i as int), key@),
        decreases i,
    {
        i = i - 1;
        proof {
            assert(gm.subrange(0, i + 1).drop_last() =~= gm.subrange(0, i as int));
            assert(gm.subrange(0, i + 1).last() == (globals@[i as int].0@, globals@[i as int].1@));
        }
        if globals[i].0.matches(key) {
            let found = globals[i].1.deep_clone();
            return Some(found);
        }
    }
    proof {
        assert(gm.subrange(0, 0) =~= Seq::<(GlobalModel, ValueModel)>::empty());
    }
    None
}

/// The newest memo entry at `idx`, as an owned copy.
fn find_memo(memo: &Vec<(u32, Value)>, idx: u32) -> (r: Option<Value>)
    ensures
        match r {
            Some(v) => lookup_memo(memo_model(memo@), idx) matches Some(m) && v@ == m,
            None => lookup_memo(memo_model(memo@), idx) is None,
        },
{
    let ghost mm = memo_model(memo@);
    proof {
        assert(mm.subrange(0, mm.len() as int) =~= mm);
    }
    let mut i: usize = memo.len();
    while i > 0
        invariant
            i <= memo@.len(),
            mm == memo_model(memo@),
            mm.len() == memo@.len(),
            lookup_memo(mm, idx) == lookup_memo(mm.subrange(0, i as int), idx),
        decreases i,
    {
        i = i - 1;
        proof {
            assert(mm.subrange(0, i + 1).drop_last() =~= mm.subrange(0, i as int));
            assert(mm.subrange(0, i + 1).last() == (memo@[i as int].0, memo@[i as int].1@));
        }
        if memo[i].0 == idx {
            let found = memo[i].1.deep_clone();
            return Some(found);
        }
    }
    proof {
        assert(mm.subrange(0, 0) =~= Seq::<(u32, ValueModel)>::empty());
    }
    None
}

impl Interpreter {
    /// A fresh interpreter for one stream, its registry pre-seeded with the
    /// ordered-association constructor.
    pub fn new() -> (r: Interpreter)
        ensures
            r@ == initial_model(),
    {
        let mut interp = Interpreter {
            globals: Vec::new(),
            stack: Vec::new(),
            metastack: Vec::new(),
            memo: Vec::new(),
            stop_value: None,
        };
        proof {
            assert(interp@.globals =~= Seq::<(GlobalModel, ValueModel)>::empty());
            assert(interp@.stack =~= Seq::<ValueModel>::empty());
            assert(interp@.metastack =~= Seq::<Seq<ValueModel>>::empty());
            assert(interp@.memo =~= Seq::<(u32, ValueModel)>::empty());
        }
        let path = Global { module: "collections".to_owned(), name: "OrderedDict".to_owned() };
        let callable = Function::from_fn("OrderedDict".to_owned(), Constructor::OrderedDict);
        interp.set_global(path, Value::Function(callable));
        proof {
            assert(interp@ =~= initial_model());
        }
        interp
    }

    /// Registers `value` under `path`; a later registration under the same
    /// path wins over an earlier one.
    pub fn set_global(&mut self, path: Global, value: Value)
        ensures
            final(self)@ == (InterpModel {
                globals: old(self)@.globals.push((path@, value@)),
                ..old(self)@
            }),
    {
        let ghost gs = self.globals@;
        self.globals.push((path, value));
        proof {
            assert(globals_model(self.globals@) =~= globals_model(gs).push((path@, value@)));
            assert(self@ =~= (InterpModel {
                globals: old(self)@.globals.push((path@, value@)),
                ..old(self)@
            }));
        }
    }

    /// Pushes one value onto the operand stack.
    fn push_value(&mut self, v: Value)
        ensures
            final(self)@ == (InterpModel { stack: old(self)@.stack.push(v@), ..old(self)@ }),
    {
        let ghost vs = self.stack@;
        let ghost vm = v@;
        self.stack.push(v);
        proof {
            lemma_values_model_push(vs, v);
            assert(self@ =~= (InterpModel { stack: old(self)@.stack.push(vm), ..old(self)@ }));
        }
    }

    /// Restores the newest saved stack as the operand stack and hands back
    /// what had accumulated since the matching MARK.
    fn pop_mark(&mut self) -> (items: Vec<Value>)
        requires
            old(self)@.metastack.len() > 0,
        ensures
            values_model(items@) == old(self)@.stack,
            final(self)@ == (InterpModel {
                stack: old(self)@.metastack.last(),
                metastack: old(self)@.metastack.drop_last(),
                ..old(self)@
            }),
    {
        let mut stack = match self.metastack.pop() {
            Some(s) => s,
            None => unreached(),
        };
        core::mem::swap(&mut stack, &mut self.stack);
        proof {
            assert(metastack_model(self.metastack@) =~= old(self)@.metastack.drop_last());
            assert(values_model(self.stack@) == old(self)@.metastack.last());
            assert(self@ =~= (InterpModel {
                stack: old(self)@.metastack.last(),
                metastack: old(self)@.metastack.drop_last(),
                ..old(self)@
            }));
        }
        stack
    }

    /// Applies one instruction, exactly as the machine's semantics
    /// [`step_spec`] gives it: `Ok(true)` when the stream has reached its
    /// terminal instruction, `Ok(false)` when it should continue, and the
    /// classified failure otherwise.
    pub fn exec_op(&mut self, op: Op) -> (r: Result<bool, PickleError>)
        ensures
            final(self)@ == step_spec(old(self)@, op@).0,
            r == step_spec(old(self)@, op@).1,
    {
        if self.stop_value.is_some() {
            return Err(PickleError::StreamAlreadyTerminated);
        }
        match op {
            Op::Proto(_) => Ok(false),
            Op::EmptyDict => {
                self.push_value(Value::Dict(Dict::new()));
                Ok(false)
            },
            Op::EmptyList => {
                self.push_value(Value::List(Vec::new()));
                proof {
                    assert(values_model(Seq::<Value>::empty()) =~= Seq::<ValueModel>::empty());
                }
                Ok(false)
            },
            Op::BInput(index) => self.memo_put(index as u32),
            Op::LongBInput(index) => self.memo_put(index),
            Op::Binunicode(s) => {
                self.push_value(Value::String(s));
                Ok(false)
            },
            Op::Global(module, name) => self.do_global(module, name),
            Op::BinInt(value) => {
                self.push_value(Value::I32(value));
                Ok(false)
            },
            Op::BinInt1(value) => {
                self.push_value(Value::I32(value as i32));
                Ok(false)
            },
            Op::BinInt2(value) => {
                self.push_value(Value::I32(value as i32));
                Ok(false)
            },
            Op::BinGet(index) => self.memo_get(index as u32),
            Op::LongBinGet(index) => self.memo_get(index),
            Op::Mark => self.do_mark(),
            Op::Tuple => self.do_tuple(),
            Op::TupleN(n) => self.do_tuple_n(n),
            Op::BinPersId => self.do_bin_pers_id(),
            Op::True => {
                self.push_value(Value::Bool(true));
                Ok(false)
            },
            Op::False => {
                self.push_value(Value::Bool(false));
                Ok(false)
            },
            Op::Reduce => self.do_reduce(),
            Op::Appends => self.do_appends(),
            Op::SetItems => self.do_set_items(),
            Op::SetItem => self.do_set_item(),
            Op::Build => self.do_build(),
            Op::Stop => self.do_stop(),
        }
    }

    /// A memo put at `idx`.
    fn memo_put(&mut self, idx: u32) -> (r: Result<bool, PickleError>)
        requires
            old(self)@.stop_value is None,
        ensures
            final(self)@ == memo_put_spec(old(self)@, idx).0,
            r == memo_put_spec(old(self)@, idx).1,
    {
        if self.stack.len() == 0 {
            return Err(PickleError::StackUnderflow);
        }
        let top = self.stack[self.stack.len() - 1].deep_clone();
        let ghost ms = self.memo@;
        self.memo.push((idx, top));
        proof {
            assert(memo_model(self.memo@) =~= memo_model(ms).push((idx, old(self)@.stack.last())));
            assert(self@ =~= memo_put_spec(old(self)@, idx).0);
        }
        Ok(false)
    }

    /// A memo get at `idx`.
    fn memo_get(&mut self, idx: u32) -> (r: Result<bool, PickleError>)
        requires
            old(self)@.stop_value is None,
        ensures
            final(self)@ == memo_get_spec(old(self)@, idx).0,
            r == memo_get_spec(old(self)@, idx).1,
    {
        match find_memo(&self.memo, idx) {
            Some(v) => {
                self.push_value(v);
                Ok(false)
            },
            None => Err(PickleError::MissingMemoEntry(idx)),
        }
    }

    /// Resolves a qualified identifier: the registered callable if the
    /// registry holds one, else the identifier itself as inert data.
    fn do_global(&mut self, module: String, name: String) -> (r: Result<bool, PickleError>)
        requires
            old(self)@.stop_value is None,
        ensures
            final(self)@ == step_spec(old(self)@, OpModel::Global(module@, name@)).0,
            r == step_spec(old(self)@, OpModel::Global(module@, name@)).1,
    {
        let global = Global { module, name };
        match find_global(&self.globals, &global) {
            Some(def) => {
                self.push_value(def);
            },
            None => {
                self.push_value(Value::Global(global));
            },
        }
        Ok(false)
    }

    /// Opens a MARK: saves the operand stack and starts a fresh one.
    fn do_mark(&mut self) -> (r: Result<bool, PickleError>)
        requires
            old(self)@.stop_value is None,
        ensures
            final(self)@ == step_spec(old(self)@, OpModel::Mark).0,
            r == step_spec(old(self)@, OpModel::Mark).1,
    {
        let mut old_stack: Vec<Value> = Vec::new();
        core::mem::swap(&mut old_stack, &mut self.stack);
        self.metastack.push(old_stack);
        proof {
            assert(values_model(self.stack@) =~= Seq::<ValueModel>::empty());
            assert(metastack_model(self.metastack@) =~= old(self)@.metastack.push(
                old(self)@.stack,
            ));
            assert(self@ =~= step_spec(old(self)@, OpModel::Mark).0);
        }
        Ok(false)
    }

    /// Builds a tuple from everything accumulated since the matching MARK.
    fn do_tuple(&mut self) -> (r: Result<bool, PickleError>)
        requires
            old(self)@.stop_value is None,
        ensures
            final(self)@ == step_spec(old(self)@, OpModel::Tuple).0,
            r == step_spec(old(self)@, OpModel::Tuple).1,
    {
        if self.metastack.len() == 0 {
            return Err(PickleError::UnpairedMark);
        }
        let items = self.pop_mark();
        self.push_value(Value::Tuple(items));
        proof {
            assert(self@ =~= step_spec(old(self)@, OpModel::Tuple).0);
        }
        Ok(false)
    }

    /// Builds a fixed-arity tuple from the top `n` operands, in order.
    fn do_tuple_n(&mut self, n: u8) -> (r: Result<bool, PickleError>)
        requires
            old(self)@.stop_value is None,
        ensures
            final(self)@ == step_spec(old(self)@, OpModel::TupleN(n)).0,
            r == step_spec(old(self)@, OpModel::TupleN(n)).1,
    {
        let count = n as usize;
        if self.stack.len() < count {
            return Err(PickleError::StackUnderflow);
        }
        let start = self.stack.len() - count;
        let mut items: Vec<Value> = Vec::new();
        let mut k: usize = start;
        while k < self.stack.len()
            invariant
                *self == *old(self),
                start <= k <= self.stack@.len(),
                start == self.stack@.len() - count,
                count <= self.stack@.len(),
                items@.len() == k - start,
                forall|j: int| 0 <= j < items@.len() ==> items@[j]@ == self.stack@[start + j]@,
            decreases self.stack@.len() - k,
    {
            proof {
                vstd::std_specs::vec::axiom_vec_index_decreases(self.stack, k as int);
            }
            items.push(self.stack[k].deep_clone());
            k = k + 1;
        }
        self.stack.truncate(start);
        self.stack.push(Value::Tuple(items));
        proof {
            let s0 = old(self)@;
            assert(values_model(items@) =~= s0.stack.subrange(
                s0.stack.len() - n,
                s0.stack.len() as int,
            ));
            assert(values_model(self.stack@) =~= s0.stack.subrange(0, s0.stack.len() - n).push(
                ValueModel::Tuple(values_model(items@)),
            ));
            assert(self@ =~= step_spec(s0, OpModel::TupleN(n)).0);
        }
        Ok(false)
    }

    /// Wraps the top of stack as an opaque persistent reference.
    fn do_bin_pers_id(&mut self) -> (r: Result<bool, PickleError>)
        requires
            old(self)@.stop_value is None,
        ensures
            final(self)@ == step_spec(old(self)@, OpModel::BinPersId).0,
            r == step_spec(old(self)@, OpModel::BinPersId).1,
    {
        if self.stack.len() == 0 {
            return Err(PickleError::StackUnderflow);
        }
        let pid = match self.stack.pop() {
            Some(v) => v,
            None => unreached(),
        };
        proof {
            assert(values_model(self.stack@) =~= old(self)@.stack.drop_last());
        }
        self.push_value(Value::PersistentLoad(Box::new(pid)));
        proof {
            assert(self@ =~= step_spec(old(self)@, OpModel::BinPersId).0);
        }
        Ok(false)
    }

    /// A call: a registered callable runs now; anything else is captured as
    /// an inert pending call. This is the only point where code runs.
    fn do_reduce(&mut self) -> (r: Result<bool, PickleError>)
        requires
            old(self)@.stop_value is None,
        ensures
            final(self)@ == step_spec(old(self)@, OpModel::Reduce).0,
            r == step_spec(old(self)@, OpModel::Reduce).1,
    {
        if self.stack.len() < 2 {
            return Err(PickleError::StackUnderflow);
        }
        let args = match self.stack.pop() {
            Some(v) => v,
            None => unreached(),
        };
        let func = match self.stack.pop() {
            Some(v) => v,
            None => unreached(),
        };
        proof {
            assert(values_model(self.stack@) =~= old(self)@.stack.subrange(
                0,
                old(self)@.stack.len() - 2,
            ));
        }
        match func {
            Value::Function(f) => {
                match f.call(args) {
                    Ok(res) => {
                        self.push_value(res);
                        proof {
                            assert(self@ =~= step_spec(old(self)@, OpModel::Reduce).0);
                        }
                        Ok(false)
                    },
                    Err(e) => {
                        proof {
                            assert(self@ =~= step_spec(old(self)@, OpModel::Reduce).0);
                        }
                        Err(e)
                    },
                }
            },
            other => {
                self.push_value(Value::Reduce(Box::new(other), Box::new(args)));
                proof {
                    assert(self@ =~= step_spec(old(self)@, OpModel::Reduce).0);
                }
                Ok(false)
            },
        }
    }

    /// Assigns one key/value pair into the container beneath them.
    fn do_set_item(&mut self) -> (r: Result<bool, PickleError>)
        requires
            old(self)@.stop_value is None,
        ensures
            final(self)@ == step_spec(old(self)@, OpModel::SetItem).0,
            r == step_spec(old(self)@, OpModel::SetItem).1,
    {
        if self.stack.len() < 3 {
            return Err(PickleError::StackUnderflow);
        }
        let value = match self.stack.pop() {
            Some(v) => v,
            None => unreached(),
        };
        let key = match self.stack.pop() {
            Some(v) => v,
            None => unreached(),
        };
        let mut target = match self.stack.pop() {
            Some(v) => v,
            None => unreached(),
        };
        proof {
            assert(values_model(self.stack@) =~= old(self)@.stack.subrange(
                0,
                old(self)@.stack.len() - 3,
            ));
        }
        match target.set_item(key, value) {
            Ok(_) => {
                self.push_value(target);
                proof {
                    assert(self@ =~= step_spec(old(self)@, OpModel::SetItem).0);
                }
                Ok(false)
            },
            Err(e) => {
                self.push_value(target);
                proof {
                    assert(old(self)@.stack.subrange(0, old(self)@.stack.len() - 3).push(
                        old(self)@.stack[old(self)@.stack.len() - 3],
                    ) =~= old(self)@.stack.subrange(0, old(self)@.stack.len() - 2));
                    assert(self@ =~= step_spec(old(self)@, OpModel::SetItem).0);
                }
                Err(e)
            },
        }
    }

    /// Assigns the key/value run accumulated since the matching MARK into
    /// the container beneath it.
    fn do_set_items(&mut self) -> (r: Result<bool, PickleError>)
        requires
            old(self)@.stop_value is None,
        ensures
            final(self)@ == step_spec(old(self)@, OpModel::SetItems).0,
            r == step_spec(old(self)@, OpModel::SetItems).1,
    {
        if self.metastack.len() == 0 {
            return Err(PickleError::UnpairedMark);
        }
        let items = self.pop_mark();
        if items.len() % 2 != 0 {
            return Err(PickleError::OddItemCount);
        }
        if self.stack.len() == 0 {
            return Err(PickleError::StackUnderflow);
        }
        let mut target = match self.stack.pop() {
            Some(v) => v,
            None => unreached(),
        };
        proof {
            assert(values_model(self.stack@) =~= old(self)@.metastack.last().drop_last());
        }
        let ghost items_m = values_model(items@);
        let pairs = pair_up(items);
        proof {
            assert(pairs_model(pairs@) =~= seq_to_pairs(items_m));
        }
        match target.set_items(pairs) {
            Ok(_) => {
                self.push_value(target);
                proof {
                    assert(self@ =~= step_spec(old(self)@, OpModel::SetItems).0);
                }
                Ok(false)
            },
            Err(e) => {
                self.push_value(target);
                proof {
                    assert(old(self)@.metastack.last().drop_last().push(
                        old(self)@.metastack.last().last(),
                    ) =~= old(self)@.metastack.last());
                    assert(self@ =~= step_spec(old(self)@, OpModel::SetItems).0);
                }
                Err(e)
            },
        }
    }

    /// Appends the run accumulated since the matching MARK to the list
    /// beneath it.
    fn do_appends(&mut self) -> (r: Result<bool, PickleError>)
        requires
            old(self)@.stop_value is None,
        ensures
            final(self)@ == step_spec(old(self)@, OpModel::Appends).0,
            r == step_spec(old(self)@, OpModel::Appends).1,
    {
        if self.metastack.len() == 0 {
            return Err(PickleError::UnpairedMark);
        }
        let items = self.pop_mark();
        if self.stack.len() == 0 {
            return Err(PickleError::StackUnderflow);
        }
        let mut target = match self.stack.pop() {
            Some(v) => v,
            None => unreached(),
        };
        proof {
            assert(values_model(self.stack@) =~= old(self)@.metastack.last().drop_last());
        }
        match target.extend(items) {
            Ok(_) => {
                self.push_value(target);
                proof {
                    assert(self@ =~= step_spec(old(self)@, OpModel::Appends).0);
                }
                Ok(false)
            },
            Err(e) => {
                self.push_value(target);
                proof {
                    assert(old(self)@.metastack.last().drop_last().push(
                        old(self)@.metastack.last().last(),
                    ) =~= old(self)@.metastack.last());
                    assert(self@ =~= step_spec(old(self)@, OpModel::Appends).0);
                }
                Err(e)
            },
        }
    }

    /// Records a state application: BUILD never mutates a live object.
    fn do_build(&mut self) -> (r: Result<bool, PickleError>)
        requires
            old(self)@.stop_value is None,
        ensures
            final(self)@ == step_spec(old(self)@, OpModel::Build).0,
            r == step_spec(old(self)@, OpModel::Build).1,
    {
        if self.stack.len() < 2 {
            return Err(PickleError::StackUnderflow);
        }
        let state = match self.stack.pop() {
            Some(v) => v,
            None => unreached(),
        };
        let last = match self.stack.pop() {
            Some(v) => v,
            None => unreached(),
        };
        proof {
            assert(values_model(self.stack@) =~= old(self)@.stack.subrange(
                0,
                old(self)@.stack.len() - 2,
            ));
        }
        self.push_value(Value::SetState(Box::new(last), Box::new(state)));
        proof {
            assert(self@ =~= step_spec(old(self)@, OpModel::Build).0);
        }
        Ok(false)
    }

    /// The terminal instruction: pops the stream's result and refuses any
    /// further instruction for this stream.
    fn do_stop(&mut self) -> (r: Result<bool, PickleError>)
        requires
            old(self)@.stop_value is None,
        ensures
            final(self)@ == step_spec(old(self)@, OpModel::Stop).0,
            r == step_spec(old(self)@, OpModel::Stop).1,
    {
        if self.stack.len() == 0 {
            return Err(PickleError::StackUnderflow);
        }
        let val = match self.stack.pop() {
            Some(v) => v,
            None => unreached(),
        };
        self.stop_value = Some(val);
        proof {
            assert(values_model(self.stack@) =~= old(self)@.stack.drop_last());
            assert(self@ =~= step_spec(old(self)@, OpModel::Stop).0);
        }
        Ok(true)
    }

    /// The terminal value, once the terminal instruction has run.
    pub fn into_stop_value(self) -> (r: Option<Value>)
        ensures
            option_value_model(r) == self@.stop_value,
    {
        self.stop_value
    }
}

/// Decoding and interpreting a whole stream from `pos`: the terminal value
/// if the terminal instruction is reached (or the stream ends after it), or
/// the first classified failure.
pub open spec fn run_model(bytes: Seq<u8>, pos: int, s: InterpModel) -> Result<
    Option<ValueModel>,
    PickleError,
>
    decreases bytes.len() - pos,
    when 0 <= pos <= bytes.len()
{
    match decode_at(bytes, pos) {
        Err(e) => Err(e),
        Ok(None) => Ok(s.stop_value),
        Ok(Some((op, p2))) => {
            let (s2, r) = step_spec(s, op);
            match r {
                Err(e) => Err(e),
                Ok(true) => Ok(s2.stop_value),
                Ok(false) => {
                    proof {
                        lemma_decode_advances(bytes, pos);
                    }
                    run_model(bytes, p2, s2)
                },
            }
        },
    }
}

/// Decodes and interprets one whole stream: the terminal value, `None` if
/// the stream ends cleanly before its terminal instruction, or the first
/// classified failure — exactly as [`run_model`] gives it.
pub fn load(bytes: Vec<u8>) -> (r: Result<Option<Value>, PickleError>)
    ensures
        match r {
            Ok(v) => run_model(bytes@, 0, initial_model()) == Ok::<Option<ValueModel>, PickleError>(
                option_value_model(v),
            ),
            Err(e) => run_model(bytes@, 0, initial_model()) == Err::<
                Option<ValueModel>,
                PickleError,
            >(e),
        },
{
    let ghost b = bytes@;
    let mut reader = PickleReader::new(bytes);
    let mut interp = Interpreter::new();
    #[verifier::loop_isolation(false)]
    loop
        invariant
            reader.wf(),
            reader.bytes_model() == b,
            interp@.stop_value is None,
            run_model(b, reader.position(), interp@) == run_model(b, 0, initial_model()),
        decreases b.len() - reader.position(),
    {
        let ghost pos0 = reader.position();
        let ghost s0 = interp@;
        let op = match reader.get_next_op() {
            Err(e) => {
                return Err(e);
            },
            Ok(None) => {
                return Ok(None);
            },
            Ok(Some(op)) => op,
        };
        let ghost opm = op@;
        match interp.exec_op(op) {
            Err(e) => {
                return Err(e);
            },
            Ok(true) => {
                proof {
                    lemma_step_done_stop_some(s0, opm);
                }
                return Ok(interp.into_stop_value());
            },
            Ok(false) => {
                proof {
                    lemma_step_continue_stop_none(s0, opm);
                    lemma_decode_advances(b, pos0);
                }
            },
        }
    }
}

/// A step the machine accepts without terminating leaves the stream
/// unterminated: only the terminal instruction sets the terminal value.
pub proof fn lemma_step_continue_stop_none(s: InterpModel, op: OpModel)
    ensures
        step_spec(s, op).1 == Ok::<bool, PickleError>(false) ==> step_spec(s, op).0.stop_value
            is None,
        step_spec(s, op).1 == Ok::<bool, PickleError>(false) ==> s.stop_value is None,
{
}

/// A step that reports termination has produced the terminal value.
pub proof fn lemma_step_done_stop_some(s: InterpModel, op: OpModel)
    ensures
        step_spec(s, op).1 == Ok::<bool, PickleError>(true) ==> step_spec(s, op).0.stop_value
            is Some,
{
}

} // verus!
