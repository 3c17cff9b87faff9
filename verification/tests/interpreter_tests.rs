use safepickle::ast::Op;
use safepickle::error::PickleError;
use safepickle::interpreter::{load, ordered_dict_constructor, Interpreter};
use safepickle::value::{Constructor, Dict, Function, Global, OrderedDict, Value};

#[test]
fn memo_get_returns_what_put_stored() {
    let bytes = vec![
        0x4a, 5, 0, 0, 0, // BININT 5
        0x71, 7, // BINPUT 7
        0x28, // MARK
        0x68, 7, // BINGET 7
        0x68, 7, // BINGET 7
        0x74, // TUPLE
        0x2e, // STOP
    ];
    // The put did not pop, so the tuple is built from two copies and the
    // original 5 is left beneath the result on the saved stack.
    let result = load(bytes);
    assert_eq!(
        result,
        Ok(Some(Value::Tuple(vec![Value::I32(5), Value::I32(5)])))
    );
}

#[test]
fn memo_get_on_unwritten_index_fails() {
    let bytes = vec![0x68, 3, 0x2e];
    assert_eq!(load(bytes), Err(PickleError::MissingMemoEntry(3)));
}

#[test]
fn memo_put_stores_a_structurally_equal_copy_of_a_container() {
    let bytes = vec![
        0x7d, // EMPTY_DICT
        0x71, 0, // BINPUT 0
        0x6a, 0, 0, 0, 0, // LONG_BINGET 0
        0x2e, // STOP
    ];
    assert_eq!(load(bytes), Ok(Some(Value::Dict(Dict(Vec::new())))));
}

#[test]
fn mark_consumer_without_open_mark_fails() {
    assert_eq!(load(vec![0x74]), Err(PickleError::UnpairedMark));
    assert_eq!(load(vec![0x7d, 0x75]), Err(PickleError::UnpairedMark));
    assert_eq!(load(vec![0x5d, 0x65]), Err(PickleError::UnpairedMark));
}

#[test]
fn appends_extends_the_list_beneath_the_mark() {
    let bytes = vec![
        0x5d, // EMPTY_LIST
        0x28, // MARK
        0x4b, 1, // BININT1 1
        0x4b, 2, // BININT1 2
        0x65, // APPENDS
        0x2e, // STOP
    ];
    assert_eq!(
        load(bytes),
        Ok(Some(Value::List(vec![Value::I32(1), Value::I32(2)])))
    );
}

#[test]
fn setitems_assigns_pairs_in_order_keeping_duplicates() {
    let bytes = vec![
        0x7d, // EMPTY_DICT
        0x28, // MARK
        0x4b, 1, 0x4b, 10, // 1 -> 10
        0x4b, 1, 0x4b, 20, // 1 -> 20 (duplicate key is kept)
        0x75, // SETITEMS
        0x2e, // STOP
    ];
    let expected = Value::Dict(Dict(vec![
        (Value::I32(1), Value::I32(10)),
        (Value::I32(1), Value::I32(20)),
    ]));
    assert_eq!(load(bytes), Ok(Some(expected)));
}

#[test]
fn setitems_with_odd_run_fails() {
    let bytes = vec![0x7d, 0x28, 0x4b, 1, 0x75];
    assert_eq!(load(bytes), Err(PickleError::OddItemCount));
}

#[test]
fn setitem_assigns_one_pair_in_place() {
    let bytes = vec![
        0x7d, // EMPTY_DICT
        0x4b, 1, // key
        0x4b, 2, // value
        0x73, // SETITEM
        0x2e, // STOP
    ];
    let expected = Value::Dict(Dict(vec![(Value::I32(1), Value::I32(2))]));
    assert_eq!(load(bytes), Ok(Some(expected)));
}

#[test]
fn item_assignment_on_non_container_fails() {
    let bytes = vec![0x4b, 5, 0x4b, 1, 0x4b, 2, 0x73];
    assert_eq!(load(bytes), Err(PickleError::TypeMismatch));
    let bytes = vec![0x4b, 5, 0x28, 0x4b, 1, 0x65];
    assert_eq!(load(bytes), Err(PickleError::TypeMismatch));
}

#[test]
fn fixed_arity_tuple_needs_enough_operands() {
    assert_eq!(load(vec![0x85]), Err(PickleError::StackUnderflow));
    assert_eq!(load(vec![0x4b, 1, 0x86]), Err(PickleError::StackUnderflow));
}

#[test]
fn terminal_instruction_on_empty_stack_fails() {
    assert_eq!(load(vec![0x2e]), Err(PickleError::StackUnderflow));
}

#[test]
fn fixed_arity_tuples_preserve_operand_order() {
    let bytes = vec![0x4b, 1, 0x4b, 2, 0x4b, 3, 0x87, 0x2e];
    assert_eq!(
        load(bytes),
        Ok(Some(Value::Tuple(vec![
            Value::I32(1),
            Value::I32(2),
            Value::I32(3)
        ])))
    );
}

#[test]
fn registered_constructor_with_wrong_arguments_fails() {
    let mut bytes = vec![0x63];
    bytes.extend_from_slice(b"collections\n");
    bytes.extend_from_slice(b"OrderedDict\n");
    bytes.extend_from_slice(&[0x4b, 1]); // BININT1 1
    bytes.push(0x85); // TUPLE1
    bytes.push(0x52); // REDUCE
    assert_eq!(load(bytes), Err(PickleError::ArgumentMismatch));
}

#[test]
fn no_instruction_is_accepted_after_the_terminal_one() {
    let mut interp = Interpreter::new();
    assert_eq!(interp.exec_op(Op::True), Ok(false));
    assert_eq!(interp.exec_op(Op::Stop), Ok(true));
    assert_eq!(
        interp.exec_op(Op::True),
        Err(PickleError::StreamAlreadyTerminated)
    );
    assert_eq!(
        interp.exec_op(Op::EmptyDict),
        Err(PickleError::StreamAlreadyTerminated)
    );
    assert_eq!(interp.into_stop_value(), Some(Value::Bool(true)));
}

#[test]
fn persistent_references_are_wrapped_not_resolved() {
    let bytes = vec![0x4b, 9, 0x51, 0x2e];
    assert_eq!(
        load(bytes),
        Ok(Some(Value::PersistentLoad(Box::new(Value::I32(9)))))
    );
}

#[test]
fn build_records_the_state_application() {
    let bytes = vec![0x7d, 0x4b, 1, 0x62, 0x2e];
    assert_eq!(
        load(bytes),
        Ok(Some(Value::SetState(
            Box::new(Value::Dict(Dict(Vec::new()))),
            Box::new(Value::I32(1))
        )))
    );
}

#[test]
fn additional_constructors_can_be_registered() {
    let mut interp = Interpreter::new();
    interp.set_global(
        Global {
            module: "mymod".to_string(),
            name: "make".to_string(),
        },
        Value::Function(Function::from_fn("make".to_string(), Constructor::OrderedDict)),
    );
    assert_eq!(
        interp.exec_op(Op::Global("mymod".to_string(), "make".to_string())),
        Ok(false)
    );
    assert_eq!(interp.exec_op(Op::TupleN(0)), Ok(false));
    assert_eq!(interp.exec_op(Op::Reduce), Ok(false));
    assert_eq!(interp.exec_op(Op::Stop), Ok(true));
    assert_eq!(
        interp.into_stop_value(),
        Some(Value::OrderedDict(OrderedDict(Vec::new())))
    );
}

#[test]
fn later_registration_under_the_same_path_wins() {
    let mut interp = Interpreter::new();
    interp.set_global(
        Global {
            module: "collections".to_string(),
            name: "OrderedDict".to_string(),
        },
        Value::I32(42),
    );
    assert_eq!(
        interp.exec_op(Op::Global(
            "collections".to_string(),
            "OrderedDict".to_string()
        )),
        Ok(false)
    );
    assert_eq!(interp.exec_op(Op::Stop), Ok(true));
    assert_eq!(interp.into_stop_value(), Some(Value::I32(42)));
}

#[test]
fn ordered_dict_constructor_accepts_only_the_empty_tuple() {
    assert_eq!(
        ordered_dict_constructor(Value::Tuple(Vec::new())),
        Ok(Value::OrderedDict(OrderedDict(Vec::new())))
    );
    assert_eq!(
        ordered_dict_constructor(Value::Tuple(vec![Value::I32(1)])),
        Err(PickleError::ArgumentMismatch)
    );
    assert_eq!(
        ordered_dict_constructor(Value::I32(1)),
        Err(PickleError::ArgumentMismatch)
    );
}

#[test]
fn function_call_dispatches_to_its_constructor() {
    let f = Function::from_fn("OrderedDict".to_string(), Constructor::OrderedDict);
    assert_eq!(
        f.call(Value::Tuple(Vec::new())),
        Ok(Value::OrderedDict(OrderedDict(Vec::new())))
    );
    assert_eq!(f.call(Value::Bool(true)), Err(PickleError::ArgumentMismatch));
}

#[test]
fn deep_clone_copies_a_nested_value_structurally() {
    let v = Value::Dict(Dict(vec![
        (
            Value::String("k".to_string()),
            Value::Tuple(vec![Value::Bool(true), Value::List(vec![Value::I32(3)])]),
        ),
        (
            Value::Global(Global {
                module: "m".to_string(),
                name: "n".to_string(),
            }),
            Value::PersistentLoad(Box::new(Value::U32(7))),
        ),
    ]));
    let copy = v.deep_clone();
    assert_eq!(copy, v);
}

#[test]
fn set_item_and_extend_mutate_in_place_or_fail() {
    let mut d = Value::OrderedDict(OrderedDict(Vec::new()));
    assert_eq!(d.set_item(Value::I32(1), Value::Bool(false)), Ok(()));
    assert_eq!(
        d,
        Value::OrderedDict(OrderedDict(vec![(Value::I32(1), Value::Bool(false))]))
    );
    let mut l = Value::List(vec![Value::I32(1)]);
    assert_eq!(l.extend(vec![Value::I32(2)]), Ok(()));
    assert_eq!(l, Value::List(vec![Value::I32(1), Value::I32(2)]));
    let mut t = Value::Bool(true);
    assert_eq!(
        t.set_items(vec![(Value::I32(1), Value::I32(2))]),
        Err(PickleError::TypeMismatch)
    );
    assert_eq!(t, Value::Bool(true));
}

#[test]
fn protocol_framing_is_a_no_op() {
    let mut interp = Interpreter::new();
    assert_eq!(interp.exec_op(Op::Proto(2)), Ok(false));
    assert_eq!(interp.exec_op(Op::False), Ok(false));
    assert_eq!(interp.exec_op(Op::Stop), Ok(true));
    assert_eq!(interp.into_stop_value(), Some(Value::Bool(false)));
}

#[test]
fn value_conversions_normalize_integer_widths() {
    assert_eq!(Value::from(5i32), Value::I32(5));
    assert_eq!(Value::from(-1i8), Value::I32(-1));
    assert_eq!(Value::from(-2i16), Value::I32(-2));
    assert_eq!(Value::from(true), Value::Bool(true));
    assert_eq!(Value::from("x".to_string()), Value::String("x".to_string()));
    assert_eq!(
        Value::from(Function::from_fn("f".to_string(), Constructor::OrderedDict)),
        Value::Function(Function::from_fn("f".to_string(), Constructor::OrderedDict))
    );
}
