use safepickle::error::PickleError;
use safepickle::interpreter::load;
use safepickle::value::{Dict, Global, OrderedDict, Value};

#[test]
fn proto_empty_dict_stop_yields_empty_dict() {
    let bytes = vec![0x80, 2, 0x7d, 0x2e];
    let result = load(bytes);
    assert_eq!(result, Ok(Some(Value::Dict(Dict(Vec::new())))));
}

#[test]
fn mark_two_ints_tuple_stop_yields_pair() {
    let bytes = vec![
        0x28, // MARK
        0x4a, 1, 0, 0, 0, // BININT 1
        0x4a, 2, 0, 0, 0, // BININT 2
        0x74, // TUPLE
        0x2e, // STOP
    ];
    let result = load(bytes);
    assert_eq!(result, Ok(Some(Value::Tuple(vec![Value::I32(1), Value::I32(2)]))));
}

#[test]
fn registered_ordered_dict_constructor_runs() {
    let mut bytes = vec![0x63]; // GLOBAL
    bytes.extend_from_slice(b"collections\n");
    bytes.extend_from_slice(b"OrderedDict\n");
    bytes.push(0x29); // EMPTY_TUPLE as args
    bytes.push(0x52); // REDUCE
    bytes.push(0x2e); // STOP
    let result = load(bytes);
    assert_eq!(result, Ok(Some(Value::OrderedDict(OrderedDict(Vec::new())))));
}

#[test]
fn unregistered_call_is_captured_not_executed() {
    let mut bytes = vec![0x63]; // GLOBAL
    bytes.extend_from_slice(b"os\n");
    bytes.extend_from_slice(b"system\n");
    bytes.push(0x58); // BINUNICODE
    bytes.extend_from_slice(&[8, 0, 0, 0]);
    bytes.extend_from_slice(b"rm -rf /");
    bytes.push(0x85); // TUPLE1
    bytes.push(0x52); // REDUCE
    bytes.push(0x2e); // STOP
    let result = load(bytes);
    let expected = Value::Reduce(
        Box::new(Value::Global(Global {
            module: "os".to_string(),
            name: "system".to_string(),
        })),
        Box::new(Value::Tuple(vec![Value::String("rm -rf /".to_string())])),
    );
    assert_eq!(result, Ok(Some(expected)));
}

#[test]
fn unknown_opcode_byte_fails_and_other_streams_are_unaffected() {
    let bad = vec![0x21];
    assert_eq!(load(bad), Err(PickleError::UnrecognizedOpcode(0x21)));
    // A fresh decoder and interpreter for the next stream are untouched by
    // the failure of the previous one.
    let good = vec![0x80, 2, 0x7d, 0x2e];
    assert_eq!(load(good), Ok(Some(Value::Dict(Dict(Vec::new())))));
}

#[test]
fn small_object_graph_round_trips_with_normalized_integers() {
    // The wire bytes a pickle writer emits for {"a": 1, "weights": (True, -2)},
    // with the protocol-2 opcode subset this library interprets.
    let mut bytes = vec![0x80, 2];
    bytes.push(0x7d); // EMPTY_DICT
    bytes.extend_from_slice(&[0x71, 0]); // BINPUT 0
    bytes.push(0x28); // MARK
    bytes.push(0x58); // BINUNICODE "a"
    bytes.extend_from_slice(&[1, 0, 0, 0]);
    bytes.extend_from_slice(b"a");
    bytes.extend_from_slice(&[0x4b, 1]); // BININT1 1
    bytes.push(0x58); // BINUNICODE "weights"
    bytes.extend_from_slice(&[7, 0, 0, 0]);
    bytes.extend_from_slice(b"weights");
    bytes.push(0x88); // NEWTRUE
    bytes.push(0x4a); // BININT -2
    bytes.extend_from_slice(&[0xfe, 0xff, 0xff, 0xff]);
    bytes.push(0x86); // TUPLE2
    bytes.push(0x75); // SETITEMS
    bytes.push(0x2e); // STOP
    let result = load(bytes);
    // All integer widths collapse into the one signed-integer variant.
    let expected = Value::Dict(Dict(vec![
        (Value::String("a".to_string()), Value::I32(1)),
        (
            Value::String("weights".to_string()),
            Value::Tuple(vec![Value::Bool(true), Value::I32(-2)]),
        ),
    ]));
    assert_eq!(result, Ok(Some(expected)));
}

#[test]
fn stream_without_terminal_instruction_yields_no_value() {
    let bytes = vec![0x80, 2, 0x7d];
    assert_eq!(load(bytes), Ok(None));
}

#[test]
fn empty_stream_yields_no_value() {
    assert_eq!(load(Vec::new()), Ok(None));
}
