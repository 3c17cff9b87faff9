use safepickle::ast::Op;
use safepickle::decoder::PickleReader;
use safepickle::error::PickleError;
use safepickle::opcodes::OpCode;

fn decode_all(bytes: Vec<u8>) -> Vec<Result<Option<Op>, PickleError>> {
    let mut reader = PickleReader::new(bytes);
    let mut out = Vec::new();
    loop {
        let step = reader.get_next_op();
        let done = !matches!(step, Ok(Some(_)));
        out.push(step);
        if done {
            return out;
        }
    }
}

#[test]
fn redecoding_the_same_bytes_yields_equal_instruction_sequences() {
    let bytes = vec![
        0x80, 2, 0x28, 0x4a, 4, 3, 2, 1, 0x4b, 0xff, 0x4d, 0x2c, 1, 0x58, 2, 0, 0, 0, 0xc3,
        0xa9, 0x74, 0x2e,
    ];
    let first = decode_all(bytes.clone());
    let second = decode_all(bytes);
    assert_eq!(first, second);
}

#[test]
fn binint_is_four_bytes_little_endian_signed() {
    let mut reader = PickleReader::new(vec![0x4a, 4, 3, 2, 1]);
    assert_eq!(reader.get_next_op(), Ok(Some(Op::BinInt(0x01020304))));
    let mut reader = PickleReader::new(vec![0x4a, 0xff, 0xff, 0xff, 0xff]);
    assert_eq!(reader.get_next_op(), Ok(Some(Op::BinInt(-1))));
}

#[test]
fn binint2_is_two_bytes_little_endian_signed() {
    let mut reader = PickleReader::new(vec![0x4d, 0x2c, 1]);
    assert_eq!(reader.get_next_op(), Ok(Some(Op::BinInt2(300))));
    let mut reader = PickleReader::new(vec![0x4d, 0xff, 0xff]);
    assert_eq!(reader.get_next_op(), Ok(Some(Op::BinInt2(-1))));
}

#[test]
fn binint1_is_one_signed_byte() {
    let mut reader = PickleReader::new(vec![0x4b, 0x7f]);
    assert_eq!(reader.get_next_op(), Ok(Some(Op::BinInt1(127))));
    let mut reader = PickleReader::new(vec![0x4b, 0x80]);
    assert_eq!(reader.get_next_op(), Ok(Some(Op::BinInt1(-128))));
    let mut reader = PickleReader::new(vec![0x4b, 0xff]);
    assert_eq!(reader.get_next_op(), Ok(Some(Op::BinInt1(-1))));
}

#[test]
fn long_binput_and_binget_read_unsigned_little_endian_indices() {
    let mut reader = PickleReader::new(vec![0x72, 0x01, 0x02, 0, 0, 0x6a, 0x10, 0, 0, 0]);
    assert_eq!(reader.get_next_op(), Ok(Some(Op::LongBInput(0x0201))));
    assert_eq!(reader.get_next_op(), Ok(Some(Op::LongBinGet(0x10))));
}

#[test]
fn binunicode_decodes_length_prefixed_utf8() {
    let mut bytes = vec![0x58, 6, 0, 0, 0];
    bytes.extend_from_slice("h\u{e9}llo".as_bytes());
    let mut reader = PickleReader::new(bytes);
    assert_eq!(
        reader.get_next_op(),
        Ok(Some(Op::Binunicode("h\u{e9}llo".to_string())))
    );
}

#[test]
fn binunicode_rejects_malformed_utf8() {
    let bytes = vec![0x58, 2, 0, 0, 0, 0xff, 0xfe];
    let mut reader = PickleReader::new(bytes);
    assert_eq!(reader.get_next_op(), Err(PickleError::InvalidEncoding));
}

#[test]
fn global_reads_two_newline_terminated_lines() {
    let mut bytes = vec![0x63];
    bytes.extend_from_slice(b"collections\n");
    bytes.extend_from_slice(b"OrderedDict\n");
    let mut reader = PickleReader::new(bytes);
    assert_eq!(
        reader.get_next_op(),
        Ok(Some(Op::Global(
            "collections".to_string(),
            "OrderedDict".to_string()
        )))
    );
}

#[test]
fn global_without_terminating_newline_is_truncation() {
    let mut bytes = vec![0x63];
    bytes.extend_from_slice(b"os");
    let mut reader = PickleReader::new(bytes);
    assert_eq!(reader.get_next_op(), Err(PickleError::UnexpectedEof));
}

#[test]
fn truncated_payload_is_unexpected_eof() {
    let mut reader = PickleReader::new(vec![0x4a, 1, 2]);
    assert_eq!(reader.get_next_op(), Err(PickleError::UnexpectedEof));
    let mut reader = PickleReader::new(vec![0x80]);
    assert_eq!(reader.get_next_op(), Err(PickleError::UnexpectedEof));
    let mut reader = PickleReader::new(vec![0x58, 5, 0, 0, 0, b'a']);
    assert_eq!(reader.get_next_op(), Err(PickleError::UnexpectedEof));
}

#[test]
fn end_of_stream_at_instruction_boundary_is_clean() {
    let mut reader = PickleReader::new(Vec::new());
    assert_eq!(reader.get_next_op(), Ok(None));
    let mut reader = PickleReader::new(vec![0x88]);
    assert_eq!(reader.get_next_op(), Ok(Some(Op::True)));
    assert_eq!(reader.get_next_op(), Ok(None));
}

#[test]
fn byte_outside_the_catalog_is_rejected() {
    let mut reader = PickleReader::new(vec![0x00]);
    assert_eq!(reader.get_next_op(), Err(PickleError::UnrecognizedOpcode(0x00)));
    let mut reader = PickleReader::new(vec![0xff]);
    assert_eq!(reader.get_next_op(), Err(PickleError::UnrecognizedOpcode(0xff)));
}

#[test]
fn catalogued_but_uninterpreted_opcode_is_an_explicit_failure() {
    let mut reader = PickleReader::new(vec![0x4e]);
    assert_eq!(
        reader.get_next_op(),
        Err(PickleError::UnsupportedOpcode(OpCode::NoneOp))
    );
    let mut reader = PickleReader::new(vec![0x95, 1, 2, 3]);
    assert_eq!(
        reader.get_next_op(),
        Err(PickleError::UnsupportedOpcode(OpCode::Frame))
    );
}

#[test]
fn tuple_arity_shortcuts_decode_to_their_arity() {
    let mut reader = PickleReader::new(vec![0x29, 0x85, 0x86, 0x87, 0x74]);
    assert_eq!(reader.get_next_op(), Ok(Some(Op::TupleN(0))));
    assert_eq!(reader.get_next_op(), Ok(Some(Op::TupleN(1))));
    assert_eq!(reader.get_next_op(), Ok(Some(Op::TupleN(2))));
    assert_eq!(reader.get_next_op(), Ok(Some(Op::TupleN(3))));
    assert_eq!(reader.get_next_op(), Ok(Some(Op::Tuple)));
}

#[test]
fn payloadless_opcodes_decode_directly() {
    let mut reader = PickleReader::new(vec![
        0x28, 0x7d, 0x5d, 0x88, 0x89, 0x51, 0x52, 0x73, 0x75, 0x65, 0x62, 0x2e,
    ]);
    assert_eq!(reader.get_next_op(), Ok(Some(Op::Mark)));
    assert_eq!(reader.get_next_op(), Ok(Some(Op::EmptyDict)));
    assert_eq!(reader.get_next_op(), Ok(Some(Op::EmptyList)));
    assert_eq!(reader.get_next_op(), Ok(Some(Op::True)));
    assert_eq!(reader.get_next_op(), Ok(Some(Op::False)));
    assert_eq!(reader.get_next_op(), Ok(Some(Op::BinPersId)));
    assert_eq!(reader.get_next_op(), Ok(Some(Op::Reduce)));
    assert_eq!(reader.get_next_op(), Ok(Some(Op::SetItem)));
    assert_eq!(reader.get_next_op(), Ok(Some(Op::SetItems)));
    assert_eq!(reader.get_next_op(), Ok(Some(Op::Appends)));
    assert_eq!(reader.get_next_op(), Ok(Some(Op::Build)));
    assert_eq!(reader.get_next_op(), Ok(Some(Op::Stop)));
}

#[test]
fn proto_carries_its_version_byte() {
    let mut reader = PickleReader::new(vec![0x80, 4]);
    assert_eq!(reader.get_next_op(), Ok(Some(Op::Proto(4))));
}
