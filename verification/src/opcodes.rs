use vstd::prelude::*;

verus! {

/// The closed catalog of wire opcodes.
///
/// Every byte that may begin an instruction is listed here; a byte matching
/// none of them is rejected at decode time with
/// [`PickleError::UnrecognizedOpcode`](crate::error::PickleError).
#[derive(Debug, Clone, Copy, PartialEq, Eq, Structural)]
pub enum OpCode {
    Mark,
    Stop,
    Pop,
    PopMark,
    Dup,
    Float,
    Int,
    Binint,
    Binint1,
    Long,
    Binint2,
    NoneOp,
    Persid,
    Binpersid,
    Reduce,
    String,
    Binstring,
    ShortBinstring,
    Unicode,
    Binunicode,
    Append,
    Build,
    Global,
    Dict,
    EmptyDict,
    Appends,
    Get,
    Binget,
    Inst,
    LongBinget,
    List,
    EmptyList,
    Obj,
    Put,
    Binput,
    LongBinput,
    Setitem,
    Tuple,
    EmptyTuple,
    Setitems,
    Binfloat,
    Proto,
    Newobj,
    Ext1,
    Ext2,
    Ext4,
    Tuple1,
    Tuple2,
    Tuple3,
    Newtrue,
    Newfalse,
    Long1,
    Long4,
    Binbytes,
    ShortBinbytes,
    ShortBinunicode,
    Binunicode8,
    Binbytes8,
    EmptySet,
    Additems,
    Frozenset,
    NewobjEx,
    StackGlobal,
    Memoize,
    Frame,
    Bytearray8,
    NextBuffer,
    ReadonlyBuffer,
}

/// The wire byte that selects each opcode.
pub open spec fn opcode_wire_byte(code: OpCode) -> u8 {
    match code {
        OpCode::Mark => 0x28,
        OpCode::Stop => 0x2e,
        OpCode::Pop => 0x30,
        OpCode::PopMark => 0x31,
        OpCode::Dup => 0x32,
        OpCode::Float => 0x46,
        OpCode::Int => 0x49,
        OpCode::Binint => 0x4a,
        OpCode::Binint1 => 0x4b,
        OpCode::Long => 0x4c,
        OpCode::Binint2 => 0x4d,
        OpCode::NoneOp => 0x4e,
        OpCode::Persid => 0x50,
        OpCode::Binpersid => 0x51,
        OpCode::Reduce => 0x52,
        OpCode::String => 0x53,
        OpCode::Binstring => 0x54,
        OpCode::ShortBinstring => 0x55,
        OpCode::Unicode => 0x56,
        OpCode::Binunicode => 0x58,
        OpCode::Append => 0x61,
        OpCode::Build => 0x62,
        OpCode::Global => 0x63,
        OpCode::Dict => 0x64,
        OpCode::EmptyDict => 0x7d,
        OpCode::Appends => 0x65,
        OpCode::Get => 0x67,
        OpCode::Binget => 0x68,
        OpCode::Inst => 0x69,
        OpCode::LongBinget => 0x6a,
        OpCode::List => 0x6c,
        OpCode::EmptyList => 0x5d,
        OpCode::Obj => 0x6f,
        OpCode::Put => 0x70,
        OpCode::Binput => 0x71,
        OpCode::LongBinput => 0x72,
        OpCode::Setitem => 0x73,
        OpCode::Tuple => 0x74,
        OpCode::EmptyTuple => 0x29,
        OpCode::Setitems => 0x75,
        OpCode::Binfloat => 0x47,
        OpCode::Proto => 0x80,
        OpCode::Newobj => 0x81,
        OpCode::Ext1 => 0x82,
        OpCode::Ext2 => 0x83,
        OpCode::Ext4 => 0x84,
        OpCode::Tuple1 => 0x85,
        OpCode::Tuple2 => 0x86,
        OpCode::Tuple3 => 0x87,
        OpCode::Newtrue => 0x88,
        OpCode::Newfalse => 0x89,
        OpCode::Long1 => 0x8a,
        OpCode::Long4 => 0x8b,
        OpCode::Binbytes => 0x42,
        OpCode::ShortBinbytes => 0x43,
        OpCode::ShortBinunicode => 0x8c,
        OpCode::Binunicode8 => 0x8d,
        OpCode::Binbytes8 => 0x8e,
        OpCode::EmptySet => 0x8f,
        OpCode::Additems => 0x90,
        OpCode::Frozenset => 0x91,
        OpCode::NewobjEx => 0x92,
        OpCode::StackGlobal => 0x93,
        OpCode::Memoize => 0x94,
        OpCode::Frame => 0x95,
        OpCode::Bytearray8 => 0x96,
        OpCode::NextBuffer => 0x97,
        OpCode::ReadonlyBuffer => 0x98,
    }
}

/// The catalog as a total table: the opcode whose wire byte is `b`, if any.
pub open spec fn opcode_for_byte(b: u8) -> Option<OpCode> {
    match b {
        0x28 => Some(OpCode::Mark),
        0x2e => Some(OpCode::Stop),
        0x30 => Some(OpCode::Pop),
        0x31 => Some(OpCode::PopMark),
        0x32 => Some(OpCode::Dup),
        0x46 => Some(OpCode::Float),
        0x49 => Some(OpCode::Int),
        0x4a => Some(OpCode::Binint),
        0x4b => Some(OpCode::Binint1),
        0x4c => Some(OpCode::Long),
        0x4d => Some(OpCode::Binint2),
        0x4e => Some(OpCode::NoneOp),
        0x50 => Some(OpCode::Persid),
        0x51 => Some(OpCode::Binpersid),
        0x52 => Some(OpCode::Reduce),
        0x53 => Some(OpCode::String),
        0x54 => Some(OpCode::Binstring),
        0x55 => Some(OpCode::ShortBinstring),
        0x56 => Some(OpCode::Unicode),
        0x58 => Some(OpCode::Binunicode),
        0x61 => Some(OpCode::Append),
        0x62 => Some(OpCode::Build),
        0x63 => Some(OpCode::Global),
        0x64 => Some(OpCode::Dict),
        0x7d => Some(OpCode::EmptyDict),
        0x65 => Some(OpCode::Appends),
        0x67 => Some(OpCode::Get),
        0x68 => Some(OpCode::Binget),
        0x69 => Some(OpCode::Inst),
        0x6a => Some(OpCode::LongBinget),
        0x6c => Some(OpCode::List),
        0x5d => Some(OpCode::EmptyList),
        0x6f => Some(OpCode::Obj),
        0x70 => Some(OpCode::Put),
        0x71 => Some(OpCode::Binput),
        0x72 => Some(OpCode::LongBinput),
        0x73 => Some(OpCode::Setitem),
        0x74 => Some(OpCode::Tuple),
        0x29 => Some(OpCode::EmptyTuple),
        0x75 => Some(OpCode::Setitems),
        0x47 => Some(OpCode::Binfloat),
        0x80 => Some(OpCode::Proto),
        0x81 => Some(OpCode::Newobj),
        0x82 => Some(OpCode::Ext1),
        0x83 => Some(OpCode::Ext2),
        0x84 => Some(OpCode::Ext4),
        0x85 => Some(OpCode::Tuple1),
        0x86 => Some(OpCode::Tuple2),
        0x87 => Some(OpCode::Tuple3),
        0x88 => Some(OpCode::Newtrue),
        0x89 => Some(OpCode::Newfalse),
        0x8a => Some(OpCode::Long1),
        0x8b => Some(OpCode::Long4),
        0x42 => Some(OpCode::Binbytes),
        0x43 => Some(OpCode::ShortBinbytes),
        0x8c => Some(OpCode::ShortBinunicode),
        0x8d => Some(OpCode::Binunicode8),
        0x8e => Some(OpCode::Binbytes8),
        0x8f => Some(OpCode::EmptySet),
        0x90 => Some(OpCode::Additems),
        0x91 => Some(OpCode::Frozenset),
        0x92 => Some(OpCode::NewobjEx),
        0x93 => Some(OpCode::StackGlobal),
        0x94 => Some(OpCode::Memoize),
        0x95 => Some(OpCode::Frame),
        0x96 => Some(OpCode::Bytearray8),
        0x97 => Some(OpCode::NextBuffer),
        0x98 => Some(OpCode::ReadonlyBuffer),
        _ => None,
    }
}

/// Resolves a raw wire byte against the catalog.
///
/// Total over the byte domain: every byte either names its opcode or yields
/// `None`, never a panic.
pub fn opcode_from_byte(b: u8) -> (r: Option<OpCode>)
    ensures
        r == opcode_for_byte(b),
        r matches Some(code) ==> opcode_wire_byte(code) == b,
        r is None ==> forall|code: OpCode| opcode_wire_byte(code) != b,
{
    match b {
        0x28 => Some(OpCode::Mark),
        0x2e => Some(OpCode::Stop),
        0x30 => Some(OpCode::Pop),
        0x31 => Some(OpCode::PopMark),
        0x32 => Some(OpCode::Dup),
        0x46 => Some(OpCode::Float),
        0x49 => Some(OpCode::Int),
        0x4a => Some(OpCode::Binint),
        0x4b => Some(OpCode::Binint1),
        0x4c => Some(OpCode::Long),
        0x4d => Some(OpCode::Binint2),
        0x4e => Some(OpCode::NoneOp),
        0x50 => Some(OpCode::Persid),
        0x51 => Some(OpCode::Binpersid),
        0x52 => Some(OpCode::Reduce),
        0x53 => Some(OpCode::String),
        0x54 => Some(OpCode::Binstring),
        0x55 => Some(OpCode::ShortBinstring),
        0x56 => Some(OpCode::Unicode),
        0x58 => Some(OpCode::Binunicode),
        0x61 => Some(OpCode::Append),
        0x62 => Some(OpCode::Build),
        0x63 => Some(OpCode::Global),
        0x64 => Some(OpCode::Dict),
        0x7d => Some(OpCode::EmptyDict),
        0x65 => Some(OpCode::Appends),
        0x67 => Some(OpCode::Get),
        0x68 => Some(OpCode::Binget),
        0x69 => Some(OpCode::Inst),
        0x6a => Some(OpCode::LongBinget),
        0x6c => Some(OpCode::List),
        0x5d => Some(OpCode::EmptyList),
        0x6f => Some(OpCode::Obj),
        0x70 => Some(OpCode::Put),
        0x71 => Some(OpCode::Binput),
        0x72 => Some(OpCode::LongBinput),
        0x73 => Some(OpCode::Setitem),
        0x74 => Some(OpCode::Tuple),
        0x29 => Some(OpCode::EmptyTuple),
        0x75 => Some(OpCode::Setitems),
        0x47 => Some(OpCode::Binfloat),
        0x80 => Some(OpCode::Proto),
        0x81 => Some(OpCode::Newobj),
        0x82 => Some(OpCode::Ext1),
        0x83 => Some(OpCode::Ext2),
        0x84 => Some(OpCode::Ext4),
        0x85 => Some(OpCode::Tuple1),
        0x86 => Some(OpCode::Tuple2),
        0x87 => Some(OpCode::Tuple3),
        0x88 => Some(OpCode::Newtrue),
        0x89 => Some(OpCode::Newfalse),
        0x8a => Some(OpCode::Long1),
        0x8b => Some(OpCode::Long4),
        0x42 => Some(OpCode::Binbytes),
        0x43 => Some(OpCode::ShortBinbytes),
        0x8c => Some(OpCode::ShortBinunicode),
        0x8d => Some(OpCode::Binunicode8),
        0x8e => Some(OpCode::Binbytes8),
        0x8f => Some(OpCode::EmptySet),
        0x90 => Some(OpCode::Additems),
        0x91 => Some(OpCode::Frozenset),
        0x92 => Some(OpCode::NewobjEx),
        0x93 => Some(OpCode::StackGlobal),
        0x94 => Some(OpCode::Memoize),
        0x95 => Some(OpCode::Frame),
        0x96 => Some(OpCode::Bytearray8),
        0x97 => Some(OpCode::NextBuffer),
        0x98 => Some(OpCode::ReadonlyBuffer),
        _ => None,
    }
}

} // verus!
