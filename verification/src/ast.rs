use vstd::prelude::*;

verus! {

/// One decoded instruction, with its operand payload already resolved into
/// its semantic type.
#[derive(Debug, PartialEq)]
pub enum Op {
    Proto(u8),
    Appends,
    EmptyDict,
    EmptyList,
    Mark,
    BInput(u8),
    LongBInput(u32),
    Binunicode(String),
    Global(String, String),
    BinInt(i32),
    BinInt1(i8),
    BinInt2(i16),
    BinGet(u8),
    BinPersId,
    LongBinGet(u32),
    Tuple,
    TupleN(u8),
    True,
    False,
    Reduce,
    SetItems,
    SetItem,
    Build,
    Stop,
}

/// The mathematical shape of an instruction: as [`Op`], with string payloads
/// abstracted to character sequences.
pub enum OpModel {
    Proto(u8),
    Appends,
    EmptyDict,
    EmptyList,
    Mark,
    BInput(u8),
    LongBInput(u32),
    Binunicode(Seq<char>),
    Global(Seq<char>, Seq<char>),
    BinInt(i32),
    BinInt1(i8),
    BinInt2(i16),
    BinGet(u8),
    BinPersId,
    LongBinGet(u32),
    Tuple,
    TupleN(u8),
    True,
    False,
    Reduce,
    SetItems,
    SetItem,
    Build,
    Stop,
}

impl View for Op {
    type V = OpModel;

    open spec fn view(&self) -> OpModel {
        match self {
            Op::Proto(v) => OpModel::Proto(*v),
            Op::Appends => OpModel::Appends,
            Op::EmptyDict => OpModel::EmptyDict,
            Op::EmptyList => OpModel::EmptyList,
            Op::Mark => OpModel::Mark,
            Op::BInput(i) => OpModel::BInput(*i),
            Op::LongBInput(i) => OpModel::LongBInput(*i),
            Op::Binunicode(s) => OpModel::Binunicode(s@),
            Op::Global(m, n) => OpModel::Global(m@, n@),
            Op::BinInt(v) => OpModel::BinInt(*v),
            Op::BinInt1(v) => OpModel::BinInt1(*v),
            Op::BinInt2(v) => OpModel::BinInt2(*v),
            Op::BinGet(i) => OpModel::BinGet(*i),
            Op::BinPersId => OpModel::BinPersId,
            Op::LongBinGet(i) => OpModel::LongBinGet(*i),
            Op::Tuple => OpModel::Tuple,
            Op::TupleN(n) => OpModel::TupleN(*n),
            Op::True => OpModel::True,
            Op::False => OpModel::False,
            Op::Reduce => OpModel::Reduce,
            Op::SetItems => OpModel::SetItems,
            Op::SetItem => OpModel::SetItem,
            Op::Build => OpModel::Build,
            Op::Stop => OpModel::Stop,
        }
    }
}

} // verus!
