use vstd::prelude::*;

use byteorder::ByteOrder;

use crate::ast::{Op, OpModel};
use crate::error::PickleError;
use crate::opcodes::{opcode_for_byte, opcode_from_byte, OpCode};

verus! {

/// The value of `n` little-endian bytes starting at `pos`, as a non-negative
/// integer: the byte at `pos` is least significant.
pub open spec fn le_bytes_val(bytes: Seq<u8>, pos: int, n: int) -> int
    decreases n,
{
    if n <= 0 {
        0
    } else {
        bytes[pos] + 256 * le_bytes_val(bytes, pos + 1, n - 1)
    }
}

/// The unsigned value of four little-endian bytes at `pos`.
pub open spec fn le_u32_val(bytes: Seq<u8>, pos: int) -> int {
    le_bytes_val(bytes, pos, 4)
}

/// The two's-complement signed value of four little-endian bytes at `pos`.
pub open spec fn le_i32_val(bytes: Seq<u8>, pos: int) -> int {
    let v = le_bytes_val(bytes, pos, 4);
    if v < 0x8000_0000 {
        v
    } else {
        v - 0x1_0000_0000
    }
}

/// The two's-complement signed value of two little-endian bytes at `pos`.
pub open spec fn le_i16_val(bytes: Seq<u8>, pos: int) -> int {
    let v = le_bytes_val(bytes, pos, 2);
    if v < 0x8000 {
        v
    } else {
        v - 0x1_0000
    }
}

/// The two's-complement signed value of one byte.
pub open spec fn i8_val(b: u8) -> int {
    if b < 0x80 {
        b as int
    } else {
        b - 0x100
    }
}

/// Relies on byteorder's `LittleEndian::read_u32`: the unsigned 32-bit value
/// of four little-endian bytes, least-significant byte first.
#[verifier::external_body]
fn read_le_u32(bytes: &Vec<u8>, pos: usize) -> (r: u32)
    requires
        pos + 4 <= bytes@.len(),
    ensures
        r as int == le_u32_val(bytes@, pos as int),
{
    byteorder::LittleEndian::read_u32(&bytes[pos..pos + 4])
}

/// Relies on byteorder's `LittleEndian::read_i32`: the two's-complement
/// signed 32-bit value of four little-endian bytes.
#[verifier::external_body]
fn read_le_i32(bytes: &Vec<u8>, pos: usize) -> (r: i32)
    requires
        pos + 4 <= bytes@.len(),
    ensures
        r as int == le_i32_val(bytes@, pos as int),
{
    byteorder::LittleEndian::read_i32(&bytes[pos..pos + 4])
}

/// Relies on byteorder's `LittleEndian::read_i16`: the two's-complement
/// signed 16-bit value of two little-endian bytes.
#[verifier::external_body]
fn read_le_i16(bytes: &Vec<u8>, pos: usize) -> (r: i16)
    requires
        pos + 2 <= bytes@.len(),
    ensures
        r as int == le_i16_val(bytes@, pos as int),
{
    byteorder::LittleEndian::read_i16(&bytes[pos..pos + 2])
}

/// Relies on std's `String::from_utf8`: it succeeds exactly on valid UTF-8,
/// and then the string holds the decoded characters of the bytes.
#[verifier::external_body]
fn string_from_utf8(bytes: Vec<u8>) -> (r: Option<String>)
    ensures
        match r {
            Some(s) => vstd::utf8::valid_utf8(bytes@) && s@ == vstd::utf8::decode_utf8(bytes@),
            None => !vstd::utf8::valid_utf8(bytes@),
        },
{
    String::from_utf8(bytes).ok()
}

/// The position of the first newline byte at or after `pos`, if any.
pub open spec fn newline_at(bytes: Seq<u8>, pos: int) -> Option<int>
    decreases bytes.len() - pos,
    when 0 <= pos <= bytes.len()
{
    if pos >= bytes.len() {
        None
    } else if bytes[pos] == 10 {
        Some(pos)
    } else {
        newline_at(bytes, pos + 1)
    }
}

/// One newline-terminated text line starting at `pos`: its decoded
/// characters (without the newline) and the position after the newline.
pub open spec fn line_at(bytes: Seq<u8>, pos: int) -> Result<(Seq<char>, int), PickleError> {
    match newline_at(bytes, pos) {
        None => Err(PickleError::UnexpectedEof),
        Some(nl) => {
            let content = bytes.subrange(pos, nl);
            if vstd::utf8::valid_utf8(content) {
                Ok((vstd::utf8::decode_utf8(content), nl + 1))
            } else {
                Err(PickleError::InvalidEncoding)
            }
        },
    }
}

/// The payload of an instruction whose opcode byte has already been read:
/// the decoded instruction and the position after its payload, or the
/// classified decode failure. `pos` is the first payload position.
pub open spec fn decode_payload(bytes: Seq<u8>, code: OpCode, pos: int) -> Result<
    Option<(OpModel, int)>,
    PickleError,
> {
    match code {
        OpCode::Proto => if pos + 1 <= bytes.len() {
            Ok(Some((OpModel::Proto(bytes[pos]), pos + 1)))
        } else {
            Err(PickleError::UnexpectedEof)
        },
        OpCode::EmptyDict => Ok(Some((OpModel::EmptyDict, pos))),
        OpCode::EmptyList => Ok(Some((OpModel::EmptyList, pos))),
        OpCode::Mark => Ok(Some((OpModel::Mark, pos))),
        OpCode::Binput => if pos + 1 <= bytes.len() {
            Ok(Some((OpModel::BInput(bytes[pos]), pos + 1)))
        } else {
            Err(PickleError::UnexpectedEof)
        },
        OpCode::LongBinput => if pos + 4 <= bytes.len() {
            Ok(Some((OpModel::LongBInput(le_u32_val(bytes, pos) as u32), pos + 4)))
        } else {
            Err(PickleError::UnexpectedEof)
        },
        OpCode::Binunicode => if pos + 4 <= bytes.len() {
            let n = le_u32_val(bytes, pos);
            if pos + 4 + n <= bytes.len() {
                let content = bytes.subrange(pos + 4, pos + 4 + n);
                if vstd::utf8::valid_utf8(content) {
                    Ok(Some((OpModel::Binunicode(vstd::utf8::decode_utf8(content)), pos + 4 + n)))
                } else {
                    Err(PickleError::InvalidEncoding)
                }
            } else {
                Err(PickleError::UnexpectedEof)
            }
        } else {
            Err(PickleError::UnexpectedEof)
        },
        OpCode::Global => match line_at(bytes, pos) {
            Err(e) => Err(e),
            Ok((module, p2)) => match line_at(bytes, p2) {
                Err(e) => Err(e),
                Ok((name, p3)) => Ok(Some((OpModel::Global(module, name), p3))),
            },
        },
        OpCode::Binint => if pos + 4 <= bytes.len() {
            Ok(Some((OpModel::BinInt(le_i32_val(bytes, pos) as i32), pos + 4)))
        } else {
            Err(PickleError::UnexpectedEof)
        },
        OpCode::Binint1 => if pos + 1 <= bytes.len() {
            Ok(Some((OpModel::BinInt1(i8_val(bytes[pos]) as i8), pos + 1)))
        } else {
            Err(PickleError::UnexpectedEof)
        },
        OpCode::Binint2 => if pos + 2 <= bytes.len() {
            Ok(Some((OpModel::BinInt2(le_i16_val(bytes, pos) as i16), pos + 2)))
        } else {
            Err(PickleError::UnexpectedEof)
        },
        OpCode::Binget => if pos + 1 <= bytes.len() {
            Ok(Some((OpModel::BinGet(bytes[pos]), pos + 1)))
        } else {
            Err(PickleError::UnexpectedEof)
        },
        OpCode::LongBinget => if pos + 4 <= bytes.len() {
            Ok(Some((OpModel::LongBinGet(le_u32_val(bytes, pos) as u32), pos + 4)))
        } else {
            Err(PickleError::UnexpectedEof)
        },
        OpCode::Tuple => Ok(Some((OpModel::Tuple, pos))),
        OpCode::EmptyTuple => Ok(Some((OpModel::TupleN(0), pos))),
        OpCode::Tuple1 => Ok(Some((OpModel::TupleN(1), pos))),
        OpCode::Tuple2 => Ok(Some((OpModel::TupleN(2), pos))),
        OpCode::Tuple3 => Ok(Some((OpModel::TupleN(3), pos))),
        OpCode::Newtrue => Ok(Some((OpModel::True, pos))),
        OpCode::Newfalse => Ok(Some((OpModel::False, pos))),
        OpCode::Binpersid => Ok(Some((OpModel::BinPersId, pos))),
        OpCode::Reduce => Ok(Some((OpModel::Reduce, pos))),
        OpCode::Setitems => Ok(Some((OpModel::SetItems, pos))),
        OpCode::Setitem => Ok(Some((OpModel::SetItem, pos))),
        OpCode::Appends => Ok(Some((OpModel::Appends, pos))),
        OpCode::Build => Ok(Some((OpModel::Build, pos))),
        OpCode::Stop => Ok(Some((OpModel::Stop, pos))),
        _ => Err(PickleError::UnsupportedOpcode(code)),
    }
}

/// One full decode step at `pos`: `Ok(None)` at a clean end of stream,
/// otherwise the instruction beginning at `pos` with the position after it,
/// or the classified decode failure.
pub open spec fn decode_at(bytes: Seq<u8>, pos: int) -> Result<
    Option<(OpModel, int)>,
    PickleError,
> {
    if pos >= bytes.len() {
        Ok(None)
    } else {
        match opcode_for_byte(bytes[pos]) {
            None => Err(PickleError::UnrecognizedOpcode(bytes[pos])),
            Some(code) => decode_payload(bytes, code, pos + 1),
        }
    }
}

/// Little-endian bytes denote a non-negative value.
pub proof fn lemma_le_bytes_val_nonneg(bytes: Seq<u8>, pos: int, n: int)
    ensures
        0 <= le_bytes_val(bytes, pos, n),
    decreases n,
{
    if n > 0 {
        lemma_le_bytes_val_nonneg(bytes, pos + 1, n - 1);
    }
}

pub proof fn lemma_newline_at_bounds(bytes: Seq<u8>, pos: int)
    requires
        0 <= pos <= bytes.len(),
    ensures
        newline_at(bytes, pos) matches Some(nl) ==> pos <= nl < bytes.len(),
    decreases bytes.len() - pos,
{
    if pos < bytes.len() && bytes[pos] != 10 {
        lemma_newline_at_bounds(bytes, pos + 1);
    }
}

pub proof fn lemma_line_at_advances(bytes: Seq<u8>, pos: int)
    requires
        0 <= pos <= bytes.len(),
    ensures
        line_at(bytes, pos) matches Ok(l) ==> pos < l.1 <= bytes.len(),
{
    lemma_newline_at_bounds(bytes, pos);
}

/// A successful decode step always advances the position, and never past the
/// end of the stream.
pub proof fn lemma_decode_advances(bytes: Seq<u8>, pos: int)
    requires
        0 <= pos <= bytes.len(),
    ensures
        decode_at(bytes, pos) matches Ok(Some(step)) ==> pos < step.1 <= bytes.len(),
{
    if pos < bytes.len() {
        match opcode_for_byte(bytes[pos]) {
            Some(code) => {
                if code is Binunicode {
                    lemma_le_bytes_val_nonneg(bytes, pos + 1, 4);
                }
                if code is Global {
                    lemma_line_at_advances(bytes, pos + 1);
                    match line_at(bytes, pos + 1) {
                        Ok(l) => {
                            lemma_line_at_advances(bytes, l.1);
                        },
                        Err(_) => {},
                    }
                }
            },
            None => {},
        }
    }
}

/// A forward-only decoder over one in-memory byte stream.
///
/// The decoder holds no state beyond its read position; decoding is a pure
/// function of the bytes and the position, so one decoder per stream decodes
/// independent streams without interference.
pub struct PickleReader {
    bytes: Vec<u8>,
    pos: usize,
}

impl PickleReader {
    /// The bytes of the stream.
    pub closed spec fn bytes_model(self) -> Seq<u8> {
        self.bytes@
    }

    /// The current read position.
    pub closed spec fn position(self) -> int {
        self.pos as int
    }

    /// The position never leaves the stream.
    pub open spec fn wf(self) -> bool {
        0 <= self.position() <= self.bytes_model().len()
    }

    /// A decoder at the start of the given stream.
    pub fn new(bytes: Vec<u8>) -> (r: PickleReader)
        ensures
            r.bytes_model() == bytes@,
            r.position() == 0,
            r.wf(),
    {
        PickleReader { bytes, pos: 0 }
    }

    /// One byte, advancing past it; `None` at end of stream.
    fn read_byte(&mut self) -> (r: Option<u8>)
        requires
            old(self).wf(),
        ensures
            final(self).bytes_model() == old(self).bytes_model(),
            final(self).wf(),
            match r {
                Some(b) => old(self).position() < old(self).bytes_model().len() && b == old(self).bytes_model()[old(self).position()] && final(self).position() == old(self).position() + 1,
                None => old(self).position() == old(self).bytes_model().len() && final(self).position() == old(self).position(),
            },
    {
        if self.pos < self.bytes.len() {
            let b = self.bytes[self.pos];
            self.pos = self.pos + 1;
            Some(b)
        } else {
            None
        }
    }

    /// A copy of the next `amount` bytes, advancing past them; `None` if
    /// fewer remain.
    fn read_bytes(&mut self, amount: usize) -> (r: Option<Vec<u8>>)
        requires
            old(self).wf(),
        ensures
            final(self).bytes_model() == old(self).bytes_model(),
            final(self).wf(),
            match r {
                Some(chunk) => old(self).position() + amount <= old(self).bytes_model().len()
                    && chunk@ == old(self).bytes_model().subrange(
                    old(self).position(),
                    old(self).position() + amount,
                ) && final(self).position() == old(self).position() + amount,
                None => old(self).position() + amount > old(self).bytes_model().len() && final(self).position() == old(self).position(),
            },
    {
        if amount > self.bytes.len() - self.pos {
            return None;
        }
        let mut chunk: Vec<u8> = Vec::new();
        let mut k: usize = 0;
        while k < amount
            invariant
                *self == *old(self),
                old(self).wf(),
                k <= amount,
                old(self).position() + amount <= old(self).bytes_model().len(),
                old(self).bytes_model().len() <= usize::MAX,
                chunk@.len() == k as int,
                forall|j: int| 0 <= j < k as int ==> chunk@[j] == old(self).bytes_model()[old(self).position() + j],
            decreases amount - k,
        {
            chunk.push(self.bytes[self.pos + k]);
            k = k + 1;
        }
        proof {
            assert(chunk@ =~= old(self).bytes_model().subrange(
                old(self).position(),
                old(self).position() + amount,
            ));
        }
        self.pos = self.pos + amount;
        Some(chunk)
    }

    /// The unsigned 32-bit value of the next four little-endian bytes.
    fn read_u32_le(&mut self) -> (r: Option<u32>)
        requires
            old(self).wf(),
        ensures
            final(self).bytes_model() == old(self).bytes_model(),
            final(self).wf(),
            match r {
                Some(v) => old(self).position() + 4 <= old(self).bytes_model().len() && v as int
                    == le_u32_val(old(self).bytes_model(), old(self).position()) && final(self).position() == old(self).position() + 4,
                None => old(self).position() + 4 > old(self).bytes_model().len() && final(self).position() == old(self).position(),
            },
    {
        if 4 > self.bytes.len() - self.pos {
            return None;
        }
        let v = read_le_u32(&self.bytes, self.pos);
        self.pos = self.pos + 4;
        Some(v)
    }

    /// The signed 32-bit value of the next four little-endian bytes.
    fn read_i32_le(&mut self) -> (r: Option<i32>)
        requires
            old(self).wf(),
        ensures
            final(self).bytes_model() == old(self).bytes_model(),
            final(self).wf(),
            match r {
                Some(v) => old(self).position() + 4 <= old(self).bytes_model().len() && v as int
                    == le_i32_val(old(self).bytes_model(), old(self).position()) && final(self).position() == old(self).position() + 4,
                None => old(self).position() + 4 > old(self).bytes_model().len() && final(self).position() == old(self).position(),
            },
    {
        if 4 > self.bytes.len() - self.pos {
            return None;
        }
        let v = read_le_i32(&self.bytes, self.pos);
        self.pos = self.pos + 4;
        Some(v)
    }

    /// The signed 16-bit value of the next two little-endian bytes.
    fn read_i16_le(&mut self) -> (r: Option<i16>)
        requires
            old(self).wf(),
        ensures
            final(self).bytes_model() == old(self).bytes_model(),
            final(self).wf(),
            match r {
                Some(v) => old(self).position() + 2 <= old(self).bytes_model().len() && v as int
                    == le_i16_val(old(self).bytes_model(), old(self).position()) && final(self).position() == old(self).position() + 2,
                None => old(self).position() + 2 > old(self).bytes_model().len() && final(self).position() == old(self).position(),
            },
    {
        if 2 > self.bytes.len() - self.pos {
            return None;
        }
        let v = read_le_i16(&self.bytes, self.pos);
        self.pos = self.pos + 2;
        Some(v)
    }

    /// One newline-terminated text line, advancing past the newline.
    fn read_line_string(&mut self) -> (r: Result<String, PickleError>)
        requires
            old(self).wf(),
        ensures
            final(self).bytes_model() == old(self).bytes_model(),
            final(self).wf(),
            match r {
                Ok(s) => line_at(old(self).bytes_model(), old(self).position()) matches Ok(l)
                    && l.0 == s@ && l.1 == final(self).position(),
                Err(e) => line_at(old(self).bytes_model(), old(self).position()) == Err::<
                    (Seq<char>, int),
                    PickleError,
                >(e),
            },
    {
        let mut j: usize = self.pos;
        while j < self.bytes.len() && self.bytes[j] != 10u8
            invariant
                *self == *old(self),
                old(self).wf(),
                old(self).position() <= j as int <= old(self).bytes_model().len(),
                newline_at(old(self).bytes_model(), old(self).position()) == newline_at(
                    old(self).bytes_model(),
                    j as int,
                ),
            decreases old(self).bytes_model().len() - j,
        {
            j = j + 1;
        }
        if j == self.bytes.len() {
            assert(newline_at(old(self).bytes_model(), old(self).position()) is None);
            return Err(PickleError::UnexpectedEof);
        }
        assert(newline_at(old(self).bytes_model(), old(self).position()) == Some(j as int));
        let len = j - self.pos;
        let chunk = match self.read_bytes(len) {
            Some(c) => c,
            None => unreached(),
        };
        self.pos = self.pos + 1;
        match string_from_utf8(chunk) {
            Some(s) => Ok(s),
            None => Err(PickleError::InvalidEncoding),
        }
    }

    /// The payload of `code`, whose opcode byte has just been read: the
    /// decoded instruction, exactly as the wire-format specification
    /// [`decode_payload`] gives it.
    fn try_parse_op(&mut self, code: OpCode) -> (r: Result<Op, PickleError>)
        requires
            old(self).wf(),
        ensures
            final(self).bytes_model() == old(self).bytes_model(),
            final(self).wf(),
            match r {
                Ok(op) => decode_payload(old(self).bytes_model(), code, old(self).position())
                    == Ok::<Option<(OpModel, int)>, PickleError>(
                    Some((op@, final(self).position())),
                ),
                Err(e) => decode_payload(old(self).bytes_model(), code, old(self).position())
                    == Err::<Option<(OpModel, int)>, PickleError>(e),
            },
    {
        match code {
            OpCode::Proto => match self.read_byte() {
                Some(version) => Ok(Op::Proto(version)),
                None => Err(PickleError::UnexpectedEof),
            },
            OpCode::EmptyDict => Ok(Op::EmptyDict),
            OpCode::EmptyList => Ok(Op::EmptyList),
            OpCode::Mark => Ok(Op::Mark),
            OpCode::Binput => match self.read_byte() {
                Some(v) => Ok(Op::BInput(v)),
                None => Err(PickleError::UnexpectedEof),
            },
            OpCode::LongBinput => match self.read_u32_le() {
                Some(v) => Ok(Op::LongBInput(v)),
                None => Err(PickleError::UnexpectedEof),
            },
            OpCode::Binunicode => {
                let n = match self.read_u32_le() {
                    Some(v) => v,
                    None => {
                        return Err(PickleError::UnexpectedEof);
                    },
                };
                let chunk = match self.read_bytes(n as usize) {
                    Some(c) => c,
                    None => {
                        return Err(PickleError::UnexpectedEof);
                    },
                };
                match string_from_utf8(chunk) {
                    Some(s) => Ok(Op::Binunicode(s)),
                    None => Err(PickleError::InvalidEncoding),
                }
            },
            OpCode::Global => {
                let module = self.read_line_string()?;
                let name = self.read_line_string()?;
                Ok(Op::Global(module, name))
            },
            OpCode::Binint => match self.read_i32_le() {
                Some(v) => Ok(Op::BinInt(v)),
                None => Err(PickleError::UnexpectedEof),
            },
            OpCode::Binint1 => match self.read_byte() {
                Some(b) => {
                    let v: i8 = if b < 128 {
                        b as i8
                    } else {
                        (b as i16 - 256) as i8
                    };
                    Ok(Op::BinInt1(v))
                },
                None => Err(PickleError::UnexpectedEof),
            },
            OpCode::Binint2 => match self.read_i16_le() {
                Some(v) => Ok(Op::BinInt2(v)),
                None => Err(PickleError::UnexpectedEof),
            },
            OpCode::Binget => match self.read_byte() {
                Some(v) => Ok(Op::BinGet(v)),
                None => Err(PickleError::UnexpectedEof),
            },
            OpCode::LongBinget => match self.read_u32_le() {
                Some(v) => Ok(Op::LongBinGet(v)),
                None => Err(PickleError::UnexpectedEof),
            },
            OpCode::Tuple => Ok(Op::Tuple),
            OpCode::EmptyTuple => Ok(Op::TupleN(0)),
            OpCode::Tuple1 => Ok(Op::TupleN(1)),
            OpCode::Tuple2 => Ok(Op::TupleN(2)),
            OpCode::Tuple3 => Ok(Op::TupleN(3)),
            OpCode::Newtrue => Ok(Op::True),
            OpCode::Newfalse => Ok(Op::False),
            OpCode::Binpersid => Ok(Op::BinPersId),
            OpCode::Reduce => Ok(Op::Reduce),
            OpCode::Setitems => Ok(Op::SetItems),
            OpCode::Setitem => Ok(Op::SetItem),
            OpCode::Appends => Ok(Op::Appends),
            OpCode::Build => Ok(Op::Build),
            OpCode::Stop => Ok(Op::Stop),
            _ => Err(PickleError::UnsupportedOpcode(code)),
        }
    }

    /// One decode step: `Ok(None)` at a clean end of stream, otherwise the
    /// next instruction or the classified decode failure, exactly as the
    /// wire-format specification [`decode_at`] gives it.
    pub fn get_next_op(&mut self) -> (r: Result<Option<Op>, PickleError>)
        requires
            old(self).wf(),
        ensures
            final(self).bytes_model() == old(self).bytes_model(),
            final(self).wf(),
            match r {
                Ok(Some(op)) => decode_at(old(self).bytes_model(), old(self).position()) == Ok::<
                    Option<(OpModel, int)>,
                    PickleError,
                >(Some((op@, final(self).position()))),
                Ok(None) => decode_at(old(self).bytes_model(), old(self).position()) == Ok::<
                    Option<(OpModel, int)>,
                    PickleError,
                >(None) && final(self).position() == old(self).position(),
                Err(e) => decode_at(old(self).bytes_model(), old(self).position()) == Err::<
                    Option<(OpModel, int)>,
                    PickleError,
                >(e),
            },
    {
        let b = match self.read_byte() {
            Some(b) => b,
            None => {
                return Ok(None);
            },
        };
        let code = match opcode_from_byte(b) {
            Some(code) => code,
            None => {
                return Err(PickleError::UnrecognizedOpcode(b));
            },
        };
        match self.try_parse_op(code) {
            Ok(op) => Ok(Some(op)),
            Err(e) => Err(e),
        }
    }
}

} // verus!
