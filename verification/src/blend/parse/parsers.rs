//! Parsers for the parts of a `.blend` file, each stated by a spec function
//! over [`InputState`].

use vstd::prelude::*;

use crate::blend::parse::input::{file_start, CompareResult, Input, InputState};
use crate::blend::parse::{latin1, strings_of, Blend, BlendParseError, Dna, Endianness, FileBlock, FileHeader, Identifier, PointerSize, Version};
use crate::util::push_char;

verus! {

/// How a parser failed: `Error` lets an enclosing parser try something else,
/// `Failure` stops the whole parse.
#[derive(Debug, Copy, Clone, PartialEq, Eq, Structural)]
pub enum ParseError {
    Error,
    Failure,
}

/// The rest of the input and the parsed value, or why parsing failed.
pub type ParseResult<'a, A> = Result<(Input<'a>, A), ParseError>;

/// What a [`ParseResult`] stands for.
pub type SpecResult<A> = Result<(InputState, A), ParseError>;

pub open spec fn view_result<'a, A>(result: ParseResult<'a, A>) -> SpecResult<A> {
    match result {
        Ok((input, value)) => Ok((input@, value)),
        Err(e) => Err(e),
    }
}

/// The end of the input, as a position in the file, fits in a `usize`.
pub open spec fn fits(s: InputState) -> bool {
    s.position + s.data.len() <= usize::MAX
}

pub const BLENDER_TAG: [u8; 7] = [0x42, 0x4c, 0x45, 0x4e, 0x44, 0x45, 0x52];
pub const POINTER_SIZE_32_BIT_TAG: [u8; 1] = [0x2d];
pub const POINTER_SIZE_64_BIT_TAG: [u8; 1] = [0x5f];
pub const ENDIANNESS_LITTLE_TAG: [u8; 1] = [0x76];
pub const ENDIANNESS_BIG_TAG: [u8; 1] = [0x56];

pub const FILE_BLOCK_IDENTIFIER_SIZE: usize = 4;
pub const FILE_BLOCK_LENGTH_SIZE: usize = 4;
pub const FILE_BLOCK_DNA_SIZE: usize = 4;
pub const FILE_BLOCK_COUNT_SIZE: usize = 4;

/// "BLENDER", the magic bytes at the start of every `.blend` file.
pub open spec fn blender_tag() -> Seq<u8> {
    seq![0x42u8, 0x4c, 0x45, 0x4e, 0x44, 0x45, 0x52]
}


/// The identifier that a four-byte block code names.
pub open spec fn identifier_of(b0: u8, b1: u8, b2: u8, b3: u8) -> Identifier {
    match (b0, b1, b2, b3) {
        (0x52, 0x45, 0x4e, 0x44) => Identifier::REND,
        (0x54, 0x45, 0x53, 0x54) => Identifier::TEST,
        (0x47, 0x4c, 0x4f, 0x42) => Identifier::GLOB,
        (0x44, 0x41, 0x54, 0x41) => Identifier::DATA,
        (0x57, 0x4d, 0x00, 0x00) => Identifier::WM,
        (0x49, 0x4d, 0x00, 0x00) => Identifier::IM,
        (0x53, 0x4e, 0x00, 0x00) => Identifier::SN,
        (0x57, 0x53, 0x00, 0x00) => Identifier::WS,
        (0x42, 0x52, 0x00, 0x00) => Identifier::BR,
        (0x53, 0x43, 0x00, 0x00) => Identifier::SC,
        (0x50, 0x4c, 0x00, 0x00) => Identifier::PL,
        (0x4f, 0x42, 0x00, 0x00) => Identifier::OB,
        (0x47, 0x52, 0x00, 0x00) => Identifier::GR,
        (0x43, 0x41, 0x00, 0x00) => Identifier::CA,
        (0x4c, 0x41, 0x00, 0x00) => Identifier::LA,
        (0x4d, 0x45, 0x00, 0x00) => Identifier::ME,
        (0x57, 0x4f, 0x00, 0x00) => Identifier::WO,
        (0x4c, 0x53, 0x00, 0x00) => Identifier::LS,
        (0x4d, 0x41, 0x00, 0x00) => Identifier::MA,
        (0x44, 0x4e, 0x41, 0x31) => Identifier::DNA,
        (0x45, 0x4e, 0x44, 0x42) => Identifier::ENDB,
        _ => Identifier::Unknown { code: [b0, b1, b2, b3] },
    }
}

/// The four bytes of the code that names an identifier: its name in ASCII,
/// padded with zero bytes (`DNA` is written `DNA1`); an unknown code is its
/// own bytes.
pub open spec fn code_of(identifier: Identifier) -> (u8, u8, u8, u8) {
    match identifier {
        Identifier::Unknown { code } => (code[0], code[1], code[2], code[3]),
        Identifier::REND => ('R' as u8, 'E' as u8, 'N' as u8, 'D' as u8),
        Identifier::TEST => ('T' as u8, 'E' as u8, 'S' as u8, 'T' as u8),
        Identifier::GLOB => ('G' as u8, 'L' as u8, 'O' as u8, 'B' as u8),
        Identifier::DATA => ('D' as u8, 'A' as u8, 'T' as u8, 'A' as u8),
        Identifier::WM => ('W' as u8, 'M' as u8, 0, 0),
        Identifier::IM => ('I' as u8, 'M' as u8, 0, 0),
        Identifier::SN => ('S' as u8, 'N' as u8, 0, 0),
        Identifier::WS => ('W' as u8, 'S' as u8, 0, 0),
        Identifier::BR => ('B' as u8, 'R' as u8, 0, 0),
        Identifier::SC => ('S' as u8, 'C' as u8, 0, 0),
        Identifier::PL => ('P' as u8, 'L' as u8, 0, 0),
        Identifier::OB => ('O' as u8, 'B' as u8, 0, 0),
        Identifier::GR => ('G' as u8, 'R' as u8, 0, 0),
        Identifier::CA => ('C' as u8, 'A' as u8, 0, 0),
        Identifier::LA => ('L' as u8, 'A' as u8, 0, 0),
        Identifier::ME => ('M' as u8, 'E' as u8, 0, 0),
        Identifier::WO => ('W' as u8, 'O' as u8, 0, 0),
        Identifier::LS => ('L' as u8, 'S' as u8, 0, 0),
        Identifier::MA => ('M' as u8, 'A' as u8, 0, 0),
        Identifier::DNA => ('D' as u8, 'N' as u8, 'A' as u8, '1' as u8),
        Identifier::ENDB => ('E' as u8, 'N' as u8, 'D' as u8, 'B' as u8),
    }
}

/// Reading a block code gives the identifier whose code it is: writing the
/// identifier read back as its code gives the four bytes back, so two
/// different codes never name the same identifier; and every known
/// identifier is read from its own code.
pub proof fn lemma_identifier_names_its_code(
    b0: u8,
    b1: u8,
    b2: u8,
    b3: u8,
    c0: u8,
    c1: u8,
    c2: u8,
    c3: u8,
    identifier: Identifier,
)
    ensures
        code_of(identifier_of(b0, b1, b2, b3)) == (b0, b1, b2, b3),
        identifier_of(b0, b1, b2, b3) == identifier_of(c0, c1, c2, c3) ==> (b0, b1, b2, b3) == (
            c0,
            c1,
            c2,
            c3,
        ),
        !(identifier is Unknown) ==> identifier_of(
            code_of(identifier).0,
            code_of(identifier).1,
            code_of(identifier).2,
            code_of(identifier).3,
        ) == identifier,
{
    let code: [u8; 4] = [b0, b1, b2, b3];
    assert(code[0] == b0 && code[1] == b1 && code[2] == b2 && code[3] == b3);
    let other: [u8; 4] = [c0, c1, c2, c3];
    assert(other[0] == c0 && other[1] == c1 && other[2] == c2 && other[3] == c3);
}

/// Consumes `count` bytes and yields them.
pub open spec fn spec_take(s: InputState, count: int) -> SpecResult<Seq<u8>> {
    if s.data.len() < count {
        Err(ParseError::Error)
    } else {
        Ok((s.advance(count), s.data.take(count)))
    }
}

/// Consumes `tag` when the input starts with it.
pub open spec fn spec_tag(s: InputState, tag: Seq<u8>) -> SpecResult<()> {
    if tag.len() <= s.data.len() && s.data.take(tag.len() as int) == tag {
        Ok((s.advance(tag.len() as int), ()))
    } else {
        Err(ParseError::Error)
    }
}

/// The number that four bytes stand for in the given byte order.
pub open spec fn spec_u32_value(endianness: Endianness, b: Seq<u8>) -> u32 {
    match endianness {
        Endianness::Little => (b[0] + b[1] * 0x100 + b[2] * 0x10000 + b[3] * 0x1000000) as u32,
        Endianness::Big => (b[3] + b[2] * 0x100 + b[1] * 0x10000 + b[0] * 0x1000000) as u32,
    }
}

/// The number that eight bytes stand for in the given byte order.
pub open spec fn spec_u64_value(endianness: Endianness, b: Seq<u8>) -> u64 {
    match endianness {
        Endianness::Little => (b[0] + b[1] * 0x100 + b[2] * 0x10000 + b[3] * 0x1000000
            + b[4] * 0x100000000 + b[5] * 0x10000000000 + b[6] * 0x1000000000000
            + b[7] * 0x100000000000000) as u64,
        Endianness::Big => (b[7] + b[6] * 0x100 + b[5] * 0x10000 + b[4] * 0x1000000
            + b[3] * 0x100000000 + b[2] * 0x10000000000 + b[1] * 0x1000000000000
            + b[0] * 0x100000000000000) as u64,
    }
}

pub open spec fn spec_parse_u32(s: InputState) -> SpecResult<u32> {
    if s.data.len() < 4 {
        Err(ParseError::Error)
    } else {
        match s.endianness {
            None => Err(ParseError::Failure),
            Some(e) => Ok((s.advance(4), spec_u32_value(e, s.data))),
        }
    }
}

pub open spec fn spec_parse_u64(s: InputState) -> SpecResult<u64> {
    if s.data.len() < 8 {
        Err(ParseError::Error)
    } else {
        match s.endianness {
            None => Err(ParseError::Failure),
            Some(e) => Ok((s.advance(8), spec_u64_value(e, s.data))),
        }
    }
}

pub open spec fn spec_parse_pointer(s: InputState) -> SpecResult<usize> {
    match s.pointer_size {
        None => Err(ParseError::Failure),
        Some(PointerSize::Pointer4Bytes) => match spec_parse_u32(s) {
            Ok((r, v)) => Ok((r, v as usize)),
            Err(e) => Err(e),
        },
        Some(PointerSize::Pointer8Bytes) => match spec_parse_u64(s) {
            Ok((r, v)) => Ok((r, v as usize)),
            Err(e) => Err(e),
        },
    }
}

pub open spec fn spec_parse_pointer_size(s: InputState) -> SpecResult<PointerSize> {
    if s.data.len() >= 1 && s.data[0] == 0x2d {
        Ok((s.advance(1), PointerSize::Pointer4Bytes))
    } else if s.data.len() >= 1 && s.data[0] == 0x5f {
        Ok((s.advance(1), PointerSize::Pointer8Bytes))
    } else {
        Err(ParseError::Error)
    }
}

pub open spec fn spec_parse_endianness(s: InputState) -> SpecResult<Endianness> {
    if s.data.len() >= 1 && s.data[0] == 0x76 {
        Ok((s.advance(1), Endianness::Little))
    } else if s.data.len() >= 1 && s.data[0] == 0x56 {
        Ok((s.advance(1), Endianness::Big))
    } else {
        Err(ParseError::Error)
    }
}

pub open spec fn spec_parse_version(s: InputState) -> SpecResult<Version> {
    if s.data.len() < 3 {
        Err(ParseError::Error)
    } else {
        Ok((s.advance(3), Version { major: s.data[0] as char, minor: s.data[1] as char, patch: s.data[2] as char }))
    }
}


/// Consumes `count` bytes and yields them.
pub fn take<'a>(input: Input<'a>, count: usize) -> (result: ParseResult<'a, Input<'a>>)
    requires
        fits(input@),
    ensures
        match (result, spec_take(input@, count as int)) {
            (Ok((rest, taken)), Ok((rest_spec, bytes))) => rest@ == rest_spec && taken.data@ == bytes,
            (Err(e), Err(f)) => e == f,
            _ => false,
        },
{
    match input.slice_index(count) {
        Err(_) => Err(ParseError::Error),
        Ok(index) => {
            let (rest, taken) = input.split(index);
            Ok((rest, taken))
        },
    }
}

/// Consumes `tag` when the input starts with it.
pub fn tag<'a>(input: Input<'a>, expected: &[u8]) -> (result: ParseResult<'a, ()>)
    requires
        fits(input@),
    ensures
        view_result(result) == spec_tag(input@, expected@),
{
    match input.compare(expected) {
        CompareResult::Match => {
            let (rest, _) = input.split(expected.len());
            Ok((rest, ()))
        },
        _ => Err(ParseError::Error),
    }
}

/// Reads a four-byte unsigned number in the input's byte order.
pub fn parse_u32<'a>(input: Input<'a>) -> (result: ParseResult<'a, u32>)
    requires
        fits(input@),
    ensures
        view_result(result) == spec_parse_u32(input@),
{
    if input.data.len() < 4 {
        return Err(ParseError::Error);
    }
    let b0 = input.data[0];
    let b1 = input.data[1];
    let b2 = input.data[2];
    let b3 = input.data[3];
    match input.endianness {
        None => Err(ParseError::Failure),
        Some(Endianness::Little) => {
            let value: u32 = (b0 as u32) | ((b1 as u32) << 8u32) | ((b2 as u32) << 16u32) | ((b3 as u32) << 24u32);
            assert(value == b0 + b1 * 0x100 + b2 * 0x10000 + b3 * 0x1000000) by (bit_vector)
                requires
                    value == (b0 as u32) | ((b1 as u32) << 8u32) | ((b2 as u32) << 16u32) | ((b3 as u32) << 24u32),
            ;
            Ok((input.slice(4), value))
        },
        Some(Endianness::Big) => {
            let value: u32 = (b3 as u32) | ((b2 as u32) << 8u32) | ((b1 as u32) << 16u32) | ((b0 as u32) << 24u32);
            assert(value == b3 + b2 * 0x100 + b1 * 0x10000 + b0 * 0x1000000) by (bit_vector)
                requires
                    value == (b3 as u32) | ((b2 as u32) << 8u32) | ((b1 as u32) << 16u32) | ((b0 as u32) << 24u32),
            ;
            Ok((input.slice(4), value))
        },
    }
}

/// The number that eight bytes `b0` (first) to `b7` (last) stand for when
/// read with the least significant byte first.
fn le_u64(b0: u8, b1: u8, b2: u8, b3: u8, b4: u8, b5: u8, b6: u8, b7: u8) -> (value: u64)
    ensures
        value == b0 + b1 * 0x100 + b2 * 0x10000 + b3 * 0x1000000 + b4 * 0x100000000
            + b5 * 0x10000000000 + b6 * 0x1000000000000 + b7 * 0x100000000000000,
{
    let value: u64 = (b0 as u64) | ((b1 as u64) << 8u64) | ((b2 as u64) << 16u64) | ((b3 as u64) << 24u64)
        | ((b4 as u64) << 32u64) | ((b5 as u64) << 40u64) | ((b6 as u64) << 48u64) | ((b7 as u64) << 56u64);
    assert(value == b0 + b1 * 0x100 + b2 * 0x10000 + b3 * 0x1000000 + b4 * 0x100000000
        + b5 * 0x10000000000 + b6 * 0x1000000000000 + b7 * 0x100000000000000) by (bit_vector)
        requires
            value == (b0 as u64) | ((b1 as u64) << 8u64) | ((b2 as u64) << 16u64) | ((b3 as u64) << 24u64)
                | ((b4 as u64) << 32u64) | ((b5 as u64) << 40u64) | ((b6 as u64) << 48u64) | ((b7 as u64) << 56u64),
    ;
    value
}

/// Reads an eight-byte unsigned number in the input's byte order.
pub fn parse_u64<'a>(input: Input<'a>) -> (result: ParseResult<'a, u64>)
    requires
        fits(input@),
    ensures
        view_result(result) == spec_parse_u64(input@),
{
    if input.data.len() < 8 {
        return Err(ParseError::Error);
    }
    let d = input.data;
    match input.endianness {
        None => Err(ParseError::Failure),
        Some(Endianness::Little) => {
            let value = le_u64(d[0], d[1], d[2], d[3], d[4], d[5], d[6], d[7]);
            Ok((input.slice(8), value))
        },
        Some(Endianness::Big) => {
            let value = le_u64(d[7], d[6], d[5], d[4], d[3], d[2], d[1], d[0]);
            Ok((input.slice(8), value))
        },
    }
}

/// Reads an address as wide as the input's pointer width.
pub fn parse_pointer<'a>(input: Input<'a>) -> (result: ParseResult<'a, usize>)
    requires
        fits(input@),
    ensures
        view_result(result) == spec_parse_pointer(input@),
{
    match input.pointer_size {
        None => Err(ParseError::Failure),
        Some(PointerSize::Pointer4Bytes) => match parse_u32(input) {
            Ok((rest, address)) => Ok((rest, address as usize)),
            Err(e) => Err(e),
        },
        Some(PointerSize::Pointer8Bytes) => match parse_u64(input) {
            Ok((rest, address)) => Ok((rest, address as usize)),
            Err(e) => Err(e),
        },
    }
}

/// Reads the pointer-width byte of the header: `-` for four, `_` for eight.
pub fn parse_pointer_size<'a>(input: Input<'a>) -> (result: ParseResult<'a, PointerSize>)
    requires
        fits(input@),
    ensures
        view_result(result) == spec_parse_pointer_size(input@),
{
    match tag(input, &POINTER_SIZE_32_BIT_TAG) {
        Ok((rest, _)) => {
            assert(input@.data.take(1)[0] == input@.data[0]);
            return Ok((rest, PointerSize::Pointer4Bytes));
        },
        Err(_) => {},
    }
    match tag(input, &POINTER_SIZE_64_BIT_TAG) {
        Ok((rest, _)) => {
            assert(input@.data.take(1)[0] == input@.data[0]);
            Ok((rest, PointerSize::Pointer8Bytes))
        },
        Err(_) => {
            if input.data.len() >= 1 {
                assert(input@.data[0] == 0x2d ==> input@.data.take(1) =~= POINTER_SIZE_32_BIT_TAG@);
                assert(input@.data[0] == 0x5f ==> input@.data.take(1) =~= POINTER_SIZE_64_BIT_TAG@);
            }
            Err(ParseError::Error)
        },
    }
}


pub open spec fn spec_parse_file_block_identifier(s: InputState) -> SpecResult<Identifier> {
    if s.data.len() < 4 {
        Err(ParseError::Error)
    } else {
        Ok((s.advance(4), identifier_of(s.data[0], s.data[1], s.data[2], s.data[3])))
    }
}

/// The header: "BLENDER", the pointer width, the byte order and the version.
/// The input after it carries the byte order and pointer width read.
pub open spec fn spec_parse_file_header(s: InputState) -> SpecResult<FileHeader> {
    match spec_tag(s, blender_tag()) {
        Err(e) => Err(e),
        Ok((s1, _)) => match spec_parse_pointer_size(s1) {
            Err(e) => Err(e),
            Ok((s2, pointer_size)) => match spec_parse_endianness(s2) {
                Err(e) => Err(e),
                Ok((s3, endianness)) => match spec_parse_version(s3) {
                    Err(e) => Err(e),
                    Ok((s4, version)) => Ok((
                        InputState {
                            data: s4.data,
                            position: s4.position,
                            endianness: Some(endianness),
                            pointer_size: Some(pointer_size),
                        },
                        FileHeader { pointer_size, endianness, version },
                    )),
                },
            },
        },
    }
}

/// The identifier that a four-byte block code names.
pub fn identifier_from_code(b0: u8, b1: u8, b2: u8, b3: u8) -> (identifier: Identifier)
    ensures
        identifier == identifier_of(b0, b1, b2, b3),
        code_of(identifier) == (b0, b1, b2, b3),
{
    match (b0, b1, b2, b3) {
        (0x52, 0x45, 0x4e, 0x44) => Identifier::REND,
        (0x54, 0x45, 0x53, 0x54) => Identifier::TEST,
        (0x47, 0x4c, 0x4f, 0x42) => Identifier::GLOB,
        (0x44, 0x41, 0x54, 0x41) => Identifier::DATA,
        (0x57, 0x4d, 0x00, 0x00) => Identifier::WM,
        (0x49, 0x4d, 0x00, 0x00) => Identifier::IM,
        (0x53, 0x4e, 0x00, 0x00) => Identifier::SN,
        (0x57, 0x53, 0x00, 0x00) => Identifier::WS,
        (0x42, 0x52, 0x00, 0x00) => Identifier::BR,
        (0x53, 0x43, 0x00, 0x00) => Identifier::SC,
        (0x50, 0x4c, 0x00, 0x00) => Identifier::PL,
        (0x4f, 0x42, 0x00, 0x00) => Identifier::OB,
        (0x47, 0x52, 0x00, 0x00) => Identifier::GR,
        (0x43, 0x41, 0x00, 0x00) => Identifier::CA,
        (0x4c, 0x41, 0x00, 0x00) => Identifier::LA,
        (0x4d, 0x45, 0x00, 0x00) => Identifier::ME,
        (0x57, 0x4f, 0x00, 0x00) => Identifier::WO,
        (0x4c, 0x53, 0x00, 0x00) => Identifier::LS,
        (0x4d, 0x41, 0x00, 0x00) => Identifier::MA,
        (0x44, 0x4e, 0x41, 0x31) => Identifier::DNA,
        (0x45, 0x4e, 0x44, 0x42) => Identifier::ENDB,
        _ => Identifier::Unknown { code: [b0, b1, b2, b3] },
    }
}

/// Reads the byte-order byte of the header: `v` for little, `V` for big.
pub fn parse_endianness<'a>(input: Input<'a>) -> (result: ParseResult<'a, Endianness>)
    requires
        fits(input@),
    ensures
        view_result(result) == spec_parse_endianness(input@),
{
    match tag(input, &ENDIANNESS_LITTLE_TAG) {
        Ok((rest, _)) => {
            assert(input@.data.take(1)[0] == input@.data[0]);
            return Ok((rest, Endianness::Little));
        },
        Err(_) => {},
    }
    match tag(input, &ENDIANNESS_BIG_TAG) {
        Ok((rest, _)) => {
            assert(input@.data.take(1)[0] == input@.data[0]);
            Ok((rest, Endianness::Big))
        },
        Err(_) => {
            if input.data.len() >= 1 {
                assert(input@.data[0] == 0x76 ==> input@.data.take(1) =~= ENDIANNESS_LITTLE_TAG@);
                assert(input@.data[0] == 0x56 ==> input@.data.take(1) =~= ENDIANNESS_BIG_TAG@);
            }
            Err(ParseError::Error)
        },
    }
}

/// Reads the three version characters of the header.
pub fn parse_version<'a>(input: Input<'a>) -> (result: ParseResult<'a, Version>)
    requires
        fits(input@),
    ensures
        view_result(result) == spec_parse_version(input@),
{
    match take(input, 3) {
        Err(e) => Err(e),
        Ok((rest, parsed)) => {
            let version = Version::new(parsed.data[0] as char, parsed.data[1] as char, parsed.data[2] as char);
            Ok((rest, version))
        },
    }
}

/// Reads the four-byte code that starts a file block.
pub fn parse_file_block_identifier<'a>(input: Input<'a>) -> (result: ParseResult<'a, Identifier>)
    requires
        fits(input@),
    ensures
        view_result(result) == spec_parse_file_block_identifier(input@),
{
    match take(input, 4) {
        Err(e) => Err(e),
        Ok((rest, parsed)) => {
            let d = parsed.data;
            Ok((rest, identifier_from_code(d[0], d[1], d[2], d[3])))
        },
    }
}

/// Reads the file header and records its byte order and pointer width in
/// the input that follows.
pub fn parse_file_header<'a>(input: Input<'a>) -> (result: ParseResult<'a, FileHeader>)
    requires
        fits(input@),
    ensures
        view_result(result) == spec_parse_file_header(input@),
{
    let (input, _) = match tag(input, &BLENDER_TAG) {
        Ok(r) => r,
        Err(e) => return Err(e),
    };
    let (input, pointer_size) = match parse_pointer_size(input) {
        Ok(r) => r,
        Err(e) => return Err(e),
    };
    let (input, endianness) = match parse_endianness(input) {
        Ok(r) => r,
        Err(e) => return Err(e),
    };
    let (input, version) = match parse_version(input) {
        Ok(r) => r,
        Err(e) => return Err(e),
    };
    Ok((
        Input {
            data: input.data,
            position: input.position,
            endianness: Some(endianness),
            pointer_size: Some(pointer_size),
        },
        FileHeader { pointer_size, endianness, version },
    ))
}


/// A file block: its code, data length, address, DNA index and count,
/// then `length + 4` bytes that are skipped.
#[verifier::opaque]
pub open spec fn spec_parse_file_block(s: InputState) -> SpecResult<FileBlock> {
    match s.pointer_size {
        None => Err(ParseError::Failure),
        Some(pointer_size) => match spec_parse_file_block_identifier(s) {
            Err(e) => Err(e),
            Ok((s1, identifier)) => match spec_parse_u32(s1) {
                Err(e) => Err(e),
                Ok((s2, length)) => match spec_parse_pointer(s2) {
                    Err(e) => Err(e),
                    Ok((s3, address)) => match spec_parse_u32(s3) {
                        Err(e) => Err(e),
                        Ok((s4, dna)) => match spec_parse_u32(s4) {
                            Err(e) => Err(e),
                            Ok((s5, count)) => match spec_take(s5, length + 4) {
                                Err(e) => Err(e),
                                Ok((s6, _)) => Ok((
                                    s6,
                                    FileBlock {
                                        identifier,
                                        length: length as usize,
                                        address: if address == 0 { None } else { Some(address) },
                                        dna: dna as usize,
                                        count: count as usize,
                                        block_location: s.position as usize,
                                        data_location: (s.position + 20 + pointer_size.spec_size()) as usize,
                                    },
                                )),
                            },
                        },
                    },
                },
            },
        },
    }
}

/// A parsed file block ends where its data ends, and the input after it
/// keeps its byte order and pointer width.
pub proof fn lemma_file_block_extent(s: InputState)
    requires
        fits(s),
    ensures
        spec_parse_file_block(s) matches Ok((r, b)) ==> {
            &&& s.pointer_size matches Some(p)
            &&& b.block_location == s.position
            &&& b.data_location == s.position + 20 + p.spec_size()
            &&& r.position == b.data_location + b.length
            &&& r.data == s.data.skip(r.position - s.position)
            &&& r.position + r.data.len() == s.position + s.data.len()
            &&& r.data.len() + 24 <= s.data.len()
            &&& r.endianness == s.endianness
            &&& r.pointer_size == s.pointer_size
        },
{
    reveal(spec_parse_file_block);
    if let Ok((r, b)) = spec_parse_file_block(s) {
        let p = s.pointer_size.unwrap();
        let (s1, _) = spec_parse_file_block_identifier(s).unwrap();
        let (s2, length) = spec_parse_u32(s1).unwrap();
        let (s3, _) = spec_parse_pointer(s2).unwrap();
        let (s4, _) = spec_parse_u32(s3).unwrap();
        let (s5, _) = spec_parse_u32(s4).unwrap();
        assert(s3.data.len() == s2.data.len() - p.spec_size());
        assert(s1.data =~= s.data.skip(4));
        assert(s2.data =~= s.data.skip(8));
        assert(s3.data =~= s.data.skip(8 + p.spec_size() as int));
        assert(s4.data =~= s.data.skip(12 + p.spec_size() as int));
        assert(s5.data =~= s.data.skip(16 + p.spec_size() as int));
        assert(r.data =~= s.data.skip(20 + p.spec_size() + length));
    }
}

/// A parsed file block consumes at least the 24 bytes of its header.
pub proof fn lemma_file_block_consumes(s: InputState)
    ensures
        spec_parse_file_block(s) matches Ok((r, b)) ==> r.data.len() + 24 <= s.data.len(),
{
    reveal(spec_parse_file_block);
}

#[via_fn]
proof fn file_blocks_decrease(s: InputState) {
    lemma_file_block_consumes(s);
}

/// File blocks, one after another, until one cannot be read; a `Failure`
/// stops the whole parse.
pub open spec fn spec_parse_file_blocks(s: InputState) -> SpecResult<Seq<FileBlock>>
    decreases s.data.len(),
    via file_blocks_decrease
{
    match spec_parse_file_block(s) {
        Ok((r, block)) => match spec_parse_file_blocks(r) {
            Ok((r2, blocks)) => Ok((r2, seq![block] + blocks)),
            Err(e) => Err(e),
        },
        Err(ParseError::Error) => Ok((s, Seq::empty())),
        Err(ParseError::Failure) => Err(ParseError::Failure),
    }
}

/// Parsing file blocks from `start` gives the blocks `done` followed by
/// what parsing from `s` gives.
pub open spec fn resumes(start: InputState, s: InputState, done: Seq<FileBlock>) -> bool {
    match spec_parse_file_blocks(s) {
        Ok((r, blocks)) => spec_parse_file_blocks(start) == Ok::<(InputState, Seq<FileBlock>), ParseError>((r, done + blocks)),
        Err(e) => spec_parse_file_blocks(start) == Err::<(InputState, Seq<FileBlock>), ParseError>(e),
    }
}

pub open spec fn view_blocks_result<'a>(result: ParseResult<'a, Vec<FileBlock>>) -> SpecResult<Seq<FileBlock>> {
    match result {
        Ok((input, blocks)) => Ok((input@, blocks@)),
        Err(e) => Err(e),
    }
}

/// Reads one file block.
pub fn parse_file_block<'a>(input: Input<'a>) -> (result: ParseResult<'a, FileBlock>)
    requires
        fits(input@),
    ensures
        view_result(result) == spec_parse_file_block(input@),
{
    reveal(spec_parse_file_block);
    let block_location = input.position;
    let pointer_size = match input.pointer_size {
        None => return Err(ParseError::Failure),
        Some(pointer_size) => pointer_size,
    };
    let (input, identifier) = match parse_file_block_identifier(input) {
        Ok(r) => r,
        Err(e) => return Err(e),
    };
    let (input, length) = match parse_u32(input) {
        Ok(r) => r,
        Err(e) => return Err(e),
    };
    let (input, address) = match parse_pointer(input) {
        Ok(r) => r,
        Err(e) => return Err(e),
    };
    let (input, dna) = match parse_u32(input) {
        Ok(r) => r,
        Err(e) => return Err(e),
    };
    let (input, count) = match parse_u32(input) {
        Ok(r) => r,
        Err(e) => return Err(e),
    };
    let skipped: u64 = length as u64 + 4;
    if skipped > input.data.len() as u64 {
        return Err(ParseError::Error);
    }
    let (input, _) = input.split(skipped as usize);
    let data_location = block_location + FILE_BLOCK_IDENTIFIER_SIZE + FILE_BLOCK_LENGTH_SIZE
        + pointer_size.size() + FILE_BLOCK_DNA_SIZE + FILE_BLOCK_COUNT_SIZE + 4;
    Ok((
        input,
        FileBlock {
            identifier,
            length: length as usize,
            address: if address == 0 { None } else { Some(address) },
            dna: dna as usize,
            count: count as usize,
            block_location,
            data_location,
        },
    ))
}

/// Reads file blocks until one cannot be read, and yields them with the
/// input that is left.
pub fn parse_file_blocks<'a>(input: Input<'a>) -> (result: ParseResult<'a, Vec<FileBlock>>)
    requires
        fits(input@),
    ensures
        view_blocks_result(result) == spec_parse_file_blocks(input@),
{
    let mut remaining = input;
    let mut file_blocks: Vec<FileBlock> = Vec::new();
    let ghost start = input@;
    loop
        invariant
            start == input@,
            fits(remaining@),
            resumes(start, remaining@, file_blocks@),
        decreases remaining.data@.len(),
    {
        proof {
            lemma_file_block_extent(remaining@);
        }
        match parse_file_block(remaining) {
            Ok((remaining_input, file_block)) => {
                proof {
                    let ghost prev = file_blocks@;
                    match spec_parse_file_blocks(remaining_input@) {
                        Ok((r, bs)) => {
                            assert(prev + (seq![file_block] + bs) =~= prev.push(file_block) + bs);
                        },
                        Err(_) => {},
                    }
                    lemma_file_block_extent(remaining@);
                }
                file_blocks.push(file_block);
                remaining = remaining_input;
            },
            Err(ParseError::Error) => {
                assert(spec_parse_file_blocks(remaining@) == Ok::<(InputState, Seq<FileBlock>), ParseError>((remaining@, Seq::empty())));
                assert(file_blocks@ + Seq::<FileBlock>::empty() =~= file_blocks@);
                assert(spec_parse_file_blocks(start) == Ok::<(InputState, Seq<FileBlock>), ParseError>((remaining@, file_blocks@)));
                return Ok((remaining, file_blocks));
            },
            Err(e) => {
                assert(spec_parse_file_blocks(remaining@) == Err::<(InputState, Seq<FileBlock>), ParseError>(e));
                return Err(e);
            },
        }
    }
}


/// A whole file: its header, then its file blocks.
pub open spec fn spec_parse_blend(s: InputState) -> Result<(FileHeader, Seq<FileBlock>), BlendParseError> {
    match spec_parse_file_header(s) {
        Err(_) => Err(BlendParseError::ParseHeaderError),
        Ok((rest, header)) => match spec_parse_file_blocks(rest) {
            Err(_) => Err(BlendParseError::ParseError),
            Ok((_, blocks)) => Ok((header, blocks)),
        },
    }
}

/// Reads the header and the file blocks of a whole file.
pub fn parse_blend<'a>(input: Input<'a>) -> (result: Result<Blend, BlendParseError>)
    requires
        fits(input@),
    ensures
        match (result, spec_parse_blend(input@)) {
            (Ok(blend), Ok((header, blocks))) => blend.spec_header() == header && blend.spec_blocks() == blocks,
            (Err(e), Err(f)) => e == f,
            _ => false,
        },
{
    match parse_file_header(input) {
        Ok((input, header)) => match parse_file_blocks(input) {
            Ok((_, blocks)) => Ok(Blend::new(header, blocks)),
            Err(_) => Err(BlendParseError::ParseError),
        },
        Err(_) => Err(BlendParseError::ParseHeaderError),
    }
}


/// The header takes the first 12 bytes and fixes the byte order and
/// pointer width of what follows.
pub proof fn lemma_file_header_extent(s: InputState)
    ensures
        spec_parse_file_header(s) matches Ok((r, header)) ==> {
            &&& r.position == s.position + 12
            &&& r.data == s.data.skip(12)
            &&& r.endianness == Some(header.endianness)
            &&& r.pointer_size == Some(header.pointer_size)
        },
{
    if let Ok((r, header)) = spec_parse_file_header(s) {
        assert(r.data =~= s.data.skip(12));
    }
}

/// A header is read exactly when the input starts with "BLENDER", a
/// pointer-width byte (`-` or `_`), a byte-order byte (`v` or `V`) and
/// three more bytes.
pub proof fn lemma_file_header_accepts(s: InputState)
    ensures
        spec_parse_file_header(s) is Ok <==> {
            &&& s.data.len() >= 12
            &&& s.data.take(7) == blender_tag()
            &&& (s.data[7] == 0x2d || s.data[7] == 0x5f)
            &&& (s.data[8] == 0x76 || s.data[8] == 0x56)
        },
{
    if s.data.len() >= 12 {
        let s1 = s.advance(7);
        assert(s1.data[0] == s.data[7]);
        assert(s1.advance(1).data[0] == s.data[8]);
        assert(s1.advance(1).advance(1).data.len() == s.data.len() - 9);
    }
}

/// With the byte order and pointer width known, reading a file block never
/// fails for good, and the input after it keeps them.
pub proof fn lemma_file_block_never_fails(s: InputState)
    requires
        s.endianness is Some,
        s.pointer_size is Some,
    ensures
        spec_parse_file_block(s) != Err::<(InputState, FileBlock), ParseError>(ParseError::Failure),
        spec_parse_file_block(s) matches Ok((r, b)) ==> r.endianness is Some && r.pointer_size is Some,
{
    reveal(spec_parse_file_block);
}

/// With the byte order and pointer width known, reading file blocks always
/// succeeds.
pub proof fn lemma_file_blocks_never_fail(s: InputState)
    requires
        s.endianness is Some,
        s.pointer_size is Some,
    ensures
        spec_parse_file_blocks(s) is Ok,
    decreases s.data.len(),
{
    lemma_file_block_never_fails(s);
    lemma_file_block_consumes(s);
    if let Ok((r, b)) = spec_parse_file_block(s) {
        lemma_file_blocks_never_fail(r);
    }
}

/// Reading a whole file fails only when its header cannot be read.
pub proof fn lemma_parse_fails_only_on_header(data: Seq<u8>)
    ensures
        spec_parse_blend(file_start(data)) is Err ==> spec_parse_file_header(file_start(data)) is Err,
        spec_parse_blend(file_start(data)) is Err ==> spec_parse_blend(file_start(data))
            == Err::<(FileHeader, Seq<FileBlock>), BlendParseError>(BlendParseError::ParseHeaderError),
{
    lemma_file_header_extent(file_start(data));
    if let Ok((r, header)) = spec_parse_file_header(file_start(data)) {
        lemma_file_blocks_never_fail(r);
    }
}

/// File blocks lie one after another: the first starts where reading
/// started, each starts where the data of the one before ends, each one's
/// data starts `20 + pointer width` bytes after its header, and the input
/// left starts where the data of the last one ends.
pub open spec fn blocks_are_contiguous(start: int, pointer_size: nat, blocks: Seq<FileBlock>, end: int) -> bool {
    &&& forall|i: int| 0 <= i < blocks.len() ==> #[trigger] blocks[i].data_location == blocks[i].block_location + 20 + pointer_size
    &&& forall|i: int| 0 < i < blocks.len() ==> #[trigger] blocks[i].block_location == blocks[i - 1].data_location + blocks[i - 1].length
    &&& blocks.len() == 0 ==> end == start
    &&& blocks.len() > 0 ==> blocks[0].block_location == start
    &&& blocks.len() > 0 ==> end == blocks.last().data_location + blocks.last().length
}

/// The input left after reading file blocks is the end of the input read
/// from, with the same pointer width.
pub proof fn lemma_file_blocks_extent(s: InputState)
    requires
        fits(s),
    ensures
        spec_parse_file_blocks(s) matches Ok((r, blocks)) ==> {
            &&& r.position + r.data.len() == s.position + s.data.len()
            &&& r.data.len() <= s.data.len()
            &&& r.data == s.data.skip(r.position - s.position)
            &&& r.pointer_size == s.pointer_size
        },
    decreases s.data.len(),
{
    lemma_file_block_extent(s);
    lemma_file_block_consumes(s);
    if let Ok((r, blocks)) = spec_parse_file_blocks(s) {
        match spec_parse_file_block(s) {
            Ok((r1, b)) => {
                lemma_file_blocks_extent(r1);
                let a = r1.position - s.position;
                let c = r.position - r1.position;
                assert(0 <= a <= s.data.len());
                assert(0 <= c <= r1.data.len());
                assert forall|k: int| 0 <= k < r.data.len() implies r.data[k] == s.data.skip(a + c)[k] by {
                    assert(r.data[k] == r1.data[k + c]);
                    assert(r1.data[k + c] == s.data[k + c + a]);
                }
                assert(r.data =~= s.data.skip(r.position - s.position));
            },
            Err(_) => {
                assert(s.data.skip(0) =~= s.data);
            },
        }
    }
}

/// Parsed file blocks are contiguous.
pub proof fn lemma_file_blocks_contiguous(s: InputState)
    requires
        fits(s),
        s.pointer_size is Some,
    ensures
        spec_parse_file_blocks(s) matches Ok((r, blocks)) ==> blocks_are_contiguous(
            s.position as int,
            s.pointer_size.unwrap().spec_size(),
            blocks,
            r.position as int,
        ),
    decreases s.data.len(),
{
    lemma_file_block_extent(s);
    lemma_file_block_consumes(s);
    if let Ok((r, blocks)) = spec_parse_file_blocks(s) {
        match spec_parse_file_block(s) {
            Ok((r1, b)) => {
                lemma_file_blocks_contiguous(r1);
                let (r2, rest) = spec_parse_file_blocks(r1).unwrap();
                assert(blocks == seq![b] + rest);
                assert forall|i: int| 0 < i < blocks.len() implies #[trigger] blocks[i].block_location
                    == blocks[i - 1].data_location + blocks[i - 1].length by {
                    if i > 1 {
                        assert(blocks[i] == rest[i - 1]);
                        assert(blocks[i - 1] == rest[i - 2]);
                    }
                }
                assert forall|i: int| 0 <= i < blocks.len() implies #[trigger] blocks[i].data_location
                    == blocks[i].block_location + 20 + s.pointer_size.unwrap().spec_size() by {
                    if i > 0 {
                        assert(blocks[i] == rest[i - 1]);
                    }
                }
                if rest.len() > 0 {
                    assert(blocks.last() == rest.last());
                }
            },
            Err(_) => {},
        }
    }
}

/// In a parsed file, the first block starts after the 12-byte header, the
/// blocks are contiguous, and the data of every block lies within the file.
pub proof fn lemma_parsed_file_layout(data: Seq<u8>)
    requires
        data.len() <= usize::MAX,
    ensures
        spec_parse_blend(file_start(data)) matches Ok((header, blocks)) ==> {
            &&& blocks_are_contiguous(12, header.pointer_size.spec_size(), blocks,
                if blocks.len() == 0 { 12 } else { blocks.last().data_location + blocks.last().length })
            &&& forall|i: int| 0 <= i < blocks.len() ==> #[trigger] blocks[i].data_location + blocks[i].length <= data.len()
        },
{
    let s = file_start(data);
    lemma_file_header_extent(s);
    if let Ok((header, blocks)) = spec_parse_blend(s) {
        let (r, _) = spec_parse_file_header(s).unwrap();
        lemma_file_blocks_contiguous(r);
        lemma_file_blocks_extent(r);
        let (end, _) = spec_parse_file_blocks(r).unwrap();
        assert forall|i: int| 0 <= i < blocks.len() implies #[trigger] blocks[i].data_location + blocks[i].length <= data.len() by {
            lemma_contiguous_ordered(12, header.pointer_size.spec_size(), blocks, end.position as int, i);
        }
    }
}

/// In contiguous blocks, every block's data ends no later than the end.
pub proof fn lemma_contiguous_ordered(start: int, pointer_size: nat, blocks: Seq<FileBlock>, end: int, i: int)
    requires
        blocks_are_contiguous(start, pointer_size, blocks, end),
        0 <= i < blocks.len(),
    ensures
        blocks[i].data_location + blocks[i].length <= end,
    decreases blocks.len() - i,
{
    if i < blocks.len() - 1 {
        lemma_contiguous_ordered(start, pointer_size, blocks, end, i + 1);
        assert(blocks[i + 1].block_location == blocks[i].data_location + blocks[i].length);
        assert(blocks[i + 1].data_location == blocks[i + 1].block_location + 20 + pointer_size);
    }
}

/// Four bytes read big-endian give the number that the same bytes in
/// reverse order give read little-endian.
pub proof fn lemma_u32_byte_order(b: Seq<u8>)
    requires
        b.len() >= 4,
    ensures
        spec_u32_value(Endianness::Big, b) == spec_u32_value(Endianness::Little, seq![b[3], b[2], b[1], b[0]]),
{
}


/// "NAME", the tag before the field names of the DNA.
pub open spec fn name_tag() -> Seq<u8> {
    seq![0x4eu8, 0x41, 0x4d, 0x45]
}

/// "TYPE", the tag before the type names of the DNA.
pub open spec fn type_tag() -> Seq<u8> {
    seq![0x54u8, 0x59, 0x50, 0x45]
}

pub const NAME_TAG: [u8; 4] = [0x4e, 0x41, 0x4d, 0x45];
pub const TYPE_TAG: [u8; 4] = [0x54, 0x59, 0x50, 0x45];

/// The index of the first zero byte, if there is one.
pub open spec fn first_zero(data: Seq<u8>) -> Option<nat>
    decreases data.len(),
{
    if data.len() == 0 {
        None
    } else if data[0] == 0 {
        Some(0)
    } else {
        match first_zero(data.drop_first()) {
            Some(i) => Some(i + 1),
            None => None,
        }
    }
}

/// `first_zero` names the first zero byte.
pub proof fn lemma_first_zero(data: Seq<u8>)
    ensures
        first_zero(data) matches Some(i) ==> i < data.len() && data[i as int] == 0
            && forall|j: int| 0 <= j < i ==> data[j] != 0,
        first_zero(data) is None ==> forall|j: int| 0 <= j < data.len() ==> data[j] != 0,
    decreases data.len(),
{
    if data.len() > 0 && data[0] != 0 {
        lemma_first_zero(data.drop_first());
        if let Some(i) = first_zero(data.drop_first()) {
            assert forall|j: int| 0 <= j < i + 1 implies data[j] != 0 by {
                if j > 0 {
                    assert(data[j] == data.drop_first()[j - 1]);
                }
            }
        } else {
            assert forall|j: int| 0 <= j < data.len() implies data[j] != 0 by {
                if j > 0 {
                    assert(data[j] == data.drop_first()[j - 1]);
                }
            }
        }
    }
}

/// A non-empty string of non-zero bytes and the zero byte after it, which
/// is consumed and left out.
pub open spec fn spec_parse_cstring(s: InputState) -> SpecResult<Seq<u8>> {
    match first_zero(s.data) {
        None => Err(ParseError::Error),
        Some(i) => if i == 0 {
            Err(ParseError::Error)
        } else {
            Ok((s.advance(i + 1 as int), s.data.take(i as int)))
        },
    }
}

/// Reading a string moves along the input without changing where it ends.
pub proof fn lemma_cstring_extent(s: InputState)
    ensures
        spec_parse_cstring(s) matches Ok((r, _)) ==> r.position + r.data.len() == s.position + s.data.len()
            && r.endianness == s.endianness,
{
    lemma_first_zero(s.data);
}

/// `count` strings of the kind [`spec_parse_cstring`] reads, one after another.
pub open spec fn spec_parse_cstrings(s: InputState, count: nat) -> SpecResult<Seq<Seq<u8>>>
    decreases count,
{
    if count == 0 {
        Ok((s, Seq::empty()))
    } else {
        match spec_parse_cstring(s) {
            Err(e) => Err(e),
            Ok((r, first)) => match spec_parse_cstrings(r, (count - 1) as nat) {
                Err(e) => Err(e),
                Ok((r2, rest)) => Ok((r2, seq![first] + rest)),
            },
        }
    }
}

/// Reading strings moves along the input without changing where it ends.
pub proof fn lemma_cstrings_extent(s: InputState, count: nat)
    ensures
        spec_parse_cstrings(s, count) matches Ok((r, _)) ==> r.position + r.data.len() == s.position + s.data.len()
            && r.endianness == s.endianness,
    decreases count,
{
    lemma_cstring_extent(s);
    if count > 0 {
        if let Ok((r, _)) = spec_parse_cstring(s) {
            lemma_cstrings_extent(r, (count - 1) as nat);
        }
    }
}

/// A section of the DNA: its tag, a count, and that many strings.
pub open spec fn spec_parse_dna_section(s: InputState, section_tag: Seq<u8>) -> SpecResult<Seq<Seq<u8>>> {
    match spec_tag(s, section_tag) {
        Err(e) => Err(e),
        Ok((s1, _)) => match spec_parse_u32(s1) {
            Err(e) => Err(e),
            Ok((s2, count)) => spec_parse_cstrings(s2, count as nat),
        },
    }
}

/// Reading a DNA section moves along the input without changing where it
/// ends or its byte order.
pub proof fn lemma_dna_section_extent(s: InputState, section_tag: Seq<u8>)
    ensures
        spec_parse_dna_section(s, section_tag) matches Ok((r, _)) ==> r.position + r.data.len()
            == s.position + s.data.len() && r.endianness == s.endianness,
{
    if let Ok((s1, _)) = spec_tag(s, section_tag) {
        if let Ok((s2, count)) = spec_parse_u32(s1) {
            lemma_cstrings_extent(s2, count as nat);
        }
    }
}

/// The DNA: a four-byte code, the field names, then the type names.
pub open spec fn spec_parse_dna(s: InputState) -> SpecResult<(Seq<Seq<u8>>, Seq<Seq<u8>>)> {
    match spec_take(s, 4) {
        Err(e) => Err(e),
        Ok((s1, _)) => match spec_parse_dna_section(s1, name_tag()) {
            Err(e) => Err(e),
            Ok((s2, names)) => match spec_parse_dna_section(s2, type_tag()) {
                Err(e) => Err(e),
                Ok((s3, types)) => Ok((s3, (names, types))),
            },
        },
    }
}

/// The bytes as a string, each byte read as one character.
pub fn latin1_string(bytes: &[u8]) -> (string: String)
    ensures
        string@ == latin1(bytes@),
{
    let mut string = String::new();
    let mut i: usize = 0;
    while i < bytes.len()
        invariant
            0 <= i <= bytes@.len(),
            string@ == latin1(bytes@.take(i as int)),
        decreases bytes@.len() - i,
    {
        push_char(&mut string, bytes[i] as char);
        assert(latin1(bytes@.take(i + 1)) =~= latin1(bytes@.take(i as int)).push(bytes@[i as int] as char));
        i = i + 1;
    }
    assert(bytes@.take(bytes@.len() as int) =~= bytes@);
    string
}

/// Reads a non-empty string that ends with a zero byte.
pub fn parse_cstring<'a>(input: Input<'a>) -> (result: ParseResult<'a, Input<'a>>)
    requires
        fits(input@),
    ensures
        match (result, spec_parse_cstring(input@)) {
            (Ok((rest, parsed)), Ok((rest_spec, bytes))) => rest@ == rest_spec && parsed.data@ == bytes,
            (Err(e), Err(f)) => e == f,
            _ => false,
        },
{
    proof {
        lemma_first_zero(input@.data);
    }
    let mut i: usize = 0;
    while i < input.data.len() && input.data[i] != 0
        invariant
            0 <= i <= input.data@.len(),
            forall|j: int| 0 <= j < i ==> input.data@[j] != 0,
        decreases input.data@.len() - i,
    {
        i = i + 1;
    }
    if i == input.data.len() || i == 0 {
        return Err(ParseError::Error);
    }
    let (rest, parsed) = input.split(i);
    let rest = rest.slice(1);
    assert(rest@.data =~= input@.data.skip(i + 1));
    Ok((rest, parsed))
}

/// Parsing `count` strings from `start` gives `done` followed by what
/// parsing `left` more strings from `s` gives.
pub open spec fn strings_resume(start: InputState, count: nat, s: InputState, left: nat, done: Seq<Seq<u8>>) -> bool {
    match spec_parse_cstrings(s, left) {
        Ok((r, rest)) => spec_parse_cstrings(start, count) == Ok::<(InputState, Seq<Seq<u8>>), ParseError>((r, done + rest)),
        Err(e) => spec_parse_cstrings(start, count) == Err::<(InputState, Seq<Seq<u8>>), ParseError>(e),
    }
}

/// Reads `count` zero-terminated strings.
pub fn parse_cstrings<'a>(input: Input<'a>, count: u32) -> (result: ParseResult<'a, Vec<String>>)
    requires
        fits(input@),
    ensures
        match (result, spec_parse_cstrings(input@, count as nat)) {
            (Ok((rest, strings)), Ok((rest_spec, bytes))) => rest@ == rest_spec && strings_of(strings@, bytes),
            (Err(e), Err(f)) => e == f,
            _ => false,
        },
{
    let mut remaining = input;
    let mut strings: Vec<String> = Vec::new();
    let mut left: u32 = count;
    let ghost start = input@;
    let ghost mut done: Seq<Seq<u8>> = Seq::empty();
    assert(done + Seq::<Seq<u8>>::empty() =~= Seq::<Seq<u8>>::empty());
    while left > 0
        invariant
            start == input@,
            fits(remaining@),
            strings_of(strings@, done),
            strings_resume(start, count as nat, remaining@, left as nat, done),
        decreases left,
    {
        proof {
            lemma_cstring_extent(remaining@);
        }
        match parse_cstring(remaining) {
            Err(e) => {
                assert(spec_parse_cstrings(remaining@, left as nat) == Err::<(InputState, Seq<Seq<u8>>), ParseError>(e));
                return Err(e);
            },
            Ok((rest, parsed)) => {
                let string = latin1_string(parsed.data);
                proof {
                    let first = parsed.data@;
                    match spec_parse_cstrings(rest@, (left - 1) as nat) {
                        Ok((r, more)) => {
                            assert(done + (seq![first] + more) =~= done.push(first) + more);
                        },
                        Err(_) => {},
                    }
                    done = done.push(first);
                }
                strings.push(string);
                remaining = rest;
                left = left - 1;
            },
        }
    }
    assert(done + Seq::<Seq<u8>>::empty() =~= done);
    Ok((remaining, strings))
}

/// Reads a section of the DNA: `section_tag`, a count, and that many strings.
pub fn parse_dna_section<'a>(input: Input<'a>, section_tag: &[u8]) -> (result: ParseResult<'a, Vec<String>>)
    requires
        fits(input@),
    ensures
        match (result, spec_parse_dna_section(input@, section_tag@)) {
            (Ok((rest, strings)), Ok((rest_spec, bytes))) => rest@ == rest_spec && strings_of(strings@, bytes),
            (Err(e), Err(f)) => e == f,
            _ => false,
        },
{
    let (input, _) = match tag(input, section_tag) {
        Ok(r) => r,
        Err(e) => return Err(e),
    };
    let (input, count) = match parse_u32(input) {
        Ok(r) => r,
        Err(e) => return Err(e),
    };
    parse_cstrings(input, count)
}

/// Reads the field names of the DNA.
pub fn parse_dna_names<'a>(input: Input<'a>) -> (result: ParseResult<'a, Vec<String>>)
    requires
        fits(input@),
    ensures
        match (result, spec_parse_dna_section(input@, name_tag())) {
            (Ok((rest, strings)), Ok((rest_spec, bytes))) => rest@ == rest_spec && strings_of(strings@, bytes),
            (Err(e), Err(f)) => e == f,
            _ => false,
        },
{
    parse_dna_section(input, &NAME_TAG)
}

/// Reads the type names of the DNA.
pub fn parse_dna_types<'a>(input: Input<'a>) -> (result: ParseResult<'a, Vec<String>>)
    requires
        fits(input@),
    ensures
        match (result, spec_parse_dna_section(input@, type_tag())) {
            (Ok((rest, strings)), Ok((rest_spec, bytes))) => rest@ == rest_spec && strings_of(strings@, bytes),
            (Err(e), Err(f)) => e == f,
            _ => false,
        },
{
    parse_dna_section(input, &TYPE_TAG)
}

/// Reads the four-byte code that starts the DNA.
pub fn parse_dna_id<'a>(input: Input<'a>) -> (result: ParseResult<'a, [u8; 4]>)
    requires
        fits(input@),
    ensures
        match (result, spec_take(input@, 4)) {
            (Ok((rest, id)), Ok((rest_spec, bytes))) => rest@ == rest_spec && id@ == bytes,
            (Err(e), Err(f)) => e == f,
            _ => false,
        },
{
    match take(input, 4) {
        Err(e) => Err(e),
        Ok((rest, parsed)) => {
            let id = [parsed.data[0], parsed.data[1], parsed.data[2], parsed.data[3]];
            assert(id@ =~= parsed.data@);
            Ok((rest, id))
        },
    }
}

/// Reads the DNA: the field names and the type names.
pub fn parse_dna<'a>(input: Input<'a>) -> (result: ParseResult<'a, Dna>)
    requires
        fits(input@),
    ensures
        match (result, spec_parse_dna(input@)) {
            (Ok((rest, dna)), Ok((rest_spec, (names, types)))) => rest@ == rest_spec
                && strings_of(dna.names@, names) && strings_of(dna.types@, types),
            (Err(e), Err(f)) => e == f,
            _ => false,
        },
{
    let (input, _) = match parse_dna_id(input) {
        Ok(r) => r,
        Err(e) => return Err(e),
    };
    proof {
        lemma_dna_section_extent(input@, name_tag());
    }
    let (input, names) = match parse_dna_names(input) {
        Ok(r) => r,
        Err(e) => return Err(e),
    };
    let (input, types) = match parse_dna_types(input) {
        Ok(r) => r,
        Err(e) => return Err(e),
    };
    Ok((input, Dna { names, types }))
}

} // verus!
