//! The structure of a `.blend` file: a header followed by file blocks.

pub mod input;
pub mod parsers;

use std::collections::HashMap;

use itertools::Itertools;
use vstd::prelude::*;

use crate::blend::parse::input::{file_start, Input};
use crate::blend::parse::parsers::{blocks_are_contiguous, lemma_parsed_file_layout, parse_blend, spec_parse_blend};

verus! {

/// Where a byte lies, counted from the start of the file.
pub type Location = usize;

/// The header of a `.blend` file.
#[derive(Debug, Copy, Clone, PartialEq, Eq, Structural)]
pub struct FileHeader {
    pub pointer_size: PointerSize,
    pub endianness: Endianness,
    pub version: Version,
}

/// The width of the pointers stored in a `.blend` file.
#[derive(Debug, Copy, Clone, PartialEq, Eq, Structural)]
pub enum PointerSize {
    Pointer4Bytes,
    Pointer8Bytes,
}

impl PointerSize {
    pub open spec fn spec_size(&self) -> nat {
        match self {
            PointerSize::Pointer4Bytes => 4,
            PointerSize::Pointer8Bytes => 8,
        }
    }

    /// The width of a pointer in bytes.
    pub fn size(&self) -> (size: usize)
        ensures
            size == self.spec_size(),
    {
        match self {
            PointerSize::Pointer4Bytes => 4,
            PointerSize::Pointer8Bytes => 8,
        }
    }
}

/// The byte order of the numbers stored in a `.blend` file.
#[derive(Debug, Copy, Clone, PartialEq, Eq, Structural)]
pub enum Endianness {
    Little,
    Big,
}

/// The version of Blender that wrote a file, as three digits.
#[derive(Debug, Copy, Clone, PartialEq, Eq, Structural)]
pub struct Version {
    pub major: char,
    pub minor: char,
    pub patch: char,
}

impl Version {
    pub fn new(major: char, minor: char, patch: char) -> (version: Version)
        ensures
            version == (Version { major, minor, patch }),
    {
        Version { major, minor, patch }
    }
}

/// The four-byte code at the start of a file block.
#[derive(Debug, Copy, Clone, PartialEq, Eq, Hash)]
pub enum Identifier {
    Unknown { code: [u8; 4] },
    REND,
    TEST,
    GLOB,
    DATA,
    WM,
    IM,
    SN,
    WS,
    BR,
    SC,
    PL,
    OB,
    GR,
    CA,
    LA,
    ME,
    WO,
    LS,
    MA,
    DNA,
    ENDB,
}

/// A file block: a header naming its content, followed by `length` bytes.
#[derive(Debug, Copy, Clone)]
pub struct FileBlock {
    pub identifier: Identifier,
    pub length: usize,
    pub address: Option<usize>,
    pub dna: usize,
    pub count: usize,
    pub block_location: Location,
    pub data_location: Location,
}

impl FileBlock {
    /// Where the block's header starts in the file.
    pub fn block_location(&self) -> (location: Location)
        ensures
            location == self.block_location,
    {
        self.block_location
    }

    /// Where the block's data starts in the file.
    pub fn data_location(&self) -> (location: Location)
        ensures
            location == self.data_location,
    {
        self.data_location
    }
}

/// The names of fields and of types that a file's DNA block lists.
#[derive(Debug)]
pub struct Dna {
    pub names: Vec<String>,
    pub types: Vec<String>,
}

/// A type that the DNA describes: its name and size in bytes.
#[derive(Debug)]
pub struct DnaType {
    pub name: String,
    pub size: usize,
}

/// A structure that the DNA describes: its type and its fields.
#[derive(Debug)]
pub struct DnaStruct {
    pub type_index: usize,
    pub fields: Vec<DnaField>,
}

/// A field of a DNA structure: indices into the names and the types.
#[derive(Debug)]
pub struct DnaField {
    pub name_index: usize,
    pub type_index: usize,
}

/// The characters that bytes stand for, one for one.
pub open spec fn latin1(bytes: Seq<u8>) -> Seq<char> {
    bytes.map_values(|b: u8| b as char)
}

/// The strings stand for the byte strings, each byte read as one character.
pub open spec fn strings_of(strings: Seq<String>, bytes: Seq<Seq<u8>>) -> bool {
    &&& strings.len() == bytes.len()
    &&& forall|i: int| 0 <= i < strings.len() ==> #[trigger] strings[i]@ == latin1(bytes[i])
}

/// A number that stands for an identifier, no two identifiers sharing one:
/// the little-endian value of the code for unknown codes, and numbers above
/// every four-byte value for the named ones.
pub open spec fn identifier_key(identifier: Identifier) -> u64 {
    match identifier {
        Identifier::Unknown { code } => (code[0] + code[1] * 0x100 + code[2] * 0x10000 + code[3] * 0x1000000) as u64,
        Identifier::REND => 0x1_0000_0000,
        Identifier::TEST => 0x1_0000_0001,
        Identifier::GLOB => 0x1_0000_0002,
        Identifier::DATA => 0x1_0000_0003,
        Identifier::WM => 0x1_0000_0004,
        Identifier::IM => 0x1_0000_0005,
        Identifier::SN => 0x1_0000_0006,
        Identifier::WS => 0x1_0000_0007,
        Identifier::BR => 0x1_0000_0008,
        Identifier::SC => 0x1_0000_0009,
        Identifier::PL => 0x1_0000_000a,
        Identifier::OB => 0x1_0000_000b,
        Identifier::GR => 0x1_0000_000c,
        Identifier::CA => 0x1_0000_000d,
        Identifier::LA => 0x1_0000_000e,
        Identifier::ME => 0x1_0000_000f,
        Identifier::WO => 0x1_0000_0010,
        Identifier::LS => 0x1_0000_0011,
        Identifier::MA => 0x1_0000_0012,
        Identifier::DNA => 0x1_0000_0013,
        Identifier::ENDB => 0x1_0000_0014,
    }
}

impl Identifier {
    /// The number that stands for this identifier in lookups.
    pub fn key(&self) -> (key: u64)
        ensures
            key == identifier_key(*self),
    {
        match self {
            Identifier::Unknown { code } => code[0] as u64 + code[1] as u64 * 0x100 + code[2] as u64 * 0x10000
                + code[3] as u64 * 0x1000000,
            Identifier::REND => 0x1_0000_0000,
            Identifier::TEST => 0x1_0000_0001,
            Identifier::GLOB => 0x1_0000_0002,
            Identifier::DATA => 0x1_0000_0003,
            Identifier::WM => 0x1_0000_0004,
            Identifier::IM => 0x1_0000_0005,
            Identifier::SN => 0x1_0000_0006,
            Identifier::WS => 0x1_0000_0007,
            Identifier::BR => 0x1_0000_0008,
            Identifier::SC => 0x1_0000_0009,
            Identifier::PL => 0x1_0000_000a,
            Identifier::OB => 0x1_0000_000b,
            Identifier::GR => 0x1_0000_000c,
            Identifier::CA => 0x1_0000_000d,
            Identifier::LA => 0x1_0000_000e,
            Identifier::ME => 0x1_0000_000f,
            Identifier::WO => 0x1_0000_0010,
            Identifier::LS => 0x1_0000_0011,
            Identifier::MA => 0x1_0000_0012,
            Identifier::DNA => 0x1_0000_0013,
            Identifier::ENDB => 0x1_0000_0014,
        }
    }
}

/// No two identifiers share a key.
pub proof fn lemma_identifier_key_injective(a: Identifier, b: Identifier)
    ensures
        identifier_key(a) == identifier_key(b) ==> a == b,
{
    if identifier_key(a) == identifier_key(b) {
        if let Identifier::Unknown { code: ca } = a {
            lemma_code_key_bound(ca[0], ca[1], ca[2], ca[3]);
            if let Identifier::Unknown { code: cb } = b {
                lemma_code_key_bound(cb[0], cb[1], cb[2], cb[3]);
                lemma_code_key_injective(ca[0], ca[1], ca[2], ca[3], cb[0], cb[1], cb[2], cb[3]);
                assert(ca@ =~= cb@);
                vstd::array::axiom_array_ext_equal(ca, cb);
            }
        } else if let Identifier::Unknown { code: cb } = b {
            lemma_code_key_bound(cb[0], cb[1], cb[2], cb[3]);
        }
    }
}

proof fn lemma_code_key_bound(a0: u8, a1: u8, a2: u8, a3: u8)
    ensures
        a0 + a1 * 0x100 + a2 * 0x10000 + a3 * 0x1000000 < 0x1_0000_0000,
{
}

proof fn lemma_code_key_injective(a0: u8, a1: u8, a2: u8, a3: u8, b0: u8, b1: u8, b2: u8, b3: u8)
    requires
        a0 + a1 * 0x100 + a2 * 0x10000 + a3 * 0x1000000 == b0 + b1 * 0x100 + b2 * 0x10000 + b3 * 0x1000000,
    ensures
        a0 == b0 && a1 == b1 && a2 == b2 && a3 == b3,
{
    assert(a0 == b0 && a1 == b1 && a2 == b2 && a3 == b3) by (nonlinear_arith)
        requires
            a0 + a1 * 0x100 + a2 * 0x10000 + a3 * 0x1000000 == b0 + b1 * 0x100 + b2 * 0x10000 + b3 * 0x1000000,
            a0 < 256, a1 < 256, a2 < 256, a3 < 256, b0 < 256, b1 < 256, b2 < 256, b3 < 256,
    ;
}

/// Why a `.blend` file could not be read.
#[derive(Debug, Copy, Clone, PartialEq, Eq, Structural)]
pub enum BlendParseError {
    ParseHeaderError,
    ParseDnaError,
    ParseError,
}

/// The blocks among `blocks` that have the given identifier, in file order.
pub open spec fn select_identifier(blocks: Seq<FileBlock>, identifier: Identifier) -> Seq<FileBlock>
    decreases blocks.len(),
{
    if blocks.len() == 0 {
        Seq::empty()
    } else if blocks.last().identifier == identifier {
        select_identifier(blocks.drop_last(), identifier).push(blocks.last())
    } else {
        select_identifier(blocks.drop_last(), identifier)
    }
}

/// The blocks among `blocks` that have the given address, in file order.
pub open spec fn select_address(blocks: Seq<FileBlock>, address: usize) -> Seq<FileBlock>
    decreases blocks.len(),
{
    if blocks.len() == 0 {
        Seq::empty()
    } else if blocks.last().address == Some(address) {
        select_address(blocks.drop_last(), address).push(blocks.last())
    } else {
        select_address(blocks.drop_last(), address)
    }
}

/// Each block paired with the key of its identifier.
pub open spec fn identifier_pairs(blocks: Seq<FileBlock>) -> Seq<(u64, FileBlock)>
    decreases blocks.len(),
{
    if blocks.len() == 0 {
        Seq::empty()
    } else {
        identifier_pairs(blocks.drop_last()).push((identifier_key(blocks.last().identifier), blocks.last()))
    }
}

/// Each block that has an address, paired with it.
pub open spec fn address_pairs(blocks: Seq<FileBlock>) -> Seq<(u64, FileBlock)>
    decreases blocks.len(),
{
    if blocks.len() == 0 {
        Seq::empty()
    } else {
        match blocks.last().address {
            Some(address) => address_pairs(blocks.drop_last()).push((address as u64, blocks.last())),
            None => address_pairs(blocks.drop_last()),
        }
    }
}

/// The values of the pairs whose key is `key`, in the order of the pairs.
pub open spec fn values_with_key(pairs: Seq<(u64, FileBlock)>, key: u64) -> Seq<FileBlock>
    decreases pairs.len(),
{
    if pairs.len() == 0 {
        Seq::empty()
    } else if pairs.last().0 == key {
        values_with_key(pairs.drop_last(), key).push(pairs.last().1)
    } else {
        values_with_key(pairs.drop_last(), key)
    }
}

/// A key has values among the pairs exactly when some pair has it.
pub proof fn lemma_values_with_key_empty(pairs: Seq<(u64, FileBlock)>, key: u64)
    ensures
        values_with_key(pairs, key).len() == 0 <==> forall|i: int| 0 <= i < pairs.len() ==> pairs[i].0 != key,
    decreases pairs.len(),
{
    if pairs.len() > 0 {
        lemma_values_with_key_empty(pairs.drop_last(), key);
        if values_with_key(pairs, key).len() == 0 {
            assert forall|i: int| 0 <= i < pairs.len() implies pairs[i].0 != key by {
                if i < pairs.len() - 1 {
                    assert(pairs[i] == pairs.drop_last()[i]);
                }
            }
        } else {
            if pairs.last().0 != key {
                let j = choose|j: int| 0 <= j < pairs.drop_last().len() && pairs.drop_last()[j].0 == key;
                assert(pairs[j] == pairs.drop_last()[j]);
            }
        }
    }
}

/// Grouping the identifier pairs by key gives the blocks with each identifier.
pub proof fn lemma_identifier_groups(blocks: Seq<FileBlock>, identifier: Identifier)
    ensures
        values_with_key(identifier_pairs(blocks), identifier_key(identifier)) == select_identifier(blocks, identifier),
    decreases blocks.len(),
{
    if blocks.len() > 0 {
        lemma_identifier_groups(blocks.drop_last(), identifier);
        lemma_identifier_key_injective(blocks.last().identifier, identifier);
        assert(identifier_pairs(blocks).drop_last() =~= identifier_pairs(blocks.drop_last()));
    }
}

/// Grouping the address pairs by key gives the blocks with each address.
pub proof fn lemma_address_groups(blocks: Seq<FileBlock>, address: usize)
    ensures
        values_with_key(address_pairs(blocks), address as u64) == select_address(blocks, address),
    decreases blocks.len(),
{
    if blocks.len() > 0 {
        lemma_address_groups(blocks.drop_last(), address);
        if let Some(a) = blocks.last().address {
            assert(address_pairs(blocks).drop_last() =~= address_pairs(blocks.drop_last()));
        }
    }
}

/// Calls `Itertools::into_group_map` on the pairs. Claims what its source
/// shows: every key of the pairs is a key of the map, no other, and each
/// key maps to the values paired with it, in the order of the pairs.
#[verifier::external_body]
fn group_by_key(pairs: Vec<(u64, FileBlock)>) -> (groups: HashMap<u64, Vec<FileBlock>>)
    ensures
        forall|key: u64| groups@.contains_key(key) <==> (exists|i: int| 0 <= i < pairs@.len() && pairs@[i].0 == key),
        forall|key: u64| groups@.contains_key(key) ==> groups@[key]@ == values_with_key(pairs@, key),
{
    pairs.into_iter().into_group_map()
}

/// A parsed `.blend` file: its header and its file blocks, which can be
/// looked up by identifier and by address.
#[derive(Debug)]
pub struct Blend {
    header: FileHeader,
    blocks: Vec<FileBlock>,
    blocks_by_identifier: HashMap<u64, Vec<FileBlock>>,
    blocks_by_address: HashMap<u64, Vec<FileBlock>>,
}

impl Blend {
    pub closed spec fn spec_header(&self) -> FileHeader {
        self.header
    }

    pub closed spec fn spec_blocks(&self) -> Seq<FileBlock> {
        self.blocks@
    }

    #[verifier::type_invariant]
    closed spec fn wf(self) -> bool {
        &&& forall|key: u64| #[trigger] self.blocks_by_identifier@.contains_key(key)
            <==> values_with_key(identifier_pairs(self.blocks@), key).len() > 0
        &&& forall|key: u64| #[trigger] self.blocks_by_identifier@.contains_key(key)
            ==> self.blocks_by_identifier@[key]@ == values_with_key(identifier_pairs(self.blocks@), key)
        &&& forall|key: u64| #[trigger] self.blocks_by_address@.contains_key(key)
            <==> values_with_key(address_pairs(self.blocks@), key).len() > 0
        &&& forall|key: u64| #[trigger] self.blocks_by_address@.contains_key(key)
            ==> self.blocks_by_address@[key]@ == values_with_key(address_pairs(self.blocks@), key)
    }

    /// Groups the blocks by identifier and by address.
    pub fn new(header: FileHeader, blocks: Vec<FileBlock>) -> (blend: Blend)
        ensures
            blend.spec_header() == header,
            blend.spec_blocks() == blocks@,
    {
        let mut by_identifier: Vec<(u64, FileBlock)> = Vec::new();
        let mut by_address: Vec<(u64, FileBlock)> = Vec::new();
        let mut i: usize = 0;
        while i < blocks.len()
            invariant
                0 <= i <= blocks@.len(),
                by_identifier@ == identifier_pairs(blocks@.take(i as int)),
                by_address@ == address_pairs(blocks@.take(i as int)),
            decreases blocks@.len() - i,
        {
            let block = blocks[i];
            assert(blocks@.take(i + 1).drop_last() =~= blocks@.take(i as int));
            by_identifier.push((block.identifier.key(), block));
            match block.address {
                Some(address) => by_address.push((address as u64, block)),
                None => {},
            }
            i = i + 1;
        }
        assert(blocks@.take(blocks@.len() as int) =~= blocks@);
        let ghost identifier_keyed = by_identifier@;
        let ghost address_keyed = by_address@;
        let blocks_by_identifier = group_by_key(by_identifier);
        let blocks_by_address = group_by_key(by_address);
        assert(identifier_keyed == identifier_pairs(blocks@));
        assert(address_keyed == address_pairs(blocks@));
        assert forall|key: u64| #[trigger] blocks_by_identifier@.contains_key(key)
            <==> values_with_key(identifier_pairs(blocks@), key).len() > 0 by {
            lemma_values_with_key_empty(identifier_keyed, key);
        }
        assert forall|key: u64| #[trigger] blocks_by_address@.contains_key(key)
            <==> values_with_key(address_pairs(blocks@), key).len() > 0 by {
            lemma_values_with_key_empty(address_keyed, key);
        }
        assert(forall|key: u64| #[trigger] blocks_by_identifier@.contains_key(key)
            ==> blocks_by_identifier@[key]@ == values_with_key(identifier_pairs(blocks@), key));
        assert(forall|key: u64| #[trigger] blocks_by_address@.contains_key(key)
            ==> blocks_by_address@[key]@ == values_with_key(address_pairs(blocks@), key));
        let blend = Blend { header, blocks, blocks_by_identifier, blocks_by_address };
        blend
    }

    /// The file header.
    pub fn header(&self) -> (header: &FileHeader)
        ensures
            *header == self.spec_header(),
    {
        &self.header
    }

    /// All file blocks, in file order.
    pub fn blocks(&self) -> (blocks: &Vec<FileBlock>)
        ensures
            blocks@ == self.spec_blocks(),
    {
        &self.blocks
    }

    /// The blocks with the given address, in file order; `None` when no
    /// block has it.
    pub fn blocks_by_address(&self, address: usize) -> (blocks: Option<&Vec<FileBlock>>)
        ensures
            blocks is None <==> select_address(self.spec_blocks(), address).len() == 0,
            blocks matches Some(found) ==> found@ == select_address(self.spec_blocks(), address),
    {
        proof {
            use_type_invariant(self);
            lemma_address_groups(self.blocks@, address);
        }
        self.blocks_by_address.get(&(address as u64))
    }

    /// The blocks with the given identifier, in file order; `None` when no
    /// block has it.
    pub fn blocks_by_identifier(&self, identifier: Identifier) -> (blocks: Option<&Vec<FileBlock>>)
        ensures
            blocks is None <==> select_identifier(self.spec_blocks(), identifier).len() == 0,
            blocks matches Some(found) ==> found@ == select_identifier(self.spec_blocks(), identifier),
    {
        proof {
            use_type_invariant(self);
            lemma_identifier_groups(self.blocks@, identifier);
        }
        self.blocks_by_identifier.get(&identifier.key())
    }
}

/// Reads a whole `.blend` file. In a file that is read, the first block
/// starts after the 12-byte header, each block's data starts
/// `20 + pointer width` bytes after the block, each block starts where the
/// data of the one before ends, and all data lies within the file.
pub fn parse(blend: &[u8]) -> (result: Result<Blend, BlendParseError>)
    ensures
        match (result, spec_parse_blend(file_start(blend@))) {
            (Ok(parsed), Ok((header, blocks))) => parsed.spec_header() == header && parsed.spec_blocks() == blocks,
            (Err(e), Err(f)) => e == f,
            _ => false,
        },
        result matches Ok(parsed) ==> {
            &&& blocks_are_contiguous(
                12,
                parsed.spec_header().pointer_size.spec_size(),
                parsed.spec_blocks(),
                if parsed.spec_blocks().len() == 0 {
                    12
                } else {
                    parsed.spec_blocks().last().data_location + parsed.spec_blocks().last().length
                },
            )
            &&& forall|i: int|
                0 <= i < parsed.spec_blocks().len() ==> #[trigger] parsed.spec_blocks()[i].data_location
                    + parsed.spec_blocks()[i].length <= blend@.len()
        },
{
    proof {
        assert(blend@.len() == blend.len());
        lemma_parsed_file_layout(blend@);
    }
    let input = Input::new(blend, None, None);
    parse_blend(input)
}

} // verus!
