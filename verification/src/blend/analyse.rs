//! Reading the data of file blocks out of a parsed file.

use vstd::prelude::*;

use crate::blend::parse::{select_identifier, Blend, FileBlock, Identifier};

verus! {

/// Why the data of a file could not be analysed.
#[derive(Debug, Copy, Clone, PartialEq, Eq, Structural)]
pub enum AnalyseError {
    DnaNotFound,
}

/// A parsed file together with its bytes.
pub struct Input<'a> {
    pub blend: Blend,
    pub data: &'a [u8],
}

impl<'a> Input<'a> {
    pub fn new(blend: Blend, data: &'a [u8]) -> (input: Input<'a>)
        ensures
            input.blend == blend,
            input.data@ == data@,
    {
        Input { blend, data }
    }
}

/// Locates the data of the DNA block of a file.
pub fn analyse(blend: Blend, input: Input)
    requires
        select_identifier(blend.spec_blocks(), Identifier::DNA).len() > 0,
        select_identifier(blend.spec_blocks(), Identifier::DNA)[0].data_location
            + select_identifier(blend.spec_blocks(), Identifier::DNA)[0].length <= usize::MAX,
{
    let dna_block = blend.blocks_by_identifier(Identifier::DNA).unwrap()[0];
    let location = dna_block.data_location();
    let start: usize = location;
    let _end: usize = start + dna_block.length;
}

/// The data of a file block: the `length` bytes at its data location.
pub fn read<'a>(input: Input<'a>, file_block: FileBlock) -> (result: Result<&'a [u8], AnalyseError>)
    requires
        file_block.data_location + file_block.length <= input.data@.len(),
    ensures
        result matches Ok(data) && data@ == input.data@.subrange(
            file_block.data_location as int,
            file_block.data_location + file_block.length,
        ),
{
    let start = file_block.data_location();
    proof {
        assert(input.data@.len() == input.data.len());
    }
    let end = start + file_block.length;
    Ok(&input.data[start..end])
}

} // verus!
