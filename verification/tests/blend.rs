use skyshard::blend::analyse::{read, Input as BlendInput};
use skyshard::blend::parse::input::Input;
use skyshard::blend::parse::parsers::{
    parse_dna, parse_endianness, parse_file_block, parse_file_blocks, parse_file_header, parse_pointer,
    parse_pointer_size, parse_u32, parse_u64, parse_version, ParseError, ENDIANNESS_BIG_TAG,
    ENDIANNESS_LITTLE_TAG, POINTER_SIZE_32_BIT_TAG, POINTER_SIZE_64_BIT_TAG,
};
use skyshard::blend::parse::{parse, BlendParseError, Endianness, Identifier, PointerSize, Version};


#[test]
fn parse_test_parse_pointer_size_32bit() {
    let data = [POINTER_SIZE_32_BIT_TAG[0], 0xaa, 0xbb];
    let input = Input::new(&data, None, None);
    let (remaining, actual) = parse_pointer_size(input).ok().unwrap();

    assert_eq!(actual, PointerSize::Pointer4Bytes);
    assert_eq!(remaining.data, &[0xaa, 0xbb]);
}

#[test]
fn parse_test_parse_pointer_size_64bit() {
    let data = [POINTER_SIZE_64_BIT_TAG[0], 0xaa, 0xbb];
    let input = Input::new(&data, None, None);
    let (remaining, actual) = parse_pointer_size(input).ok().unwrap();

    assert_eq!(actual, PointerSize::Pointer8Bytes);
    assert_eq!(remaining.data, &[0xaa, 0xbb]);
    assert_eq!(remaining.position, 1);
}

#[test]
fn parse_test_parse_endianness_little() {
    let data = [ENDIANNESS_LITTLE_TAG[0], 0xaa, 0xbb];
    let input = Input::new(&data, None, None);
    let (remaining, actual) = parse_endianness(input).ok().unwrap();

    assert_eq!(actual, Endianness::Little);
    assert_eq!(remaining.data, &[0xaa, 0xbb]);
    assert_eq!(remaining.position, 1);
}

#[test]
fn parse_test_parse_endianness_big() {
    let data = [ENDIANNESS_BIG_TAG[0], 0xaa, 0xbb];
    let input = Input::new(&data, None, None);
    let (remaining, actual) = parse_endianness(input).ok().unwrap();

    assert_eq!(actual, Endianness::Big);
    assert_eq!(remaining.data, &[0xaa, 0xbb]);
    assert_eq!(remaining.position, 1);
}

#[test]
fn parse_test_parse_version() {
    let data = [0x01, 0x02, 0x03, 0xaa, 0xbb];
    let input = Input::new(&data, None, None);
    let (remaining, actual) = parse_version(input).ok().unwrap();

    assert_eq!(actual, Version::new('\u{1}', '\u{2}', '\u{3}'));
    assert_eq!(remaining.data, &[0xaa, 0xbb]);
    assert_eq!(remaining.position, 3);
}

#[test]
fn parse_test_parse_u32_le() {
    let data = [0x54, 0x45, 0x53, 0x54, 0xaa, 0xbb];
    let input = Input::new(&data, None, Some(Endianness::Little));
    let (remaining, actual) = parse_u32(input).ok().unwrap();

    assert_eq!(actual, 1414743380u32);
    assert_eq!(remaining.data, &[0xaa, 0xbb]);
    assert_eq!(remaining.position, 4);
}

#[test]
fn parse_test_parse_u32_be() {
    let data = [0x54, 0x45, 0x53, 0x54, 0xaa, 0xbb];
    let input = Input::new(&data, None, Some(Endianness::Big));
    let (remaining, actual) = parse_u32(input).ok().unwrap();

    assert_eq!(actual, 1413829460u32);
    assert_eq!(remaining.data, &[0xaa, 0xbb]);
    assert_eq!(remaining.position, 4);
}

#[test]
fn parsers_test_parse_pointer_size_32bit() {
    let data = [POINTER_SIZE_32_BIT_TAG[0], 0xaa, 0xbb];
    let input = Input::new(&data, None, None);
    let (remaining, actual) = parse_pointer_size(input).ok().unwrap();

    assert_eq!(actual, PointerSize::Pointer4Bytes);
    assert_eq!(remaining.data, &[0xaa, 0xbb]);
}

#[test]
fn parsers_test_parse_pointer_size_64bit() {
    let data = [POINTER_SIZE_64_BIT_TAG[0], 0xaa, 0xbb];
    let input = Input::new(&data, None, None);
    let (remaining, actual) = parse_pointer_size(input).ok().unwrap();

    assert_eq!(actual, PointerSize::Pointer8Bytes);
    assert_eq!(remaining.data, &[0xaa, 0xbb]);
    assert_eq!(remaining.position, 1);
}

#[test]
fn parsers_test_parse_endianness_little() {
    let data = [ENDIANNESS_LITTLE_TAG[0], 0xaa, 0xbb];
    let input = Input::new(&data, None, None);
    let (remaining, actual) = parse_endianness(input).ok().unwrap();

    assert_eq!(actual, Endianness::Little);
    assert_eq!(remaining.data, &[0xaa, 0xbb]);
    assert_eq!(remaining.position, 1);
}

#[test]
fn parsers_test_parse_endianness_big() {
    let data = [ENDIANNESS_BIG_TAG[0], 0xaa, 0xbb];
    let input = Input::new(&data, None, None);
    let (remaining, actual) = parse_endianness(input).ok().unwrap();

    assert_eq!(actual, Endianness::Big);
    assert_eq!(remaining.data, &[0xaa, 0xbb]);
    assert_eq!(remaining.position, 1);
}

#[test]
fn parsers_test_parse_version() {
    let data = [0x01, 0x02, 0x03, 0xaa, 0xbb];
    let input = Input::new(&data, None, None);
    let (remaining, actual) = parse_version(input).ok().unwrap();

    assert_eq!(actual, Version::new('\u{1}', '\u{2}', '\u{3}'));
    assert_eq!(remaining.data, &[0xaa, 0xbb]);
    assert_eq!(remaining.position, 3);
}

#[test]
fn parsers_test_parse_u32_le() {
    let data = [0x54, 0x45, 0x53, 0x54, 0xaa, 0xbb];
    let input = Input::new(&data, None, Some(Endianness::Little));
    let (remaining, actual) = parse_u32(input).ok().unwrap();

    assert_eq!(actual, 1414743380u32);
    assert_eq!(remaining.data, &[0xaa, 0xbb]);
    assert_eq!(remaining.position, 4);
}

#[test]
fn parsers_test_parse_u32_be() {
    let data = [0x54, 0x45, 0x53, 0x54, 0xaa, 0xbb];
    let input = Input::new(&data, None, Some(Endianness::Big));
    let (remaining, actual) = parse_u32(input).ok().unwrap();

    assert_eq!(actual, 1413829460u32);
    assert_eq!(remaining.data, &[0xaa, 0xbb]);
    assert_eq!(remaining.position, 4);
}

#[test]
fn test_parse_u64_le() {
    let data = [0x42, 0x4c, 0x45, 0x4e, 0x44, 0x45, 0x52, 0x2d, 0xaa, 0xbb];
    let input = Input::new(&data, None, Some(Endianness::Little));
    let (remaining, actual) = parse_u64(input).ok().unwrap();

    assert_eq!(actual, 3265748839470287938u64);
    assert_eq!(remaining.data, &[0xaa, 0xbb]);
    assert_eq!(remaining.position, 8);
}

#[test]
fn test_parse_u64_be() {
    let data = [0x42, 0x4c, 0x45, 0x4e, 0x44, 0x45, 0x52, 0x2d, 0xaa, 0xbb];
    let input = Input::new(&data, None, Some(Endianness::Big));
    let (remaining, actual) = parse_u64(input).ok().unwrap();

    assert_eq!(actual, 4777269507188412973u64);
    assert_eq!(remaining.data, &[0xaa, 0xbb]);
    assert_eq!(remaining.position, 8);
}

#[test]
fn test_parse_pointer_32bit_le() {
    let data = [0x42, 0x4c, 0x45, 0x4e, 0x44, 0x45, 0x52, 0x2d, 0xaa, 0xbb];
    let input = Input::new(&data, Some(PointerSize::Pointer4Bytes), Some(Endianness::Little));
    let (remaining, actual) = parse_pointer(input).ok().unwrap();

    assert_eq!(actual, 1313164354usize);
    assert_eq!(remaining.data, &[0x44, 0x45, 0x52, 0x2d, 0xaa, 0xbb]);
    assert_eq!(remaining.position, 4);
}

#[test]
fn test_parse_pointer_32bit_be() {
    let data = [0x42, 0x4c, 0x45, 0x4e, 0x44, 0x45, 0x52, 0x2d, 0xaa, 0xbb];
    let input = Input::new(&data, Some(PointerSize::Pointer4Bytes), Some(Endianness::Big));
    let (remaining, actual) = parse_pointer(input).ok().unwrap();

    assert_eq!(actual, 1112294734usize);
    assert_eq!(remaining.data, &[0x44, 0x45, 0x52, 0x2d, 0xaa, 0xbb]);
    assert_eq!(remaining.position, 4);
}

#[test]
fn test_parse_pointer_64bit_le() {
    let data = [0x42, 0x4c, 0x45, 0x4e, 0x44, 0x45, 0x52, 0x2d, 0xaa, 0xbb];
    let input = Input::new(&data, Some(PointerSize::Pointer8Bytes), Some(Endianness::Little));
    let (remaining, actual) = parse_pointer(input).ok().unwrap();

    assert_eq!(actual, 3265748839470287938usize);
    assert_eq!(remaining.data, &[0xaa, 0xbb]);
    assert_eq!(remaining.position, 8);
}

#[test]
fn test_parse_pointer_64bit_be() {
    let data = [0x42, 0x4c, 0x45, 0x4e, 0x44, 0x45, 0x52, 0x2d, 0xaa, 0xbb];
    let input = Input::new(&data, Some(PointerSize::Pointer8Bytes), Some(Endianness::Big));
    let (remaining, actual) = parse_pointer(input).ok().unwrap();

    assert_eq!(actual, 4777269507188412973usize);
    assert_eq!(remaining.data, &[0xaa, 0xbb]);
    assert_eq!(remaining.position, 8);
}

/// The bytes of a block with a four-byte pointer, little-endian: the
/// header, four bytes that the parser steps over, then the data.
fn block(code: &[u8; 4], data: &[u8], address: u32, dna: u32, count: u32) -> Vec<u8> {
    let mut bytes = Vec::new();
    bytes.extend_from_slice(code);
    bytes.extend_from_slice(&(data.len() as u32).to_le_bytes());
    bytes.extend_from_slice(&address.to_le_bytes());
    bytes.extend_from_slice(&dna.to_le_bytes());
    bytes.extend_from_slice(&count.to_le_bytes());
    bytes.extend_from_slice(&[0, 0, 0, 0]);
    bytes.extend_from_slice(data);
    bytes
}

fn small_file() -> Vec<u8> {
    let mut file = b"BLENDER-v302".to_vec();
    file.extend(block(b"REND", &[1, 2, 3, 4, 5, 6, 7, 8], 0x1000, 7, 1));
    file.extend(block(b"DATA", &[9, 9], 0x2000, 8, 2));
    file.extend(block(b"DATA", &[7], 0x1000, 9, 3));
    file.extend(block(b"ENDB", &[], 0, 0, 0));
    file
}

#[test]
fn header_of_a_small_file() {
    let file = small_file();
    let (remaining, header) = parse_file_header(Input::new(&file, None, None)).ok().unwrap();
    assert_eq!(header.pointer_size, PointerSize::Pointer4Bytes);
    assert_eq!(header.endianness, Endianness::Little);
    assert_eq!(header.version, Version::new('3', '0', '2'));
    assert_eq!(remaining.position, 12);
    assert_eq!(remaining.endianness, Some(Endianness::Little));
    assert_eq!(remaining.pointer_size, Some(PointerSize::Pointer4Bytes));
}

#[test]
fn header_must_start_with_blender() {
    let file = b"BLENDOR-v302".to_vec();
    assert!(matches!(parse_file_header(Input::new(&file, None, None)), Err(ParseError::Error)));
    assert!(matches!(parse(&file), Err(BlendParseError::ParseHeaderError)));
}

#[test]
fn header_needs_a_known_pointer_width() {
    let file = b"BLENDER*v302".to_vec();
    assert!(matches!(parse(&file), Err(BlendParseError::ParseHeaderError)));
}

#[test]
fn blocks_of_a_small_file() {
    let file = small_file();
    let (input, _) = parse_file_header(Input::new(&file, None, None)).ok().unwrap();
    let (input, rend) = parse_file_block(input).ok().unwrap();
    assert_eq!(rend.identifier, Identifier::REND);
    assert_eq!(rend.length, 8);
    assert_eq!(rend.address, Some(0x1000));
    assert_eq!(rend.dna, 7);
    assert_eq!(rend.count, 1);
    assert_eq!(rend.block_location(), 12);
    assert_eq!(rend.data_location(), 36);
    assert_eq!(input.position, 44);
    let (input, blocks) = parse_file_blocks(input).ok().unwrap();
    assert_eq!(blocks.len(), 3);
    assert_eq!(blocks[0].block_location(), 44);
    assert_eq!(blocks[1].block_location(), 70);
    assert_eq!(blocks[2].block_location(), 95);
    assert_eq!(blocks[2].identifier, Identifier::ENDB);
    assert_eq!(blocks[2].address, None);
    assert_eq!(input.position, file.len());
}

#[test]
fn file_block_needs_the_pointer_width() {
    let file = small_file();
    let input = Input::new(&file[12..], None, Some(Endianness::Little));
    assert!(matches!(parse_file_block(input), Err(ParseError::Failure)));
}

#[test]
fn unknown_block_codes_are_kept() {
    let mut file = b"BLENDER-v302".to_vec();
    file.extend(block(b"XYZW", &[], 5, 0, 0));
    let blend = parse(&file).ok().unwrap();
    assert_eq!(blend.blocks()[0].identifier, Identifier::Unknown { code: *b"XYZW" });
}

#[test]
fn a_truncated_block_ends_the_blocks() {
    let mut file = small_file();
    file.truncate(file.len() - 3);
    let blend = parse(&file).ok().unwrap();
    assert_eq!(blend.blocks().len(), 3);
}

#[test]
fn lookup_by_identifier_and_address() {
    let file = small_file();
    let blend = parse(&file).ok().unwrap();
    assert_eq!(blend.blocks().len(), 4);
    let data = blend.blocks_by_identifier(Identifier::DATA).unwrap();
    assert_eq!(data.len(), 2);
    assert_eq!(data[0].dna, 8);
    assert_eq!(data[1].dna, 9);
    assert!(blend.blocks_by_identifier(Identifier::DNA).is_none());
    let at_1000 = blend.blocks_by_address(0x1000).unwrap();
    assert_eq!(at_1000.len(), 2);
    assert_eq!(at_1000[0].identifier, Identifier::REND);
    assert_eq!(at_1000[1].dna, 9);
    assert!(blend.blocks_by_address(0).is_none());
    assert!(blend.blocks_by_address(0x3000).is_none());
    assert_eq!(blend.header().version, Version::new('3', '0', '2'));
}

#[test]
fn big_endian_files_with_wide_pointers() {
    let mut file = b"BLENDER_V279".to_vec();
    file.extend_from_slice(b"GLOB");
    file.extend_from_slice(&2u32.to_be_bytes());
    file.extend_from_slice(&0x0102030405060708u64.to_be_bytes());
    file.extend_from_slice(&3u32.to_be_bytes());
    file.extend_from_slice(&4u32.to_be_bytes());
    file.extend_from_slice(&[0, 0, 0, 0, 0xee, 0xff]);
    let blend = parse(&file).ok().unwrap();
    let glob = blend.blocks()[0];
    assert_eq!(blend.header().pointer_size, PointerSize::Pointer8Bytes);
    assert_eq!(blend.header().endianness, Endianness::Big);
    assert_eq!(glob.identifier, Identifier::GLOB);
    assert_eq!(glob.length, 2);
    assert_eq!(glob.address, Some(0x0102030405060708));
    assert_eq!(glob.data_location(), 12 + 28);
    let input = BlendInput::new(blend, &file);
    assert_eq!(read(input, glob).ok().unwrap(), &[0xee, 0xff]);
}

#[test]
fn read_gives_the_data_of_a_block() {
    let file = small_file();
    let blend = parse(&file).ok().unwrap();
    let rend = blend.blocks()[0];
    let input = BlendInput::new(blend, &file);
    assert_eq!(read(input, rend).ok().unwrap(), &[1, 2, 3, 4, 5, 6, 7, 8]);
}

#[test]
fn dna_names_and_types() {
    let mut dna = b"SDNA".to_vec();
    dna.extend_from_slice(b"NAME");
    dna.extend_from_slice(&2u32.to_le_bytes());
    dna.extend_from_slice(b"*next\0prev\0");
    dna.extend_from_slice(b"TYPE");
    dna.extend_from_slice(&1u32.to_le_bytes());
    dna.extend_from_slice(b"char\0");
    let input = Input::new(&dna, Some(PointerSize::Pointer4Bytes), Some(Endianness::Little));
    let (rest, parsed) = parse_dna(input).ok().unwrap();
    assert_eq!(parsed.names, vec!["*next".to_string(), "prev".to_string()]);
    assert_eq!(parsed.types, vec!["char".to_string()]);
    assert_eq!(rest.position, dna.len());
}

#[test]
fn dna_names_must_not_be_empty() {
    let mut dna = b"SDNA".to_vec();
    dna.extend_from_slice(b"NAME");
    dna.extend_from_slice(&1u32.to_le_bytes());
    dna.extend_from_slice(b"\0");
    let input = Input::new(&dna, None, Some(Endianness::Little));
    assert!(matches!(parse_dna(input), Err(ParseError::Error)));
}
