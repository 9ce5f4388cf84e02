//! The data of the buffers of a glTF document: embedded in a base64 data
//! URI, or in the binary chunk of a GLB file.

use vstd::prelude::*;

verus! {

/// Where the data of a glTF buffer is.
#[derive(Debug, Clone, PartialEq, Eq)]
pub enum BufferSource {
    /// A URI, as its UTF-8 bytes.
    Uri(Vec<u8>),
    /// The binary chunk of the GLB file.
    Bin,
}

/// The buffers of a glTF document, in order, and its binary chunk if it has
/// one.
#[derive(Debug, Clone, PartialEq, Eq)]
pub struct GltfBuffers {
    pub buffers: Vec<BufferSource>,
    pub blob: Option<Vec<u8>>,
}

/// What the base64 decoder of the `base64` crate, with its standard
/// alphabet and padding, makes of the bytes: `None` where they are no
/// valid encoding.
pub uninterp spec fn base64_decoded(encoded: Seq<u8>) -> Option<Seq<u8>>;

/// `base64::decode` (the `STANDARD` configuration). Its result depends on
/// the input alone; the input must leave room to count its chunks, else
/// the crate panics on the overflow.
#[verifier::external_body]
fn base64_decode(encoded: &[u8]) -> (decoded: Option<Vec<u8>>)
    requires
        encoded@.len() + 8 <= usize::MAX,
    ensures
        decoded.is_some() == base64_decoded(encoded@).is_some(),
        decoded.is_some() ==> base64_decoded(encoded@) == Some(decoded.unwrap()@),
{
    base64::decode(encoded).ok()
}

/// The start of a URI that embeds base64 data:
/// `data:application/octet-stream;base64,`.
pub open spec fn octet_stream_prefix() -> Seq<u8> {
    seq![
        100u8, 97, 116, 97, 58, 97, 112, 112, 108, 105, 99, 97, 116, 105, 111, 110, 47, 111, 99,
        116, 101, 116, 45, 115, 116, 114, 101, 97, 109, 59, 98, 97, 115, 101, 54, 52, 44,
    ]
}

fn octet_stream_uri() -> (prefix: Vec<u8>)
    ensures
        prefix@ == octet_stream_prefix(),
{
    vec![
        100u8, 97, 116, 97, 58, 97, 112, 112, 108, 105, 99, 97, 116, 105, 111, 110, 47, 111, 99,
        116, 101, 116, 45, 115, 116, 114, 101, 97, 109, 59, 98, 97, 115, 101, 54, 52, 44,
    ]
}

/// The URI embeds base64 data.
pub open spec fn is_octet_stream(uri: Seq<u8>) -> bool {
    uri.len() >= octet_stream_prefix().len() && uri.take(octet_stream_prefix().len() as int)
        == octet_stream_prefix()
}

/// The data of a buffer: the decoded data of an embedding URI, or the
/// binary chunk; `None` where there is none (another kind of URI, data
/// that is no base64, or no binary chunk).
pub open spec fn spec_buffer_data(source: BufferSource, blob: Option<Vec<u8>>) -> Option<Seq<u8>> {
    match source {
        BufferSource::Uri(uri) => if is_octet_stream(uri@) {
            base64_decoded(uri@.skip(octet_stream_prefix().len() as int))
        } else {
            None
        },
        BufferSource::Bin => match blob {
            Some(data) => Some(data@),
            None => None,
        },
    }
}

/// No URI is too long to decode.
pub open spec fn uris_fit(document: GltfBuffers) -> bool {
    forall|i: int|
        0 <= i < document.buffers@.len() ==> (#[trigger] document.buffers@[i] matches BufferSource::Uri(
            uri,
        ) ==> uri@.len() + 8 <= usize::MAX)
}

/// Every buffer of the document has data.
pub open spec fn all_buffers_load(document: GltfBuffers) -> bool {
    forall|i: int|
        0 <= i < document.buffers@.len() ==> (#[trigger] spec_buffer_data(
            document.buffers@[i],
            document.blob,
        )) is Some
}

fn starts_with(bytes: &Vec<u8>, prefix: &Vec<u8>) -> (starts: bool)
    ensures
        starts == (bytes@.len() >= prefix@.len() && bytes@.take(prefix@.len() as int) == prefix@),
{
    if bytes.len() < prefix.len() {
        return false;
    }
    let mut i: usize = 0;
    while i < prefix.len()
        invariant
            bytes@.len() >= prefix@.len(),
            0 <= i <= prefix@.len(),
            forall|k: int| 0 <= k < i ==> bytes@[k] == prefix@[k],
        decreases prefix@.len() - i,
    {
        if bytes[i] != prefix[i] {
            assert(bytes@.take(prefix@.len() as int)[i as int] != prefix@[i as int]);
            return false;
        }
        i = i + 1;
    }
    assert(bytes@.take(prefix@.len() as int) =~= prefix@);
    true
}

/// The data of one buffer of a document with the given binary chunk.
pub fn buffer_data(source: &BufferSource, blob: &Option<Vec<u8>>) -> (data: Option<Vec<u8>>)
    requires
        source matches BufferSource::Uri(uri) ==> uri@.len() + 8 <= usize::MAX,
    ensures
        match data {
            Some(data) => spec_buffer_data(*source, *blob) == Some(data@),
            None => spec_buffer_data(*source, *blob) is None,
        },
{
    match source {
        BufferSource::Uri(uri) => {
            let prefix = octet_stream_uri();
            if starts_with(uri, &prefix) {
                let encoded = slice_from(uri.as_slice(), prefix.len());
                base64_decode(encoded)
            } else {
                None
            }
        },
        BufferSource::Bin => match blob {
            Some(data) => Some(data.clone()),
            None => None,
        },
    }
}

fn slice_from(bytes: &[u8], start: usize) -> (rest: &[u8])
    requires
        start <= bytes@.len(),
    ensures
        rest@ == bytes@.skip(start as int),
{
    let (_, rest) = bytes.split_at(start);
    rest
}

/// The data of every buffer of the document, in order. Every buffer must
/// have data: an embedding URI that decodes, or the binary chunk.
pub fn load_buffers(document: &GltfBuffers) -> (buffers: Vec<Vec<u8>>)
    requires
        uris_fit(*document),
        all_buffers_load(*document),
    ensures
        buffers@.len() == document.buffers@.len(),
        forall|i: int|
            0 <= i < buffers@.len() ==> spec_buffer_data(document.buffers@[i], document.blob)
                == Some(#[trigger] buffers@[i]@),
{
    let mut buffers: Vec<Vec<u8>> = Vec::new();
    let mut i: usize = 0;
    while i < document.buffers.len()
        invariant
            uris_fit(*document),
            all_buffers_load(*document),
            0 <= i <= document.buffers@.len(),
            buffers@.len() == i,
            forall|k: int|
                0 <= k < i ==> spec_buffer_data(document.buffers@[k], document.blob) == Some(
                    #[trigger] buffers@[k]@,
                ),
        decreases document.buffers@.len() - i,
    {
        let source = &document.buffers[i];
        assert(spec_buffer_data(document.buffers@[i as int], document.blob) is Some);
        let data = buffer_data(source, &document.blob);
        buffers.push(data.unwrap());
        i = i + 1;
    }
    buffers
}

/// The data of every buffer of the document, or `None` where a buffer has
/// none.
pub fn try_load_buffers(document: &GltfBuffers) -> (buffers: Option<Vec<Vec<u8>>>)
    requires
        uris_fit(*document),
    ensures
        match buffers {
            Some(buffers) => {
                &&& all_buffers_load(*document)
                &&& buffers@.len() == document.buffers@.len()
                &&& forall|i: int|
                    0 <= i < buffers@.len() ==> spec_buffer_data(document.buffers@[i], document.blob)
                        == Some(#[trigger] buffers@[i]@)
            },
            None => !all_buffers_load(*document),
        },
{
    let mut i: usize = 0;
    while i < document.buffers.len()
        invariant
            uris_fit(*document),
            0 <= i <= document.buffers@.len(),
            forall|k: int|
                0 <= k < i ==> (#[trigger] spec_buffer_data(document.buffers@[k], document.blob)) is Some,
        decreases document.buffers@.len() - i,
    {
        if buffer_data(&document.buffers[i], &document.blob).is_none() {
            return None;
        }
        i = i + 1;
    }
    Some(load_buffers(document))
}

} // verus!
