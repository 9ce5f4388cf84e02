//! SPIR-V shader binaries and the shader modules made of them.

use vstd::prelude::*;

verus! {

/// The first word of every SPIR-V module.
pub const SPIRV_MAGIC: u32 = 0x0723_0203;

/// `VK_SHADER_STAGE_VERTEX_BIT`.
pub const STAGE_VERTEX: u32 = 0x1;
/// `VK_SHADER_STAGE_GEOMETRY_BIT`.
pub const STAGE_GEOMETRY: u32 = 0x8;
/// `VK_SHADER_STAGE_FRAGMENT_BIT`.
pub const STAGE_FRAGMENT: u32 = 0x10;

/// The `i`-th four bytes, least significant first.
pub open spec fn le_word(bytes: Seq<u8>, i: int) -> u32 {
    (bytes[4 * i] as int + bytes[4 * i + 1] as int * 0x100 + bytes[4 * i + 2] as int * 0x1_0000
        + bytes[4 * i + 3] as int * 0x100_0000) as u32
}

/// The `i`-th four bytes, most significant first.
pub open spec fn be_word(bytes: Seq<u8>, i: int) -> u32 {
    (bytes[4 * i + 3] as int + bytes[4 * i + 2] as int * 0x100 + bytes[4 * i + 1] as int
        * 0x1_0000 + bytes[4 * i] as int * 0x100_0000) as u32
}

pub open spec fn le_words(bytes: Seq<u8>) -> Seq<u32> {
    Seq::new(bytes.len() / 4, |i: int| le_word(bytes, i))
}

pub open spec fn be_words(bytes: Seq<u8>) -> Seq<u32> {
    Seq::new(bytes.len() / 4, |i: int| be_word(bytes, i))
}

/// The words of a SPIR-V binary: whole words, at least one, read in the
/// byte order in which the first word is the magic number.
pub open spec fn spirv_words(bytes: Seq<u8>) -> Option<Seq<u32>> {
    if bytes.len() == 0 || bytes.len() % 4 != 0 {
        None
    } else if le_word(bytes, 0) == SPIRV_MAGIC {
        Some(le_words(bytes))
    } else if be_word(bytes, 0) == SPIRV_MAGIC {
        Some(be_words(bytes))
    } else {
        None
    }
}

/// `ash::util::read_spv` on a cursor over `binary`. Its source reads the
/// bytes as words in the machine's byte order, swaps each word where the
/// first then reads as the swapped magic number, and fails where the
/// length is not a multiple of four or the first word is not the magic
/// number: that is `spirv_words` on every machine, as only one byte order
/// can make the first word the magic number.
#[verifier::external_body]
fn read_spv(binary: &[u8]) -> (code: Option<Vec<u32>>)
    ensures
        code.is_some() == spirv_words(binary@).is_some(),
        code.is_some() ==> spirv_words(binary@) == Some(code.unwrap()@),
{
    ash::util::read_spv(&mut std::io::Cursor::new(binary)).ok()
}

/// The words of a SPIR-V binary, or `None` where it is none.
pub fn spirv_code(binary: &[u8]) -> (code: Option<Vec<u32>>)
    ensures
        match code {
            Some(words) => spirv_words(binary@) == Some(words@),
            None => spirv_words(binary@) is None,
        },
{
    read_spv(binary)
}

/// Compiled shader code for one stage of the pipeline.
pub trait ShaderBinary {
    spec fn spec_stage(&self) -> u32;

    spec fn spec_code(&self) -> Seq<u32>;

    /// The pipeline stage, as a `VkShaderStageFlags` bit.
    fn stage(&self) -> (stage: u32)
        ensures
            stage == self.spec_stage(),
    ;

    /// The SPIR-V words.
    fn code(&self) -> (code: &[u32])
        ensures
            code@ == self.spec_code(),
    ;
}

/// The code of a vertex shader.
pub struct VertexShaderBinary {
    code: Vec<u32>,
}

impl VertexShaderBinary {
    /// The shader of a SPIR-V binary.
    pub fn new(binary: &[u8]) -> (shader: VertexShaderBinary)
        requires
            spirv_words(binary@) is Some,
        ensures
            spirv_words(binary@) == Some(shader.spec_code()),
    {
        VertexShaderBinary { code: read_spv(binary).unwrap() }
    }
}

impl ShaderBinary for VertexShaderBinary {
    open spec fn spec_stage(&self) -> u32 {
        STAGE_VERTEX
    }

    closed spec fn spec_code(&self) -> Seq<u32> {
        self.code@
    }

    fn stage(&self) -> (stage: u32) {
        STAGE_VERTEX
    }

    fn code(&self) -> (code: &[u32]) {
        self.code.as_slice()
    }
}

/// The code of a fragment shader.
pub struct FragmentShaderBinary {
    code: Vec<u32>,
}

impl FragmentShaderBinary {
    /// The shader of a SPIR-V binary.
    pub fn new(binary: &[u8]) -> (shader: FragmentShaderBinary)
        requires
            spirv_words(binary@) is Some,
        ensures
            spirv_words(binary@) == Some(shader.spec_code()),
    {
        FragmentShaderBinary { code: read_spv(binary).unwrap() }
    }
}

impl ShaderBinary for FragmentShaderBinary {
    open spec fn spec_stage(&self) -> u32 {
        STAGE_FRAGMENT
    }

    closed spec fn spec_code(&self) -> Seq<u32> {
        self.code@
    }

    fn stage(&self) -> (stage: u32) {
        STAGE_FRAGMENT
    }

    fn code(&self) -> (code: &[u32]) {
        self.code.as_slice()
    }
}

/// The code of a geometry shader.
pub struct GeometryShaderBinary {
    code: Vec<u32>,
}

impl GeometryShaderBinary {
    /// The shader of a SPIR-V binary.
    pub fn new(binary: &[u8]) -> (shader: GeometryShaderBinary)
        requires
            spirv_words(binary@) is Some,
        ensures
            spirv_words(binary@) == Some(shader.spec_code()),
    {
        GeometryShaderBinary { code: read_spv(binary).unwrap() }
    }
}

impl ShaderBinary for GeometryShaderBinary {
    open spec fn spec_stage(&self) -> u32 {
        STAGE_GEOMETRY
    }

    closed spec fn spec_code(&self) -> Seq<u32> {
        self.code@
    }

    fn stage(&self) -> (stage: u32) {
        STAGE_GEOMETRY
    }

    fn code(&self) -> (code: &[u32]) {
        self.code.as_slice()
    }
}

/// Why a shader module could not be made, loaded or unloaded.
#[derive(Debug, Clone, PartialEq)]
pub enum ShaderModuleError {
    /// The entry point's name holds a NUL character.
    InvalidEntryPoint { entrypoint: String },
    LoadFailure { cause: String },
    UnloadFailure { cause: String },
}

/// A shader with the name of the function it starts at.
pub struct ShaderModule<A: ShaderBinary> {
    shader: A,
    entrypoint: String,
}

impl<A: ShaderBinary> ShaderModule<A> {
    pub closed spec fn spec_shader(&self) -> A {
        self.shader
    }

    pub closed spec fn spec_entrypoint(&self) -> Seq<char> {
        self.entrypoint@
    }

    /// A module of the shader that starts at `entrypoint`; the name must be
    /// a C string, with no NUL character in it.
    pub fn create(shader: A, entrypoint: &str) -> (module: Result<ShaderModule<A>, ShaderModuleError>)
        ensures
            match module {
                Ok(module) => {
                    &&& !entrypoint@.contains('\0')
                    &&& module.spec_shader() == shader
                    &&& module.spec_entrypoint() == entrypoint@
                },
                Err(error) => {
                    &&& entrypoint@.contains('\0')
                    &&& error matches ShaderModuleError::InvalidEntryPoint { entrypoint: name }
                    &&& name@ == entrypoint@
                },
            },
    {
        let length = entrypoint.unicode_len();
        let mut i: usize = 0;
        while i < length
            invariant
                length == entrypoint@.len(),
                0 <= i <= length,
                forall|k: int| 0 <= k < i ==> entrypoint@[k] != '\0',
            decreases length - i,
        {
            if entrypoint.get_char(i) == '\0' {
                assert(entrypoint@[i as int] == '\0');
                return Err(ShaderModuleError::InvalidEntryPoint { entrypoint: entrypoint.to_owned() });
            }
            i = i + 1;
        }
        assert(!entrypoint@.contains('\0'));
        Ok(ShaderModule { shader, entrypoint: entrypoint.to_owned() })
    }

    /// The shader.
    pub fn shader(&self) -> (shader: &A)
        ensures
            *shader == self.spec_shader(),
    {
        &self.shader
    }

    /// The name of the function the shader starts at.
    pub fn entrypoint(&self) -> (entrypoint: &str)
        ensures
            entrypoint@ == self.spec_entrypoint(),
    {
        self.entrypoint.as_str()
    }
}

/// The kinds of shader source the shader compiler is asked for.
#[derive(Debug, Copy, Clone, PartialEq, Eq, Structural)]
pub enum ShaderKind {
    Vertex,
    Fragment,
    Geometry,
    TessControl,
    TessEvaluation,
}

/// The kind a shader source names.
pub open spec fn spec_shader_kind(name: Seq<char>) -> Option<ShaderKind> {
    if name == "Vertex"@ {
        Some(ShaderKind::Vertex)
    } else if name == "Fragment"@ {
        Some(ShaderKind::Fragment)
    } else if name == "Geometry"@ {
        Some(ShaderKind::Geometry)
    } else if name == "TessControl"@ {
        Some(ShaderKind::TessControl)
    } else if name == "TessEvaluation"@ {
        Some(ShaderKind::TessEvaluation)
    } else {
        None
    }
}

fn same_text(a: &str, b: &str) -> (same: bool)
    ensures
        same == (a@ == b@),
{
    let length = a.unicode_len();
    if length != b.unicode_len() {
        return false;
    }
    let mut i: usize = 0;
    while i < length
        invariant
            length == a@.len(),
            length == b@.len(),
            0 <= i <= length,
            forall|k: int| 0 <= k < i ==> a@[k] == b@[k],
        decreases length - i,
    {
        if a.get_char(i) != b.get_char(i) {
            return false;
        }
        i = i + 1;
    }
    assert(a@ =~= b@);
    true
}

/// The kind of shader a name stands for; the name must be one of the five
/// kinds.
pub fn resolve_shader_kind(kind: &str) -> (resolved: ShaderKind)
    requires
        spec_shader_kind(kind@) is Some,
    ensures
        spec_shader_kind(kind@) == Some(resolved),
{
    if same_text(kind, "Vertex") {
        ShaderKind::Vertex
    } else if same_text(kind, "Fragment") {
        ShaderKind::Fragment
    } else if same_text(kind, "Geometry") {
        ShaderKind::Geometry
    } else if same_text(kind, "TessControl") {
        ShaderKind::TessControl
    } else {
        ShaderKind::TessEvaluation
    }
}

/// A binary is read in exactly one byte order: no first word reads as the
/// magic number both ways.
pub proof fn lemma_one_byte_order(bytes: Seq<u8>)
    requires
        bytes.len() >= 4,
    ensures
        !(le_word(bytes, 0) == SPIRV_MAGIC && be_word(bytes, 0) == SPIRV_MAGIC),
{
}

/// A binary that reads as SPIR-V has whole words, and as many as it has
/// bytes over four, the first of them the magic number.
pub proof fn lemma_spirv_words_shape(bytes: Seq<u8>)
    ensures
        spirv_words(bytes) matches Some(words) ==> {
            &&& bytes.len() % 4 == 0
            &&& words.len() == bytes.len() / 4
            &&& words.len() > 0
            &&& words[0] == SPIRV_MAGIC
        },
{
}

} // verus!
