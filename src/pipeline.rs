use vstd::prelude::*;
use crate::geometry::VERTEX_STRIDE;

verus! {

/// The shader input a vertex attribute feeds.
#[derive(Clone, Copy, Debug, PartialEq, Eq, Structural)]
pub enum Semantic {
    Position,
    Color,
}

/// The data format of a vertex attribute.
#[derive(Clone, Copy, Debug, PartialEq, Eq, Structural)]
pub enum ElementFormat {
    /// Three 32-bit floats.
    Float3,
    /// Four 32-bit floats.
    Float4,
}

/// One attribute of the vertex input layout.
#[derive(Clone, Copy, Debug, PartialEq, Eq, Structural)]
pub struct InputElement {
    pub semantic: Semantic,
    pub format: ElementFormat,
    /// Byte offset of the attribute within a vertex.
    pub offset: u32,
}

/// Bytes the shader reads for an attribute of format `f`.
pub open spec fn format_bytes(f: ElementFormat) -> nat {
    match f {
        ElementFormat::Float3 => 12,
        ElementFormat::Float4 => 16,
    }
}

/// The input layout: the position (read as three floats of its four) at
/// the start of the vertex, the colour 16 bytes in.
pub open spec fn input_layout_seq() -> Seq<InputElement> {
    seq![
        InputElement { semantic: Semantic::Position, format: ElementFormat::Float3, offset: 0 },
        InputElement { semantic: Semantic::Color, format: ElementFormat::Float4, offset: 16 },
    ]
}

/// The vertex input layout bound for the quad's vertices.
pub fn input_layout() -> (r: Vec<InputElement>)
    ensures
        r@ == input_layout_seq(),
        forall|i: int|
            0 <= i < r@.len() ==> (#[trigger] r@[i]).offset % 16 == 0 && r@[i].offset
                + format_bytes(r@[i].format) <= VERTEX_STRIDE,
        forall|i: int, j: int|
            0 <= i < j < r@.len() ==> #[trigger] r@[i].offset + format_bytes(r@[i].format)
                <= #[trigger] r@[j].offset,
{
    let r = vec![
        InputElement { semantic: Semantic::Position, format: ElementFormat::Float3, offset: 0 },
        InputElement { semantic: Semantic::Color, format: ElementFormat::Float4, offset: 16 },
    ];
    assert(r@ =~= input_layout_seq());
    r
}

/// A programmable pipeline stage.
#[derive(Clone, Copy, Debug, PartialEq, Eq, Structural)]
pub enum ShaderStage {
    Vertex,
    Pixel,
}

/// Where a stage's shader comes from and how it is compiled.
pub struct ShaderSource {
    pub file: String,
    pub entry_point: String,
    /// The shader model profile compiled for.
    pub target: String,
    /// Emit debug information.
    pub debug_info: bool,
    /// Compile without optimisation.
    pub skip_optimization: bool,
}

/// The shader of `stage`: both stages come from one source file, with an
/// entry point and a shader-model-5 profile per stage; a debug build keeps
/// debug information and skips optimisation.
pub fn shader_source(stage: ShaderStage, debug_build: bool) -> (r: ShaderSource)
    ensures
        r.file@ == "shaders.hlsl"@,
        stage == ShaderStage::Vertex ==> r.entry_point@ == "VSMain"@ && r.target@ == "vs_5_0"@,
        stage == ShaderStage::Pixel ==> r.entry_point@ == "PSMain"@ && r.target@ == "ps_5_0"@,
        r.debug_info == debug_build,
        r.skip_optimization == debug_build,
{
    let (entry_point, target) = match stage {
        ShaderStage::Vertex => (String::from_str("VSMain"), String::from_str("vs_5_0")),
        ShaderStage::Pixel => (String::from_str("PSMain"), String::from_str("ps_5_0")),
    };
    ShaderSource {
        file: String::from_str("shaders.hlsl"),
        entry_point,
        target,
        debug_info: debug_build,
        skip_optimization: debug_build,
    }
}

} // verus!
