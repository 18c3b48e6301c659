//! The enum vocabulary: the fixed set of strongly-typed constants that both
//! backends translate into their native integer codes.
//!
//! Each constant maps one-to-one to a backend-native code.  The mapping is
//! exhaustive over the publicly exposed values and carries no behaviour; an
//! unmapped value cannot exist, and injectivity of every mapping is proved
//! below.

use vstd::prelude::*;

verus! {

/// The sized internal storage the browser backend substitutes when a depth
/// texture is allocated without pixel data (`DEPTH_COMPONENT16`).
pub const DEPTH_COMPONENT16: u32 = 0x81A5;

/// The code a status query returns for a successful compile or link
/// (`GL_TRUE`).
pub const STATUS_TRUE: i32 = 1;

/// What a buffer stores: vertex attributes or indices.
#[derive(Clone, Copy, PartialEq, Eq, Structural, Debug)]
pub enum BufferKind {
    Array,
    ElementArray,
}

impl BufferKind {
    /// The backend-native code for this constant.
    pub open spec fn spec_code(self) -> u32 {
        match self {
            BufferKind::Array => 0x8892,
            BufferKind::ElementArray => 0x8893,
        }
    }

    /// Translate this constant into the backend-native code.
    pub fn code(self) -> (c: u32)
        ensures
            c == self.spec_code(),
    {
        match self {
            BufferKind::Array => 0x8892,
            BufferKind::ElementArray => 0x8893,
        }
    }
}

/// The mapping from buffer kinds to backend codes is one-to-one.
pub proof fn lemma_buffer_kind_code_injective(a: BufferKind, b: BufferKind)
    ensures
        a.spec_code() == b.spec_code() ==> a == b,
{
}

/// The usage hint given when a buffer is filled.
#[derive(Clone, Copy, PartialEq, Eq, Structural, Debug)]
pub enum DrawMode {
    Stream,
    Static,
    Dynamic,
}

impl DrawMode {
    /// The backend-native code for this constant.
    pub open spec fn spec_code(self) -> u32 {
        match self {
            DrawMode::Stream => 0x88E0,
            DrawMode::Static => 0x88E4,
            DrawMode::Dynamic => 0x88E8,
        }
    }

    /// Translate this constant into the backend-native code.
    pub fn code(self) -> (c: u32)
        ensures
            c == self.spec_code(),
    {
        match self {
            DrawMode::Stream => 0x88E0,
            DrawMode::Static => 0x88E4,
            DrawMode::Dynamic => 0x88E8,
        }
    }
}

/// The mapping from draw modes to backend codes is one-to-one.
pub proof fn lemma_draw_mode_code_injective(a: DrawMode, b: DrawMode)
    ensures
        a.spec_code() == b.spec_code() ==> a == b,
{
}

/// The two kinds of shader a program is built from.
#[derive(Clone, Copy, PartialEq, Eq, Structural, Debug)]
pub enum ShaderKind {
    Fragment,
    Vertex,
}

impl ShaderKind {
    /// The backend-native code for this constant.
    pub open spec fn spec_code(self) -> u32 {
        match self {
            ShaderKind::Fragment => 0x8B30,
            ShaderKind::Vertex => 0x8B31,
        }
    }

    /// Translate this constant into the backend-native code.
    pub fn code(self) -> (c: u32)
        ensures
            c == self.spec_code(),
    {
        match self {
            ShaderKind::Fragment => 0x8B30,
            ShaderKind::Vertex => 0x8B31,
        }
    }
}

/// The mapping from shader kinds to backend codes is one-to-one.
pub proof fn lemma_shader_kind_code_injective(a: ShaderKind, b: ShaderKind)
    ensures
        a.spec_code() == b.spec_code() ==> a == b,
{
}

/// The primitive a draw call assembles from its vertices.
#[derive(Clone, Copy, PartialEq, Eq, Structural, Debug)]
pub enum Primitives {
    Points,
    Lines,
    LineLoop,
    LineStrip,
    Triangles,
    TriangleStrip,
    TriangleFan,
}

impl Primitives {
    /// The backend-native code for this constant.
    pub open spec fn spec_code(self) -> u32 {
        match self {
            Primitives::Points => 0,
            Primitives::Lines => 1,
            Primitives::LineLoop => 2,
            Primitives::LineStrip => 3,
            Primitives::Triangles => 4,
            Primitives::TriangleStrip => 5,
            Primitives::TriangleFan => 6,
        }
    }

    /// Translate this constant into the backend-native code.
    pub fn code(self) -> (c: u32)
        ensures
            c == self.spec_code(),
    {
        match self {
            Primitives::Points => 0,
            Primitives::Lines => 1,
            Primitives::LineLoop => 2,
            Primitives::LineStrip => 3,
            Primitives::Triangles => 4,
            Primitives::TriangleStrip => 5,
            Primitives::TriangleFan => 6,
        }
    }
}

/// The mapping from primitive kinds to backend codes is one-to-one.
pub proof fn lemma_primitives_code_injective(a: Primitives, b: Primitives)
    ensures
        a.spec_code() == b.spec_code() ==> a == b,
{
}

/// The component type of vertex attribute or index data.
#[derive(Clone, Copy, PartialEq, Eq, Structural, Debug)]
pub enum DataType {
    I8,
    U8,
    I16,
    U16,
    I32,
    U32,
    Float,
}

impl DataType {
    /// The backend-native code for this constant.
    pub open spec fn spec_code(self) -> u32 {
        match self {
            DataType::I8 => 0x1400,
            DataType::U8 => 0x1401,
            DataType::I16 => 0x1402,
            DataType::U16 => 0x1403,
            DataType::I32 => 0x1404,
            DataType::U32 => 0x1405,
            DataType::Float => 0x1406,
        }
    }

    /// Translate this constant into the backend-native code.
    pub fn code(self) -> (c: u32)
        ensures
            c == self.spec_code(),
    {
        match self {
            DataType::I8 => 0x1400,
            DataType::U8 => 0x1401,
            DataType::I16 => 0x1402,
            DataType::U16 => 0x1403,
            DataType::I32 => 0x1404,
            DataType::U32 => 0x1405,
            DataType::Float => 0x1406,
        }
    }
}

/// The mapping from data types to backend codes is one-to-one.
pub proof fn lemma_data_type_code_injective(a: DataType, b: DataType)
    ensures
        a.spec_code() == b.spec_code() ==> a == b,
{
}

/// How many components a vertex attribute has.
#[derive(Clone, Copy, PartialEq, Eq, Structural, Debug)]
pub enum AttributeSize {
    One,
    Two,
    Three,
    Four,
}

impl AttributeSize {
    /// The backend-native code for this constant.
    pub open spec fn spec_code(self) -> u32 {
        match self {
            AttributeSize::One => 1,
            AttributeSize::Two => 2,
            AttributeSize::Three => 3,
            AttributeSize::Four => 4,
        }
    }

    /// Translate this constant into the backend-native code.
    pub fn code(self) -> (c: u32)
        ensures
            c == self.spec_code(),
    {
        match self {
            AttributeSize::One => 1,
            AttributeSize::Two => 2,
            AttributeSize::Three => 3,
            AttributeSize::Four => 4,
        }
    }
}

/// The mapping from attribute sizes to backend codes is one-to-one.
pub proof fn lemma_attribute_size_code_injective(a: AttributeSize, b: AttributeSize)
    ensures
        a.spec_code() == b.spec_code() ==> a == b,
{
}

/// Which buffer a clear call erases.
#[derive(Clone, Copy, PartialEq, Eq, Structural, Debug)]
pub enum BufferBit {
    Depth,
    Stencil,
    Color,
}

impl BufferBit {
    /// The backend-native code for this constant.
    pub open spec fn spec_code(self) -> u32 {
        match self {
            BufferBit::Depth => 0x100,
            BufferBit::Stencil => 0x400,
            BufferBit::Color => 0x4000,
        }
    }

    /// Translate this constant into the backend-native code.
    pub fn code(self) -> (c: u32)
        ensures
            c == self.spec_code(),
    {
        match self {
            BufferBit::Depth => 0x100,
            BufferBit::Stencil => 0x400,
            BufferBit::Color => 0x4000,
        }
    }
}

/// The mapping from buffer bits to backend codes is one-to-one.
pub proof fn lemma_buffer_bit_code_injective(a: BufferBit, b: BufferBit)
    ensures
        a.spec_code() == b.spec_code() ==> a == b,
{
}

/// Which polygon faces are culled.
#[derive(Clone, Copy, PartialEq, Eq, Structural, Debug)]
pub enum Culling {
    Front,
    Back,
    FrontAndBack,
}

impl Culling {
    /// The backend-native code for this constant.
    pub open spec fn spec_code(self) -> u32 {
        match self {
            Culling::Front => 0x404,
            Culling::Back => 0x405,
            Culling::FrontAndBack => 0x408,
        }
    }

    /// Translate this constant into the backend-native code.
    pub fn code(self) -> (c: u32)
        ensures
            c == self.spec_code(),
    {
        match self {
            Culling::Front => 0x404,
            Culling::Back => 0x405,
            Culling::FrontAndBack => 0x408,
        }
    }
}

/// The mapping from culling modes to backend codes is one-to-one.
pub proof fn lemma_culling_code_injective(a: Culling, b: Culling)
    ensures
        a.spec_code() == b.spec_code() ==> a == b,
{
}

/// The comparison used for depth-buffer tests.
#[derive(Clone, Copy, PartialEq, Eq, Structural, Debug)]
pub enum DepthTest {
    Never,
    Less,
    Equal,
    Lequal,
    Greater,
    Notequal,
    Gequal,
    Always,
}

impl DepthTest {
    /// The backend-native code for this constant.
    pub open spec fn spec_code(self) -> u32 {
        match self {
            DepthTest::Never => 0x200,
            DepthTest::Less => 0x201,
            DepthTest::Equal => 0x202,
            DepthTest::Lequal => 0x203,
            DepthTest::Greater => 0x204,
            DepthTest::Notequal => 0x205,
            DepthTest::Gequal => 0x206,
            DepthTest::Always => 0x207,
        }
    }

    /// Translate this constant into the backend-native code.
    pub fn code(self) -> (c: u32)
        ensures
            c == self.spec_code(),
    {
        match self {
            DepthTest::Never => 0x200,
            DepthTest::Less => 0x201,
            DepthTest::Equal => 0x202,
            DepthTest::Lequal => 0x203,
            DepthTest::Greater => 0x204,
            DepthTest::Notequal => 0x205,
            DepthTest::Gequal => 0x206,
            DepthTest::Always => 0x207,
        }
    }
}

/// The mapping from depth tests to backend codes is one-to-one.
pub proof fn lemma_depth_test_code_injective(a: DepthTest, b: DepthTest)
    ensures
        a.spec_code() == b.spec_code() ==> a == b,
{
}

/// A capability that can be enabled or disabled on the context.
#[derive(Clone, Copy, PartialEq, Eq, Structural, Debug)]
pub enum Flag {
    Blend,
    CullFace,
    DepthTest,
    Dither,
    PolygonOffsetFill,
    SampleAlphaToCoverage,
    SampleCoverage,
    ScissorTest,
    StencilTest,
}

impl Flag {
    /// The backend-native code for this constant.
    pub open spec fn spec_code(self) -> i32 {
        match self {
            Flag::Blend => 0x0BE2,
            Flag::CullFace => 0x0B44,
            Flag::DepthTest => 0x0B71,
            Flag::Dither => 0x0BD0,
            Flag::PolygonOffsetFill => 0x8037,
            Flag::SampleAlphaToCoverage => 0x809E,
            Flag::SampleCoverage => 0x80A0,
            Flag::ScissorTest => 0x0C11,
            Flag::StencilTest => 0x0B90,
        }
    }

    /// Translate this constant into the backend-native code.
    pub fn code(self) -> (c: i32)
        ensures
            c == self.spec_code(),
    {
        match self {
            Flag::Blend => 0x0BE2,
            Flag::CullFace => 0x0B44,
            Flag::DepthTest => 0x0B71,
            Flag::Dither => 0x0BD0,
            Flag::PolygonOffsetFill => 0x8037,
            Flag::SampleAlphaToCoverage => 0x809E,
            Flag::SampleCoverage => 0x80A0,
            Flag::ScissorTest => 0x0C11,
            Flag::StencilTest => 0x0B90,
        }
    }
}

/// The mapping from capability flags to backend codes is one-to-one.
pub proof fn lemma_flag_code_injective(a: Flag, b: Flag)
    ensures
        a.spec_code() == b.spec_code() ==> a == b,
{
}

/// The equation blending combines source and destination with.
#[derive(Clone, Copy, PartialEq, Eq, Structural, Debug)]
pub enum BlendEquation {
    FuncAdd,
    Min,
    Max,
    FuncSubtract,
    FuncReverseSubtract,
}

impl BlendEquation {
    /// The backend-native code for this constant.
    pub open spec fn spec_code(self) -> u32 {
        match self {
            BlendEquation::FuncAdd => 0x8006,
            BlendEquation::Min => 0x8007,
            BlendEquation::Max => 0x8008,
            BlendEquation::FuncSubtract => 0x800A,
            BlendEquation::FuncReverseSubtract => 0x800B,
        }
    }

    /// Translate this constant into the backend-native code.
    pub fn code(self) -> (c: u32)
        ensures
            c == self.spec_code(),
    {
        match self {
            BlendEquation::FuncAdd => 0x8006,
            BlendEquation::Min => 0x8007,
            BlendEquation::Max => 0x8008,
            BlendEquation::FuncSubtract => 0x800A,
            BlendEquation::FuncReverseSubtract => 0x800B,
        }
    }
}

/// The mapping from blend equations to backend codes is one-to-one.
pub proof fn lemma_blend_equation_code_injective(a: BlendEquation, b: BlendEquation)
    ensures
        a.spec_code() == b.spec_code() ==> a == b,
{
}

/// A blend factor for source or destination pixels.
#[derive(Clone, Copy, PartialEq, Eq, Structural, Debug)]
pub enum BlendMode {
    Zero,
    One,
    SrcColor,
    OneMinusSrcColor,
    SrcAlpha,
    OneMinusSrcAlpha,
    DstAlpha,
    OneMinusDstAlpha,
    DstColor,
    OneMinusDstColor,
    SrcAlphaSaturate,
}

impl BlendMode {
    /// The backend-native code for this constant.
    pub open spec fn spec_code(self) -> u32 {
        match self {
            BlendMode::Zero => 0,
            BlendMode::One => 1,
            BlendMode::SrcColor => 0x300,
            BlendMode::OneMinusSrcColor => 0x301,
            BlendMode::SrcAlpha => 0x302,
            BlendMode::OneMinusSrcAlpha => 0x303,
            BlendMode::DstAlpha => 0x304,
            BlendMode::OneMinusDstAlpha => 0x305,
            BlendMode::DstColor => 0x306,
            BlendMode::OneMinusDstColor => 0x307,
            BlendMode::SrcAlphaSaturate => 0x308,
        }
    }

    /// Translate this constant into the backend-native code.
    pub fn code(self) -> (c: u32)
        ensures
            c == self.spec_code(),
    {
        match self {
            BlendMode::Zero => 0,
            BlendMode::One => 1,
            BlendMode::SrcColor => 0x300,
            BlendMode::OneMinusSrcColor => 0x301,
            BlendMode::SrcAlpha => 0x302,
            BlendMode::OneMinusSrcAlpha => 0x303,
            BlendMode::DstAlpha => 0x304,
            BlendMode::OneMinusDstAlpha => 0x305,
            BlendMode::DstColor => 0x306,
            BlendMode::OneMinusDstColor => 0x307,
            BlendMode::SrcAlphaSaturate => 0x308,
        }
    }
}

/// The mapping from blend modes to backend codes is one-to-one.
pub proof fn lemma_blend_mode_code_injective(a: BlendMode, b: BlendMode)
    ensures
        a.spec_code() == b.spec_code() ==> a == b,
{
}

/// The texturing target a texture object is bound to.
#[derive(Clone, Copy, PartialEq, Eq, Structural, Debug)]
pub enum TextureKind {
    Texture2d,
    TextureCubeMap,
}

impl TextureKind {
    /// The backend-native code for this constant.
    pub open spec fn spec_code(self) -> u32 {
        match self {
            TextureKind::Texture2d => 0x0DE1,
            TextureKind::TextureCubeMap => 0x8513,
        }
    }

    /// Translate this constant into the backend-native code.
    pub fn code(self) -> (c: u32)
        ensures
            c == self.spec_code(),
    {
        match self {
            TextureKind::Texture2d => 0x0DE1,
            TextureKind::TextureCubeMap => 0x8513,
        }
    }
}

/// The mapping from texture kinds to backend codes is one-to-one.
pub proof fn lemma_texture_kind_code_injective(a: TextureKind, b: TextureKind)
    ensures
        a.spec_code() == b.spec_code() ==> a == b,
{
}

/// The image target of a texture upload: the flat 2D target or one cube face.
#[derive(Clone, Copy, PartialEq, Eq, Structural, Debug)]
pub enum TextureBindPoint {
    Texture2d,
    TextureCubeMapPositiveX,
    TextureCubeMapNegativeX,
    TextureCubeMapPositiveY,
    TextureCubeMapNegativeY,
    TextureCubeMapPositiveZ,
    TextureCubeMapNegativeZ,
}

impl TextureBindPoint {
    /// The backend-native code for this constant.
    pub open spec fn spec_code(self) -> u32 {
        match self {
            TextureBindPoint::Texture2d => 0x0DE1,
            TextureBindPoint::TextureCubeMapPositiveX => 0x8515,
            TextureBindPoint::TextureCubeMapNegativeX => 0x8516,
            TextureBindPoint::TextureCubeMapPositiveY => 0x8517,
            TextureBindPoint::TextureCubeMapNegativeY => 0x8518,
            TextureBindPoint::TextureCubeMapPositiveZ => 0x8519,
            TextureBindPoint::TextureCubeMapNegativeZ => 0x851A,
        }
    }

    /// Translate this constant into the backend-native code.
    pub fn code(self) -> (c: u32)
        ensures
            c == self.spec_code(),
    {
        match self {
            TextureBindPoint::Texture2d => 0x0DE1,
            TextureBindPoint::TextureCubeMapPositiveX => 0x8515,
            TextureBindPoint::TextureCubeMapNegativeX => 0x8516,
            TextureBindPoint::TextureCubeMapPositiveY => 0x8517,
            TextureBindPoint::TextureCubeMapNegativeY => 0x8518,
            TextureBindPoint::TextureCubeMapPositiveZ => 0x8519,
            TextureBindPoint::TextureCubeMapNegativeZ => 0x851A,
        }
    }
}

/// The mapping from texture bind points to backend codes is one-to-one.
pub proof fn lemma_texture_bind_point_code_injective(a: TextureBindPoint, b: TextureBindPoint)
    ensures
        a.spec_code() == b.spec_code() ==> a == b,
{
}

/// A per-texture sampling or wrapping parameter.
#[derive(Clone, Copy, PartialEq, Eq, Structural, Debug)]
pub enum TextureParameter {
    TextureMagFilter,
    TextureMinFilter,
    TextureWrapS,
    TextureWrapT,
    TextureWrapR,
}

impl TextureParameter {
    /// The backend-native code for this constant.
    pub open spec fn spec_code(self) -> u32 {
        match self {
            TextureParameter::TextureMagFilter => 0x2800,
            TextureParameter::TextureMinFilter => 0x2801,
            TextureParameter::TextureWrapS => 0x2802,
            TextureParameter::TextureWrapT => 0x2803,
            TextureParameter::TextureWrapR => 0x8072,
        }
    }

    /// Translate this constant into the backend-native code.
    pub fn code(self) -> (c: u32)
        ensures
            c == self.spec_code(),
    {
        match self {
            TextureParameter::TextureMagFilter => 0x2800,
            TextureParameter::TextureMinFilter => 0x2801,
            TextureParameter::TextureWrapS => 0x2802,
            TextureParameter::TextureWrapT => 0x2803,
            TextureParameter::TextureWrapR => 0x8072,
        }
    }
}

/// The mapping from texture parameters to backend codes is one-to-one.
pub proof fn lemma_texture_parameter_code_injective(a: TextureParameter, b: TextureParameter)
    ensures
        a.spec_code() == b.spec_code() ==> a == b,
{
}

/// A block-compressed texture format.
#[derive(Clone, Copy, PartialEq, Eq, Structural, Debug)]
pub enum TextureCompression {
    RgbDxt1,
    RgbaDxt1,
    RgbaDxt3,
    RgbaDxt5,
}

impl TextureCompression {
    /// The backend-native code for this constant.
    pub open spec fn spec_code(self) -> u32 {
        match self {
            TextureCompression::RgbDxt1 => 0x83F0,
            TextureCompression::RgbaDxt1 => 0x83F1,
            TextureCompression::RgbaDxt3 => 0x83F2,
            TextureCompression::RgbaDxt5 => 0x83F3,
        }
    }

    /// Translate this constant into the backend-native code.
    pub fn code(self) -> (c: u32)
        ensures
            c == self.spec_code(),
    {
        match self {
            TextureCompression::RgbDxt1 => 0x83F0,
            TextureCompression::RgbaDxt1 => 0x83F1,
            TextureCompression::RgbaDxt3 => 0x83F2,
            TextureCompression::RgbaDxt5 => 0x83F3,
        }
    }
}

/// The mapping from compressed formats to backend codes is one-to-one.
pub proof fn lemma_texture_compression_code_injective(a: TextureCompression, b: TextureCompression)
    ensures
        a.spec_code() == b.spec_code() ==> a == b,
{
}

/// The layout of one pixel handed to or read from the backend.
#[derive(Clone, Copy, PartialEq, Eq, Structural, Debug)]
pub enum PixelFormat {
    DepthComponent,
    Alpha,
    Rgb,
    Rgba,
    Luminance,
    LuminanceAlpha,
}

impl PixelFormat {
    /// The backend-native code for this constant.
    pub open spec fn spec_code(self) -> u32 {
        match self {
            PixelFormat::DepthComponent => 0x1902,
            PixelFormat::Alpha => 0x1906,
            PixelFormat::Rgb => 0x1907,
            PixelFormat::Rgba => 0x1908,
            PixelFormat::Luminance => 0x1909,
            PixelFormat::LuminanceAlpha => 0x190A,
        }
    }

    /// Translate this constant into the backend-native code.
    pub fn code(self) -> (c: u32)
        ensures
            c == self.spec_code(),
    {
        match self {
            PixelFormat::DepthComponent => 0x1902,
            PixelFormat::Alpha => 0x1906,
            PixelFormat::Rgb => 0x1907,
            PixelFormat::Rgba => 0x1908,
            PixelFormat::Luminance => 0x1909,
            PixelFormat::LuminanceAlpha => 0x190A,
        }
    }
}

/// The mapping from pixel formats to backend codes is one-to-one.
pub proof fn lemma_pixel_format_code_injective(a: PixelFormat, b: PixelFormat)
    ensures
        a.spec_code() == b.spec_code() ==> a == b,
{
}

/// The component type of one pixel channel.
#[derive(Clone, Copy, PartialEq, Eq, Structural, Debug)]
pub enum PixelType {
    UnsignedByte,
    UnsignedShort,
    UnsignedInt,
    Float,
    UnsignedShort4444,
    UnsignedShort5551,
    UnsignedShort565,
}

impl PixelType {
    /// The backend-native code for this constant.
    pub open spec fn spec_code(self) -> u32 {
        match self {
            PixelType::UnsignedByte => 0x1401,
            PixelType::UnsignedShort => 0x1403,
            PixelType::UnsignedInt => 0x1405,
            PixelType::Float => 0x1406,
            PixelType::UnsignedShort4444 => 0x8033,
            PixelType::UnsignedShort5551 => 0x8034,
            PixelType::UnsignedShort565 => 0x8363,
        }
    }

    /// Translate this constant into the backend-native code.
    pub fn code(self) -> (c: u32)
        ensures
            c == self.spec_code(),
    {
        match self {
            PixelType::UnsignedByte => 0x1401,
            PixelType::UnsignedShort => 0x1403,
            PixelType::UnsignedInt => 0x1405,
            PixelType::Float => 0x1406,
            PixelType::UnsignedShort4444 => 0x8033,
            PixelType::UnsignedShort5551 => 0x8034,
            PixelType::UnsignedShort565 => 0x8363,
        }
    }
}

/// The mapping from pixel types to backend codes is one-to-one.
pub proof fn lemma_pixel_type_code_injective(a: PixelType, b: PixelType)
    ensures
        a.spec_code() == b.spec_code() ==> a == b,
{
}

/// A pixel storage mode set before uploads or reads.
#[derive(Clone, Copy, PartialEq, Eq, Structural, Debug)]
pub enum PixelStorageMode {
    PackAlignment,
    UnpackAlignment,
    UnpackFlipY,
    UnpackPremultiplyAlpha,
    UnpackColorspaceConversion,
}

impl PixelStorageMode {
    /// The backend-native code for this constant.
    pub open spec fn spec_code(self) -> u32 {
        match self {
            PixelStorageMode::PackAlignment => 0x0D05,
            PixelStorageMode::UnpackAlignment => 0x0CF5,
            PixelStorageMode::UnpackFlipY => 0x9240,
            PixelStorageMode::UnpackPremultiplyAlpha => 0x9241,
            PixelStorageMode::UnpackColorspaceConversion => 0x9243,
        }
    }

    /// Translate this constant into the backend-native code.
    pub fn code(self) -> (c: u32)
        ensures
            c == self.spec_code(),
    {
        match self {
            PixelStorageMode::PackAlignment => 0x0D05,
            PixelStorageMode::UnpackAlignment => 0x0CF5,
            PixelStorageMode::UnpackFlipY => 0x9240,
            PixelStorageMode::UnpackPremultiplyAlpha => 0x9241,
            PixelStorageMode::UnpackColorspaceConversion => 0x9243,
        }
    }
}

/// The mapping from pixel storage modes to backend codes is one-to-one.
pub proof fn lemma_pixel_storage_mode_code_injective(a: PixelStorageMode, b: PixelStorageMode)
    ensures
        a.spec_code() == b.spec_code() ==> a == b,
{
}

/// What a program or shader status query asks for.
#[derive(Clone, Copy, PartialEq, Eq, Structural, Debug)]
pub enum ShaderParameter {
    ShaderType,
    DeleteStatus,
    CompileStatus,
    LinkStatus,
    ValidateStatus,
    AttachedShaders,
    ActiveUniforms,
    ActiveAttributes,
}

impl ShaderParameter {
    /// The backend-native code for this constant.
    pub open spec fn spec_code(self) -> u32 {
        match self {
            ShaderParameter::ShaderType => 0x8B4F,
            ShaderParameter::DeleteStatus => 0x8B80,
            ShaderParameter::CompileStatus => 0x8B81,
            ShaderParameter::LinkStatus => 0x8B82,
            ShaderParameter::ValidateStatus => 0x8B83,
            ShaderParameter::AttachedShaders => 0x8B85,
            ShaderParameter::ActiveUniforms => 0x8B86,
            ShaderParameter::ActiveAttributes => 0x8B89,
        }
    }

    /// Translate this constant into the backend-native code.
    pub fn code(self) -> (c: u32)
        ensures
            c == self.spec_code(),
    {
        match self {
            ShaderParameter::ShaderType => 0x8B4F,
            ShaderParameter::DeleteStatus => 0x8B80,
            ShaderParameter::CompileStatus => 0x8B81,
            ShaderParameter::LinkStatus => 0x8B82,
            ShaderParameter::ValidateStatus => 0x8B83,
            ShaderParameter::AttachedShaders => 0x8B85,
            ShaderParameter::ActiveUniforms => 0x8B86,
            ShaderParameter::ActiveAttributes => 0x8B89,
        }
    }
}

/// The mapping from shader parameters to backend codes is one-to-one.
pub proof fn lemma_shader_parameter_code_injective(a: ShaderParameter, b: ShaderParameter)
    ensures
        a.spec_code() == b.spec_code() ==> a == b,
{
}

/// A framebuffer target or attachment point.
#[derive(Clone, Copy, PartialEq, Eq, Structural, Debug)]
pub enum Buffers {
    Framebuffer,
    Renderbuffer,
    ColorAttachment0,
    DepthAttachment,
    StencilAttachment,
    DepthStencilAttachment,
}

impl Buffers {
    /// The backend-native code for this constant.
    pub open spec fn spec_code(self) -> u32 {
        match self {
            Buffers::Framebuffer => 0x8D40,
            Buffers::Renderbuffer => 0x8D41,
            Buffers::ColorAttachment0 => 0x8CE0,
            Buffers::DepthAttachment => 0x8D00,
            Buffers::StencilAttachment => 0x8D20,
            Buffers::DepthStencilAttachment => 0x821A,
        }
    }

    /// Translate this constant into the backend-native code.
    pub fn code(self) -> (c: u32)
        ensures
            c == self.spec_code(),
    {
        match self {
            Buffers::Framebuffer => 0x8D40,
            Buffers::Renderbuffer => 0x8D41,
            Buffers::ColorAttachment0 => 0x8CE0,
            Buffers::DepthAttachment => 0x8D00,
            Buffers::StencilAttachment => 0x8D20,
            Buffers::DepthStencilAttachment => 0x821A,
        }
    }
}

/// The mapping from framebuffer targets to backend codes is one-to-one.
pub proof fn lemma_buffers_code_injective(a: Buffers, b: Buffers)
    ensures
        a.spec_code() == b.spec_code() ==> a == b,
{
}

/// A color output a multi-target draw call can be directed into.
#[derive(Clone, Copy, PartialEq, Eq, Structural, Debug)]
pub enum ColorBuffer {
    Back,
    ColorAttachment0,
    ColorAttachment1,
    ColorAttachment2,
    ColorAttachment3,
}

impl ColorBuffer {
    /// The backend-native code for this constant.
    pub open spec fn spec_code(self) -> u32 {
        match self {
            ColorBuffer::Back => 0x405,
            ColorBuffer::ColorAttachment0 => 0x8CE0,
            ColorBuffer::ColorAttachment1 => 0x8CE1,
            ColorBuffer::ColorAttachment2 => 0x8CE2,
            ColorBuffer::ColorAttachment3 => 0x8CE3,
        }
    }

    /// Translate this constant into the backend-native code.
    pub fn code(self) -> (c: u32)
        ensures
            c == self.spec_code(),
    {
        match self {
            ColorBuffer::Back => 0x405,
            ColorBuffer::ColorAttachment0 => 0x8CE0,
            ColorBuffer::ColorAttachment1 => 0x8CE1,
            ColorBuffer::ColorAttachment2 => 0x8CE2,
            ColorBuffer::ColorAttachment3 => 0x8CE3,
        }
    }
}

/// The mapping from color buffers to backend codes is one-to-one.
pub proof fn lemma_color_buffer_code_injective(a: ColorBuffer, b: ColorBuffer)
    ensures
        a.spec_code() == b.spec_code() ==> a == b,
{
}

} // verus!
