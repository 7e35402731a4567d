//! SPIR-V binary modules: the word stream, the instructions that the
//! framework understands, and the vertex-input layout of a shader.
use vstd::prelude::*;
use vstd::utf8::{valid_utf8, decode_utf8};
use crate::text::string_from_utf8;
use crate::parsing::{Cursor, read_u32_le, le32};

verus! {

#[derive(Debug, Copy, Clone, PartialEq, Eq, Structural)]
pub enum Capability {
    Matrix,
    Shader,
    Geometry,
    Tessellation,
    Addresses,
    Linkage,
    Kernel,
    Vector16,
    Float16Buffer,
    Float16,
    Float64,
    Int64,
    Int64Atomics,
    ImageBasic,
    ImageReadWrite,
    ImageMipmap,
    Pipes,
    Groups,
    DeviceEnqueue,
    LiteralSampler,
    AtomicStorage,
    Int16,
    TessellationPointSize,
    GeometryPointSize,
    ImageGatherExtended,
    StorageImageMultisample,
    UniformBufferArrayDynamicIndexing,
    SampledImageArrayDynamicIndexing,
    StorageBufferArrayDynamicIndexing,
    StorageImageArrayDynamicIndexing,
    ClipDistance,
    CullDistance,
    ImageCubeArray,
    SampleRateShading,
    ImageRect,
    SampledRect,
    GenericPointer,
    Int8,
    InputAttachment,
    SparseResidency,
    MinLod,
    Sampled1D,
    Image1D,
    SampledCubeArray,
    SampledBuffer,
    ImageBuffer,
    ImageMSArray,
    StorageImageExtendedFormats,
    ImageQuery,
    DerivativeControl,
    InterpolationFunction,
    TransformFeedback,
    GeometryStreams,
    StorageImageReadWithoutFormat,
    StorageImageWriteWithoutFormat,
    MultiViewport,
    SubgroupDispatch,
    NamedBarrier,
    PipeStorage,
    GroupNonUniform,
    GroupNonUniformVote,
    GroupNonUniformArithmetic,
    GroupNonUniformBallot,
    GroupNonUniformShuffle,
    GroupNonUniformShuffleRelative,
    GroupNonUniformClustered,
    GroupNonUniformQuad,
    ShaderLayer,
    ShaderViewportIndex,
    UniformDecoration,
}

impl Capability {
    /// The SPIR-V word that stands for this enumerant.
    pub open spec fn spec_code(self) -> u32 {
        match self {
            Capability::Matrix => 0,
            Capability::Shader => 1,
            Capability::Geometry => 2,
            Capability::Tessellation => 3,
            Capability::Addresses => 4,
            Capability::Linkage => 5,
            Capability::Kernel => 6,
            Capability::Vector16 => 7,
            Capability::Float16Buffer => 8,
            Capability::Float16 => 9,
            Capability::Float64 => 10,
            Capability::Int64 => 11,
            Capability::Int64Atomics => 12,
            Capability::ImageBasic => 13,
            Capability::ImageReadWrite => 14,
            Capability::ImageMipmap => 15,
            Capability::Pipes => 16,
            Capability::Groups => 17,
            Capability::DeviceEnqueue => 18,
            Capability::LiteralSampler => 19,
            Capability::AtomicStorage => 20,
            Capability::Int16 => 21,
            Capability::TessellationPointSize => 22,
            Capability::GeometryPointSize => 23,
            Capability::ImageGatherExtended => 24,
            Capability::StorageImageMultisample => 25,
            Capability::UniformBufferArrayDynamicIndexing => 26,
            Capability::SampledImageArrayDynamicIndexing => 27,
            Capability::StorageBufferArrayDynamicIndexing => 28,
            Capability::StorageImageArrayDynamicIndexing => 29,
            Capability::ClipDistance => 30,
            Capability::CullDistance => 31,
            Capability::ImageCubeArray => 32,
            Capability::SampleRateShading => 33,
            Capability::ImageRect => 34,
            Capability::SampledRect => 35,
            Capability::GenericPointer => 36,
            Capability::Int8 => 37,
            Capability::InputAttachment => 38,
            Capability::SparseResidency => 39,
            Capability::MinLod => 40,
            Capability::Sampled1D => 41,
            Capability::Image1D => 42,
            Capability::SampledCubeArray => 43,
            Capability::SampledBuffer => 44,
            Capability::ImageBuffer => 45,
            Capability::ImageMSArray => 46,
            Capability::StorageImageExtendedFormats => 47,
            Capability::ImageQuery => 48,
            Capability::DerivativeControl => 49,
            Capability::InterpolationFunction => 50,
            Capability::TransformFeedback => 51,
            Capability::GeometryStreams => 52,
            Capability::StorageImageReadWithoutFormat => 53,
            Capability::StorageImageWriteWithoutFormat => 54,
            Capability::MultiViewport => 55,
            Capability::SubgroupDispatch => 56,
            Capability::NamedBarrier => 57,
            Capability::PipeStorage => 58,
            Capability::GroupNonUniform => 59,
            Capability::GroupNonUniformVote => 60,
            Capability::GroupNonUniformArithmetic => 61,
            Capability::GroupNonUniformBallot => 62,
            Capability::GroupNonUniformShuffle => 63,
            Capability::GroupNonUniformShuffleRelative => 64,
            Capability::GroupNonUniformClustered => 65,
            Capability::GroupNonUniformQuad => 66,
            Capability::ShaderLayer => 67,
            Capability::ShaderViewportIndex => 68,
            Capability::UniformDecoration => 69,
        }
    }

    /// The enumerant that the SPIR-V word `code` names, if any.
    pub open spec fn spec_from(code: u32) -> Option<Self> {
        match code {
            0 => Some(Capability::Matrix),
            1 => Some(Capability::Shader),
            2 => Some(Capability::Geometry),
            3 => Some(Capability::Tessellation),
            4 => Some(Capability::Addresses),
            5 => Some(Capability::Linkage),
            6 => Some(Capability::Kernel),
            7 => Some(Capability::Vector16),
            8 => Some(Capability::Float16Buffer),
            9 => Some(Capability::Float16),
            10 => Some(Capability::Float64),
            11 => Some(Capability::Int64),
            12 => Some(Capability::Int64Atomics),
            13 => Some(Capability::ImageBasic),
            14 => Some(Capability::ImageReadWrite),
            15 => Some(Capability::ImageMipmap),
            16 => Some(Capability::Pipes),
            17 => Some(Capability::Groups),
            18 => Some(Capability::DeviceEnqueue),
            19 => Some(Capability::LiteralSampler),
            20 => Some(Capability::AtomicStorage),
            21 => Some(Capability::Int16),
            22 => Some(Capability::TessellationPointSize),
            23 => Some(Capability::GeometryPointSize),
            24 => Some(Capability::ImageGatherExtended),
            25 => Some(Capability::StorageImageMultisample),
            26 => Some(Capability::UniformBufferArrayDynamicIndexing),
            27 => Some(Capability::SampledImageArrayDynamicIndexing),
            28 => Some(Capability::StorageBufferArrayDynamicIndexing),
            29 => Some(Capability::StorageImageArrayDynamicIndexing),
            30 => Some(Capability::ClipDistance),
            31 => Some(Capability::CullDistance),
            32 => Some(Capability::ImageCubeArray),
            33 => Some(Capability::SampleRateShading),
            34 => Some(Capability::ImageRect),
            35 => Some(Capability::SampledRect),
            36 => Some(Capability::GenericPointer),
            37 => Some(Capability::Int8),
            38 => Some(Capability::InputAttachment),
            39 => Some(Capability::SparseResidency),
            40 => Some(Capability::MinLod),
            41 => Some(Capability::Sampled1D),
            42 => Some(Capability::Image1D),
            43 => Some(Capability::SampledCubeArray),
            44 => Some(Capability::SampledBuffer),
            45 => Some(Capability::ImageBuffer),
            46 => Some(Capability::ImageMSArray),
            47 => Some(Capability::StorageImageExtendedFormats),
            48 => Some(Capability::ImageQuery),
            49 => Some(Capability::DerivativeControl),
            50 => Some(Capability::InterpolationFunction),
            51 => Some(Capability::TransformFeedback),
            52 => Some(Capability::GeometryStreams),
            53 => Some(Capability::StorageImageReadWithoutFormat),
            54 => Some(Capability::StorageImageWriteWithoutFormat),
            55 => Some(Capability::MultiViewport),
            56 => Some(Capability::SubgroupDispatch),
            57 => Some(Capability::NamedBarrier),
            58 => Some(Capability::PipeStorage),
            59 => Some(Capability::GroupNonUniform),
            60 => Some(Capability::GroupNonUniformVote),
            61 => Some(Capability::GroupNonUniformArithmetic),
            62 => Some(Capability::GroupNonUniformBallot),
            63 => Some(Capability::GroupNonUniformShuffle),
            64 => Some(Capability::GroupNonUniformShuffleRelative),
            65 => Some(Capability::GroupNonUniformClustered),
            66 => Some(Capability::GroupNonUniformQuad),
            67 => Some(Capability::ShaderLayer),
            68 => Some(Capability::ShaderViewportIndex),
            69 => Some(Capability::UniformDecoration),
            _ => None,
        }
    }

    /// The enumerant that the SPIR-V word `code` names; other codes are refused.
    pub fn from_code(code: u32) -> (e: Self)
        requires
            Self::spec_from(code) is Some,
        ensures
            Self::spec_from(code) == Some(e),
    {
        match code {
            0 => Capability::Matrix,
            1 => Capability::Shader,
            2 => Capability::Geometry,
            3 => Capability::Tessellation,
            4 => Capability::Addresses,
            5 => Capability::Linkage,
            6 => Capability::Kernel,
            7 => Capability::Vector16,
            8 => Capability::Float16Buffer,
            9 => Capability::Float16,
            10 => Capability::Float64,
            11 => Capability::Int64,
            12 => Capability::Int64Atomics,
            13 => Capability::ImageBasic,
            14 => Capability::ImageReadWrite,
            15 => Capability::ImageMipmap,
            16 => Capability::Pipes,
            17 => Capability::Groups,
            18 => Capability::DeviceEnqueue,
            19 => Capability::LiteralSampler,
            20 => Capability::AtomicStorage,
            21 => Capability::Int16,
            22 => Capability::TessellationPointSize,
            23 => Capability::GeometryPointSize,
            24 => Capability::ImageGatherExtended,
            25 => Capability::StorageImageMultisample,
            26 => Capability::UniformBufferArrayDynamicIndexing,
            27 => Capability::SampledImageArrayDynamicIndexing,
            28 => Capability::StorageBufferArrayDynamicIndexing,
            29 => Capability::StorageImageArrayDynamicIndexing,
            30 => Capability::ClipDistance,
            31 => Capability::CullDistance,
            32 => Capability::ImageCubeArray,
            33 => Capability::SampleRateShading,
            34 => Capability::ImageRect,
            35 => Capability::SampledRect,
            36 => Capability::GenericPointer,
            37 => Capability::Int8,
            38 => Capability::InputAttachment,
            39 => Capability::SparseResidency,
            40 => Capability::MinLod,
            41 => Capability::Sampled1D,
            42 => Capability::Image1D,
            43 => Capability::SampledCubeArray,
            44 => Capability::SampledBuffer,
            45 => Capability::ImageBuffer,
            46 => Capability::ImageMSArray,
            47 => Capability::StorageImageExtendedFormats,
            48 => Capability::ImageQuery,
            49 => Capability::DerivativeControl,
            50 => Capability::InterpolationFunction,
            51 => Capability::TransformFeedback,
            52 => Capability::GeometryStreams,
            53 => Capability::StorageImageReadWithoutFormat,
            54 => Capability::StorageImageWriteWithoutFormat,
            55 => Capability::MultiViewport,
            56 => Capability::SubgroupDispatch,
            57 => Capability::NamedBarrier,
            58 => Capability::PipeStorage,
            59 => Capability::GroupNonUniform,
            60 => Capability::GroupNonUniformVote,
            61 => Capability::GroupNonUniformArithmetic,
            62 => Capability::GroupNonUniformBallot,
            63 => Capability::GroupNonUniformShuffle,
            64 => Capability::GroupNonUniformShuffleRelative,
            65 => Capability::GroupNonUniformClustered,
            66 => Capability::GroupNonUniformQuad,
            67 => Capability::ShaderLayer,
            68 => Capability::ShaderViewportIndex,
            69 => Capability::UniformDecoration,
            _ => vstd::pervasive::unreached(),
        }
    }
}

/// A SPIR-V word decodes to a `Capability` enumerant exactly when it is the word
/// that enumerant stands for.
pub proof fn lemma_capability_codes(w: u32, e: Capability)
    ensures
        Capability::spec_from(w) == Some(e) <==> e.spec_code() == w,
{
}

#[derive(Debug, Copy, Clone, PartialEq, Eq, Structural)]
pub enum AddressingModel {
    Logical,
    Physical32,
    Physical64,
    PhysicalStorageBuffer64,
}

impl AddressingModel {
    /// The SPIR-V word that stands for this enumerant.
    pub open spec fn spec_code(self) -> u32 {
        match self {
            AddressingModel::Logical => 0,
            AddressingModel::Physical32 => 1,
            AddressingModel::Physical64 => 2,
            AddressingModel::PhysicalStorageBuffer64 => 5348,
        }
    }

    /// The enumerant that the SPIR-V word `code` names, if any.
    pub open spec fn spec_from(code: u32) -> Option<Self> {
        match code {
            0 => Some(AddressingModel::Logical),
            1 => Some(AddressingModel::Physical32),
            2 => Some(AddressingModel::Physical64),
            5348 => Some(AddressingModel::PhysicalStorageBuffer64),
            _ => None,
        }
    }

    /// The enumerant that the SPIR-V word `code` names; other codes are refused.
    pub fn from_code(code: u32) -> (e: Self)
        requires
            Self::spec_from(code) is Some,
        ensures
            Self::spec_from(code) == Some(e),
    {
        match code {
            0 => AddressingModel::Logical,
            1 => AddressingModel::Physical32,
            2 => AddressingModel::Physical64,
            5348 => AddressingModel::PhysicalStorageBuffer64,
            _ => vstd::pervasive::unreached(),
        }
    }
}

/// A SPIR-V word decodes to a `AddressingModel` enumerant exactly when it is the word
/// that enumerant stands for.
pub proof fn lemma_addressing_model_codes(w: u32, e: AddressingModel)
    ensures
        AddressingModel::spec_from(w) == Some(e) <==> e.spec_code() == w,
{
}

#[derive(Debug, Copy, Clone, PartialEq, Eq, Structural)]
pub enum MemoryModel {
    Simple,
    GLSL450,
    OpenCL,
    Vulkan,
}

impl MemoryModel {
    /// The SPIR-V word that stands for this enumerant.
    pub open spec fn spec_code(self) -> u32 {
        match self {
            MemoryModel::Simple => 0,
            MemoryModel::GLSL450 => 1,
            MemoryModel::OpenCL => 2,
            MemoryModel::Vulkan => 3,
        }
    }

    /// The enumerant that the SPIR-V word `code` names, if any.
    pub open spec fn spec_from(code: u32) -> Option<Self> {
        match code {
            0 => Some(MemoryModel::Simple),
            1 => Some(MemoryModel::GLSL450),
            2 => Some(MemoryModel::OpenCL),
            3 => Some(MemoryModel::Vulkan),
            _ => None,
        }
    }

    /// The enumerant that the SPIR-V word `code` names; other codes are refused.
    pub fn from_code(code: u32) -> (e: Self)
        requires
            Self::spec_from(code) is Some,
        ensures
            Self::spec_from(code) == Some(e),
    {
        match code {
            0 => MemoryModel::Simple,
            1 => MemoryModel::GLSL450,
            2 => MemoryModel::OpenCL,
            3 => MemoryModel::Vulkan,
            _ => vstd::pervasive::unreached(),
        }
    }
}

/// A SPIR-V word decodes to a `MemoryModel` enumerant exactly when it is the word
/// that enumerant stands for.
pub proof fn lemma_memory_model_codes(w: u32, e: MemoryModel)
    ensures
        MemoryModel::spec_from(w) == Some(e) <==> e.spec_code() == w,
{
}

#[derive(Debug, Copy, Clone, PartialEq, Eq, Structural)]
pub enum ExecutionModel {
    Vertex,
    TessellationControl,
    TessellationEvaluation,
    Geometry,
    Fragment,
    GLCompute,
    Kernel,
}

impl ExecutionModel {
    /// The SPIR-V word that stands for this enumerant.
    pub open spec fn spec_code(self) -> u32 {
        match self {
            ExecutionModel::Vertex => 0,
            ExecutionModel::TessellationControl => 1,
            ExecutionModel::TessellationEvaluation => 2,
            ExecutionModel::Geometry => 3,
            ExecutionModel::Fragment => 4,
            ExecutionModel::GLCompute => 5,
            ExecutionModel::Kernel => 6,
        }
    }

    /// The enumerant that the SPIR-V word `code` names, if any.
    pub open spec fn spec_from(code: u32) -> Option<Self> {
        match code {
            0 => Some(ExecutionModel::Vertex),
            1 => Some(ExecutionModel::TessellationControl),
            2 => Some(ExecutionModel::TessellationEvaluation),
            3 => Some(ExecutionModel::Geometry),
            4 => Some(ExecutionModel::Fragment),
            5 => Some(ExecutionModel::GLCompute),
            6 => Some(ExecutionModel::Kernel),
            _ => None,
        }
    }

    /// The enumerant that the SPIR-V word `code` names; other codes are refused.
    pub fn from_code(code: u32) -> (e: Self)
        requires
            Self::spec_from(code) is Some,
        ensures
            Self::spec_from(code) == Some(e),
    {
        match code {
            0 => ExecutionModel::Vertex,
            1 => ExecutionModel::TessellationControl,
            2 => ExecutionModel::TessellationEvaluation,
            3 => ExecutionModel::Geometry,
            4 => ExecutionModel::Fragment,
            5 => ExecutionModel::GLCompute,
            6 => ExecutionModel::Kernel,
            _ => vstd::pervasive::unreached(),
        }
    }
}

/// A SPIR-V word decodes to a `ExecutionModel` enumerant exactly when it is the word
/// that enumerant stands for.
pub proof fn lemma_execution_model_codes(w: u32, e: ExecutionModel)
    ensures
        ExecutionModel::spec_from(w) == Some(e) <==> e.spec_code() == w,
{
}

#[derive(Debug, Copy, Clone, PartialEq, Eq, Structural)]
pub enum StorageClass {
    UniformConstant,
    Input,
    Uniform,
    Output,
    Workgroup,
    CrossWorkgroup,
    Private,
    Function,
    Generic,
    PushConstant,
    AtomicCounter,
    Image,
    StorageBuffer,
}

impl StorageClass {
    /// The SPIR-V word that stands for this enumerant.
    pub open spec fn spec_code(self) -> u32 {
        match self {
            StorageClass::UniformConstant => 0,
            StorageClass::Input => 1,
            StorageClass::Uniform => 2,
            StorageClass::Output => 3,
            StorageClass::Workgroup => 4,
            StorageClass::CrossWorkgroup => 5,
            StorageClass::Private => 6,
            StorageClass::Function => 7,
            StorageClass::Generic => 8,
            StorageClass::PushConstant => 9,
            StorageClass::AtomicCounter => 10,
            StorageClass::Image => 11,
            StorageClass::StorageBuffer => 12,
        }
    }

    /// The enumerant that the SPIR-V word `code` names, if any.
    pub open spec fn spec_from(code: u32) -> Option<Self> {
        match code {
            0 => Some(StorageClass::UniformConstant),
            1 => Some(StorageClass::Input),
            2 => Some(StorageClass::Uniform),
            3 => Some(StorageClass::Output),
            4 => Some(StorageClass::Workgroup),
            5 => Some(StorageClass::CrossWorkgroup),
            6 => Some(StorageClass::Private),
            7 => Some(StorageClass::Function),
            8 => Some(StorageClass::Generic),
            9 => Some(StorageClass::PushConstant),
            10 => Some(StorageClass::AtomicCounter),
            11 => Some(StorageClass::Image),
            12 => Some(StorageClass::StorageBuffer),
            _ => None,
        }
    }

    /// The enumerant that the SPIR-V word `code` names; other codes are refused.
    pub fn from_code(code: u32) -> (e: Self)
        requires
            Self::spec_from(code) is Some,
        ensures
            Self::spec_from(code) == Some(e),
    {
        match code {
            0 => StorageClass::UniformConstant,
            1 => StorageClass::Input,
            2 => StorageClass::Uniform,
            3 => StorageClass::Output,
            4 => StorageClass::Workgroup,
            5 => StorageClass::CrossWorkgroup,
            6 => StorageClass::Private,
            7 => StorageClass::Function,
            8 => StorageClass::Generic,
            9 => StorageClass::PushConstant,
            10 => StorageClass::AtomicCounter,
            11 => StorageClass::Image,
            12 => StorageClass::StorageBuffer,
            _ => vstd::pervasive::unreached(),
        }
    }
}

/// A SPIR-V word decodes to a `StorageClass` enumerant exactly when it is the word
/// that enumerant stands for.
pub proof fn lemma_storage_class_codes(w: u32, e: StorageClass)
    ensures
        StorageClass::spec_from(w) == Some(e) <==> e.spec_code() == w,
{
}

#[derive(Debug, Copy, Clone, PartialEq, Eq, Structural)]
pub enum SourceLanguage {
    Unknown,
    ESSL,
    GLSL,
    OpenCL_C,
    OpenCL_CPP,
    HLSL,
    CPP_for_OpenCL,
}

impl SourceLanguage {
    /// The SPIR-V word that stands for this enumerant.
    pub open spec fn spec_code(self) -> u32 {
        match self {
            SourceLanguage::Unknown => 0,
            SourceLanguage::ESSL => 1,
            SourceLanguage::GLSL => 2,
            SourceLanguage::OpenCL_C => 3,
            SourceLanguage::OpenCL_CPP => 4,
            SourceLanguage::HLSL => 5,
            SourceLanguage::CPP_for_OpenCL => 6,
        }
    }

    /// The enumerant that the SPIR-V word `code` names, if any.
    pub open spec fn spec_from(code: u32) -> Option<Self> {
        match code {
            0 => Some(SourceLanguage::Unknown),
            1 => Some(SourceLanguage::ESSL),
            2 => Some(SourceLanguage::GLSL),
            3 => Some(SourceLanguage::OpenCL_C),
            4 => Some(SourceLanguage::OpenCL_CPP),
            5 => Some(SourceLanguage::HLSL),
            6 => Some(SourceLanguage::CPP_for_OpenCL),
            _ => None,
        }
    }

    /// The enumerant that the SPIR-V word `code` names; other codes are refused.
    pub fn from_code(code: u32) -> (e: Self)
        requires
            Self::spec_from(code) is Some,
        ensures
            Self::spec_from(code) == Some(e),
    {
        match code {
            0 => SourceLanguage::Unknown,
            1 => SourceLanguage::ESSL,
            2 => SourceLanguage::GLSL,
            3 => SourceLanguage::OpenCL_C,
            4 => SourceLanguage::OpenCL_CPP,
            5 => SourceLanguage::HLSL,
            6 => SourceLanguage::CPP_for_OpenCL,
            _ => vstd::pervasive::unreached(),
        }
    }
}

/// A SPIR-V word decodes to a `SourceLanguage` enumerant exactly when it is the word
/// that enumerant stands for.
pub proof fn lemma_source_language_codes(w: u32, e: SourceLanguage)
    ensures
        SourceLanguage::spec_from(w) == Some(e) <==> e.spec_code() == w,
{
}

#[derive(Debug, Copy, Clone, PartialEq, Eq, Structural)]
pub enum ExecutionMode {
    Invocations,
    SpacingEqual,
    SpacingFractionalEven,
    SpacingFractionalOdd,
    VertexOrderCw,
    VertexOrderCcw,
    PixelCenterInteger,
    OriginUpperLeft,
    OriginLowerLeft,
    EarlyFragmentTests,
    PointMode,
    Xfb,
    DepthReplacing,
    DepthGreater,
    DepthLess,
    DepthUnchanged,
    LocalSize,
    LocalSizeHint,
    InputPoints,
    InputLines,
    InputLinesAdjacency,
    Triangles,
    InputTrianglesAdjacency,
    Quads,
    Isolines,
    OutputVertices,
    OutputPoints,
    OutputLineStrip,
    OutputTriangleStrip,
    VecTypeHint,
    ContractionOff,
    Initializer,
    Finalizer,
    SubgroupSize,
    SubgroupsPerWorkgroup,
    SubgroupsPerWorkgroupId,
    LocalSizeId,
    LocalSizeHintId,
}

impl ExecutionMode {
    /// The SPIR-V word that stands for this enumerant.
    pub open spec fn spec_code(self) -> u32 {
        match self {
            ExecutionMode::Invocations => 0,
            ExecutionMode::SpacingEqual => 1,
            ExecutionMode::SpacingFractionalEven => 2,
            ExecutionMode::SpacingFractionalOdd => 3,
            ExecutionMode::VertexOrderCw => 4,
            ExecutionMode::VertexOrderCcw => 5,
            ExecutionMode::PixelCenterInteger => 6,
            ExecutionMode::OriginUpperLeft => 7,
            ExecutionMode::OriginLowerLeft => 8,
            ExecutionMode::EarlyFragmentTests => 9,
            ExecutionMode::PointMode => 10,
            ExecutionMode::Xfb => 11,
            ExecutionMode::DepthReplacing => 12,
            ExecutionMode::DepthGreater => 13,
            ExecutionMode::DepthLess => 14,
            ExecutionMode::DepthUnchanged => 15,
            ExecutionMode::LocalSize => 16,
            ExecutionMode::LocalSizeHint => 17,
            ExecutionMode::InputPoints => 18,
            ExecutionMode::InputLines => 19,
            ExecutionMode::InputLinesAdjacency => 20,
            ExecutionMode::Triangles => 21,
            ExecutionMode::InputTrianglesAdjacency => 22,
            ExecutionMode::Quads => 23,
            ExecutionMode::Isolines => 24,
            ExecutionMode::OutputVertices => 25,
            ExecutionMode::OutputPoints => 26,
            ExecutionMode::OutputLineStrip => 27,
            ExecutionMode::OutputTriangleStrip => 28,
            ExecutionMode::VecTypeHint => 29,
            ExecutionMode::ContractionOff => 30,
            ExecutionMode::Initializer => 31,
            ExecutionMode::Finalizer => 32,
            ExecutionMode::SubgroupSize => 33,
            ExecutionMode::SubgroupsPerWorkgroup => 34,
            ExecutionMode::SubgroupsPerWorkgroupId => 35,
            ExecutionMode::LocalSizeId => 36,
            ExecutionMode::LocalSizeHintId => 37,
        }
    }

    /// The enumerant that the SPIR-V word `code` names, if any.
    pub open spec fn spec_from(code: u32) -> Option<Self> {
        match code {
            0 => Some(ExecutionMode::Invocations),
            1 => Some(ExecutionMode::SpacingEqual),
            2 => Some(ExecutionMode::SpacingFractionalEven),
            3 => Some(ExecutionMode::SpacingFractionalOdd),
            4 => Some(ExecutionMode::VertexOrderCw),
            5 => Some(ExecutionMode::VertexOrderCcw),
            6 => Some(ExecutionMode::PixelCenterInteger),
            7 => Some(ExecutionMode::OriginUpperLeft),
            8 => Some(ExecutionMode::OriginLowerLeft),
            9 => Some(ExecutionMode::EarlyFragmentTests),
            10 => Some(ExecutionMode::PointMode),
            11 => Some(ExecutionMode::Xfb),
            12 => Some(ExecutionMode::DepthReplacing),
            13 => Some(ExecutionMode::DepthGreater),
            14 => Some(ExecutionMode::DepthLess),
            15 => Some(ExecutionMode::DepthUnchanged),
            16 => Some(ExecutionMode::LocalSize),
            17 => Some(ExecutionMode::LocalSizeHint),
            18 => Some(ExecutionMode::InputPoints),
            19 => Some(ExecutionMode::InputLines),
            20 => Some(ExecutionMode::InputLinesAdjacency),
            21 => Some(ExecutionMode::Triangles),
            22 => Some(ExecutionMode::InputTrianglesAdjacency),
            23 => Some(ExecutionMode::Quads),
            24 => Some(ExecutionMode::Isolines),
            25 => Some(ExecutionMode::OutputVertices),
            26 => Some(ExecutionMode::OutputPoints),
            27 => Some(ExecutionMode::OutputLineStrip),
            28 => Some(ExecutionMode::OutputTriangleStrip),
            29 => Some(ExecutionMode::VecTypeHint),
            30 => Some(ExecutionMode::ContractionOff),
            31 => Some(ExecutionMode::Initializer),
            32 => Some(ExecutionMode::Finalizer),
            33 => Some(ExecutionMode::SubgroupSize),
            34 => Some(ExecutionMode::SubgroupsPerWorkgroup),
            35 => Some(ExecutionMode::SubgroupsPerWorkgroupId),
            36 => Some(ExecutionMode::LocalSizeId),
            37 => Some(ExecutionMode::LocalSizeHintId),
            _ => None,
        }
    }

    /// The enumerant that the SPIR-V word `code` names; other codes are refused.
    pub fn from_code(code: u32) -> (e: Self)
        requires
            Self::spec_from(code) is Some,
        ensures
            Self::spec_from(code) == Some(e),
    {
        match code {
            0 => ExecutionMode::Invocations,
            1 => ExecutionMode::SpacingEqual,
            2 => ExecutionMode::SpacingFractionalEven,
            3 => ExecutionMode::SpacingFractionalOdd,
            4 => ExecutionMode::VertexOrderCw,
            5 => ExecutionMode::VertexOrderCcw,
            6 => ExecutionMode::PixelCenterInteger,
            7 => ExecutionMode::OriginUpperLeft,
            8 => ExecutionMode::OriginLowerLeft,
            9 => ExecutionMode::EarlyFragmentTests,
            10 => ExecutionMode::PointMode,
            11 => ExecutionMode::Xfb,
            12 => ExecutionMode::DepthReplacing,
            13 => ExecutionMode::DepthGreater,
            14 => ExecutionMode::DepthLess,
            15 => ExecutionMode::DepthUnchanged,
            16 => ExecutionMode::LocalSize,
            17 => ExecutionMode::LocalSizeHint,
            18 => ExecutionMode::InputPoints,
            19 => ExecutionMode::InputLines,
            20 => ExecutionMode::InputLinesAdjacency,
            21 => ExecutionMode::Triangles,
            22 => ExecutionMode::InputTrianglesAdjacency,
            23 => ExecutionMode::Quads,
            24 => ExecutionMode::Isolines,
            25 => ExecutionMode::OutputVertices,
            26 => ExecutionMode::OutputPoints,
            27 => ExecutionMode::OutputLineStrip,
            28 => ExecutionMode::OutputTriangleStrip,
            29 => ExecutionMode::VecTypeHint,
            30 => ExecutionMode::ContractionOff,
            31 => ExecutionMode::Initializer,
            32 => ExecutionMode::Finalizer,
            33 => ExecutionMode::SubgroupSize,
            34 => ExecutionMode::SubgroupsPerWorkgroup,
            35 => ExecutionMode::SubgroupsPerWorkgroupId,
            36 => ExecutionMode::LocalSizeId,
            37 => ExecutionMode::LocalSizeHintId,
            _ => vstd::pervasive::unreached(),
        }
    }
}

/// A SPIR-V word decodes to a `ExecutionMode` enumerant exactly when it is the word
/// that enumerant stands for.
pub proof fn lemma_execution_mode_codes(w: u32, e: ExecutionMode)
    ensures
        ExecutionMode::spec_from(w) == Some(e) <==> e.spec_code() == w,
{
}

#[derive(Debug, Copy, Clone, PartialEq, Eq, Structural)]
pub enum Dim {
    Dim1D,
    Dim2D,
    Dim3D,
    Cube,
    Rect,
    Buffer,
    SubpassData,
}

impl Dim {
    /// The SPIR-V word that stands for this enumerant.
    pub open spec fn spec_code(self) -> u32 {
        match self {
            Dim::Dim1D => 0,
            Dim::Dim2D => 1,
            Dim::Dim3D => 2,
            Dim::Cube => 3,
            Dim::Rect => 4,
            Dim::Buffer => 5,
            Dim::SubpassData => 6,
        }
    }

    /// The enumerant that the SPIR-V word `code` names, if any.
    pub open spec fn spec_from(code: u32) -> Option<Self> {
        match code {
            0 => Some(Dim::Dim1D),
            1 => Some(Dim::Dim2D),
            2 => Some(Dim::Dim3D),
            3 => Some(Dim::Cube),
            4 => Some(Dim::Rect),
            5 => Some(Dim::Buffer),
            6 => Some(Dim::SubpassData),
            _ => None,
        }
    }

    /// The enumerant that the SPIR-V word `code` names; other codes are refused.
    pub fn from_code(code: u32) -> (e: Self)
        requires
            Self::spec_from(code) is Some,
        ensures
            Self::spec_from(code) == Some(e),
    {
        match code {
            0 => Dim::Dim1D,
            1 => Dim::Dim2D,
            2 => Dim::Dim3D,
            3 => Dim::Cube,
            4 => Dim::Rect,
            5 => Dim::Buffer,
            6 => Dim::SubpassData,
            _ => vstd::pervasive::unreached(),
        }
    }
}

/// A SPIR-V word decodes to a `Dim` enumerant exactly when it is the word
/// that enumerant stands for.
pub proof fn lemma_dim_codes(w: u32, e: Dim)
    ensures
        Dim::spec_from(w) == Some(e) <==> e.spec_code() == w,
{
}

#[derive(Debug, Copy, Clone, PartialEq, Eq, Structural)]
pub enum ImageFormat {
    Unknown,
    Rgba32f,
    Rgba16f,
    R32f,
    Rgba8,
    Rgba8Snorm,
    Rg32f,
    Rg16f,
    R11fG11fB10f,
    R16f,
    Rgba16,
    Rgb10A2,
    Rg16,
    Rg8,
    R16,
    R8,
    Rgba16Snorm,
    Rg16Snorm,
    Rg8Snorm,
    R16Snorm,
    R8Snorm,
    Rgba32i,
    Rgba16i,
    Rgba8i,
    R32i,
    Rg32i,
    Rg16i,
    Rg8i,
    R16i,
    R8i,
    Rgba32ui,
    Rgba16ui,
    Rgba8ui,
    R32ui,
    Rgb10a2ui,
    Rg32ui,
    Rg16ui,
    Rg8ui,
    R16ui,
    R8ui,
    R64ui,
    R64i,
}

impl ImageFormat {
    /// The SPIR-V word that stands for this enumerant.
    pub open spec fn spec_code(self) -> u32 {
        match self {
            ImageFormat::Unknown => 0,
            ImageFormat::Rgba32f => 1,
            ImageFormat::Rgba16f => 2,
            ImageFormat::R32f => 3,
            ImageFormat::Rgba8 => 4,
            ImageFormat::Rgba8Snorm => 5,
            ImageFormat::Rg32f => 6,
            ImageFormat::Rg16f => 7,
            ImageFormat::R11fG11fB10f => 8,
            ImageFormat::R16f => 9,
            ImageFormat::Rgba16 => 10,
            ImageFormat::Rgb10A2 => 11,
            ImageFormat::Rg16 => 12,
            ImageFormat::Rg8 => 13,
            ImageFormat::R16 => 14,
            ImageFormat::R8 => 15,
            ImageFormat::Rgba16Snorm => 16,
            ImageFormat::Rg16Snorm => 17,
            ImageFormat::Rg8Snorm => 18,
            ImageFormat::R16Snorm => 19,
            ImageFormat::R8Snorm => 20,
            ImageFormat::Rgba32i => 21,
            ImageFormat::Rgba16i => 22,
            ImageFormat::Rgba8i => 23,
            ImageFormat::R32i => 24,
            ImageFormat::Rg32i => 25,
            ImageFormat::Rg16i => 26,
            ImageFormat::Rg8i => 27,
            ImageFormat::R16i => 28,
            ImageFormat::R8i => 29,
            ImageFormat::Rgba32ui => 30,
            ImageFormat::Rgba16ui => 31,
            ImageFormat::Rgba8ui => 32,
            ImageFormat::R32ui => 33,
            ImageFormat::Rgb10a2ui => 34,
            ImageFormat::Rg32ui => 35,
            ImageFormat::Rg16ui => 36,
            ImageFormat::Rg8ui => 37,
            ImageFormat::R16ui => 38,
            ImageFormat::R8ui => 39,
            ImageFormat::R64ui => 40,
            ImageFormat::R64i => 41,
        }
    }

    /// The enumerant that the SPIR-V word `code` names, if any.
    pub open spec fn spec_from(code: u32) -> Option<Self> {
        match code {
            0 => Some(ImageFormat::Unknown),
            1 => Some(ImageFormat::Rgba32f),
            2 => Some(ImageFormat::Rgba16f),
            3 => Some(ImageFormat::R32f),
            4 => Some(ImageFormat::Rgba8),
            5 => Some(ImageFormat::Rgba8Snorm),
            6 => Some(ImageFormat::Rg32f),
            7 => Some(ImageFormat::Rg16f),
            8 => Some(ImageFormat::R11fG11fB10f),
            9 => Some(ImageFormat::R16f),
            10 => Some(ImageFormat::Rgba16),
            11 => Some(ImageFormat::Rgb10A2),
            12 => Some(ImageFormat::Rg16),
            13 => Some(ImageFormat::Rg8),
            14 => Some(ImageFormat::R16),
            15 => Some(ImageFormat::R8),
            16 => Some(ImageFormat::Rgba16Snorm),
            17 => Some(ImageFormat::Rg16Snorm),
            18 => Some(ImageFormat::Rg8Snorm),
            19 => Some(ImageFormat::R16Snorm),
            20 => Some(ImageFormat::R8Snorm),
            21 => Some(ImageFormat::Rgba32i),
            22 => Some(ImageFormat::Rgba16i),
            23 => Some(ImageFormat::Rgba8i),
            24 => Some(ImageFormat::R32i),
            25 => Some(ImageFormat::Rg32i),
            26 => Some(ImageFormat::Rg16i),
            27 => Some(ImageFormat::Rg8i),
            28 => Some(ImageFormat::R16i),
            29 => Some(ImageFormat::R8i),
            30 => Some(ImageFormat::Rgba32ui),
            31 => Some(ImageFormat::Rgba16ui),
            32 => Some(ImageFormat::Rgba8ui),
            33 => Some(ImageFormat::R32ui),
            34 => Some(ImageFormat::Rgb10a2ui),
            35 => Some(ImageFormat::Rg32ui),
            36 => Some(ImageFormat::Rg16ui),
            37 => Some(ImageFormat::Rg8ui),
            38 => Some(ImageFormat::R16ui),
            39 => Some(ImageFormat::R8ui),
            40 => Some(ImageFormat::R64ui),
            41 => Some(ImageFormat::R64i),
            _ => None,
        }
    }

    /// The enumerant that the SPIR-V word `code` names; other codes are refused.
    pub fn from_code(code: u32) -> (e: Self)
        requires
            Self::spec_from(code) is Some,
        ensures
            Self::spec_from(code) == Some(e),
    {
        match code {
            0 => ImageFormat::Unknown,
            1 => ImageFormat::Rgba32f,
            2 => ImageFormat::Rgba16f,
            3 => ImageFormat::R32f,
            4 => ImageFormat::Rgba8,
            5 => ImageFormat::Rgba8Snorm,
            6 => ImageFormat::Rg32f,
            7 => ImageFormat::Rg16f,
            8 => ImageFormat::R11fG11fB10f,
            9 => ImageFormat::R16f,
            10 => ImageFormat::Rgba16,
            11 => ImageFormat::Rgb10A2,
            12 => ImageFormat::Rg16,
            13 => ImageFormat::Rg8,
            14 => ImageFormat::R16,
            15 => ImageFormat::R8,
            16 => ImageFormat::Rgba16Snorm,
            17 => ImageFormat::Rg16Snorm,
            18 => ImageFormat::Rg8Snorm,
            19 => ImageFormat::R16Snorm,
            20 => ImageFormat::R8Snorm,
            21 => ImageFormat::Rgba32i,
            22 => ImageFormat::Rgba16i,
            23 => ImageFormat::Rgba8i,
            24 => ImageFormat::R32i,
            25 => ImageFormat::Rg32i,
            26 => ImageFormat::Rg16i,
            27 => ImageFormat::Rg8i,
            28 => ImageFormat::R16i,
            29 => ImageFormat::R8i,
            30 => ImageFormat::Rgba32ui,
            31 => ImageFormat::Rgba16ui,
            32 => ImageFormat::Rgba8ui,
            33 => ImageFormat::R32ui,
            34 => ImageFormat::Rgb10a2ui,
            35 => ImageFormat::Rg32ui,
            36 => ImageFormat::Rg16ui,
            37 => ImageFormat::Rg8ui,
            38 => ImageFormat::R16ui,
            39 => ImageFormat::R8ui,
            40 => ImageFormat::R64ui,
            41 => ImageFormat::R64i,
            _ => vstd::pervasive::unreached(),
        }
    }
}

/// A SPIR-V word decodes to a `ImageFormat` enumerant exactly when it is the word
/// that enumerant stands for.
pub proof fn lemma_image_format_codes(w: u32, e: ImageFormat)
    ensures
        ImageFormat::spec_from(w) == Some(e) <==> e.spec_code() == w,
{
}

#[derive(Debug, Copy, Clone, PartialEq, Eq, Structural)]
pub enum AccessQualifier {
    ReadOnly,
    WriteOnly,
    ReadWrite,
}

impl AccessQualifier {
    /// The SPIR-V word that stands for this enumerant.
    pub open spec fn spec_code(self) -> u32 {
        match self {
            AccessQualifier::ReadOnly => 0,
            AccessQualifier::WriteOnly => 1,
            AccessQualifier::ReadWrite => 2,
        }
    }

    /// The enumerant that the SPIR-V word `code` names, if any.
    pub open spec fn spec_from(code: u32) -> Option<Self> {
        match code {
            0 => Some(AccessQualifier::ReadOnly),
            1 => Some(AccessQualifier::WriteOnly),
            2 => Some(AccessQualifier::ReadWrite),
            _ => None,
        }
    }

    /// The enumerant that the SPIR-V word `code` names; other codes are refused.
    pub fn from_code(code: u32) -> (e: Self)
        requires
            Self::spec_from(code) is Some,
        ensures
            Self::spec_from(code) == Some(e),
    {
        match code {
            0 => AccessQualifier::ReadOnly,
            1 => AccessQualifier::WriteOnly,
            2 => AccessQualifier::ReadWrite,
            _ => vstd::pervasive::unreached(),
        }
    }
}

/// A SPIR-V word decodes to a `AccessQualifier` enumerant exactly when it is the word
/// that enumerant stands for.
pub proof fn lemma_access_qualifier_codes(w: u32, e: AccessQualifier)
    ensures
        AccessQualifier::spec_from(w) == Some(e) <==> e.spec_code() == w,
{
}

#[derive(Debug, Copy, Clone, PartialEq, Eq, Structural)]
pub enum SamplerAddressingMode {
    NoAddressing,
    ClampToEdge,
    Clamp,
    Repeat,
    RepeatMirrored,
}

impl SamplerAddressingMode {
    /// The SPIR-V word that stands for this enumerant.
    pub open spec fn spec_code(self) -> u32 {
        match self {
            SamplerAddressingMode::NoAddressing => 0,
            SamplerAddressingMode::ClampToEdge => 1,
            SamplerAddressingMode::Clamp => 2,
            SamplerAddressingMode::Repeat => 3,
            SamplerAddressingMode::RepeatMirrored => 4,
        }
    }

    /// The enumerant that the SPIR-V word `code` names, if any.
    pub open spec fn spec_from(code: u32) -> Option<Self> {
        match code {
            0 => Some(SamplerAddressingMode::NoAddressing),
            1 => Some(SamplerAddressingMode::ClampToEdge),
            2 => Some(SamplerAddressingMode::Clamp),
            3 => Some(SamplerAddressingMode::Repeat),
            4 => Some(SamplerAddressingMode::RepeatMirrored),
            _ => None,
        }
    }

    /// The enumerant that the SPIR-V word `code` names; other codes are refused.
    pub fn from_code(code: u32) -> (e: Self)
        requires
            Self::spec_from(code) is Some,
        ensures
            Self::spec_from(code) == Some(e),
    {
        match code {
            0 => SamplerAddressingMode::NoAddressing,
            1 => SamplerAddressingMode::ClampToEdge,
            2 => SamplerAddressingMode::Clamp,
            3 => SamplerAddressingMode::Repeat,
            4 => SamplerAddressingMode::RepeatMirrored,
            _ => vstd::pervasive::unreached(),
        }
    }
}

/// A SPIR-V word decodes to a `SamplerAddressingMode` enumerant exactly when it is the word
/// that enumerant stands for.
pub proof fn lemma_sampler_addressing_mode_codes(w: u32, e: SamplerAddressingMode)
    ensures
        SamplerAddressingMode::spec_from(w) == Some(e) <==> e.spec_code() == w,
{
}

#[derive(Debug, Copy, Clone, PartialEq, Eq, Structural)]
pub enum SamplerFilterMode {
    Nearest,
    Linear,
}

impl SamplerFilterMode {
    /// The SPIR-V word that stands for this enumerant.
    pub open spec fn spec_code(self) -> u32 {
        match self {
            SamplerFilterMode::Nearest => 0,
            SamplerFilterMode::Linear => 1,
        }
    }

    /// The enumerant that the SPIR-V word `code` names, if any.
    pub open spec fn spec_from(code: u32) -> Option<Self> {
        match code {
            0 => Some(SamplerFilterMode::Nearest),
            1 => Some(SamplerFilterMode::Linear),
            _ => None,
        }
    }

    /// The enumerant that the SPIR-V word `code` names; other codes are refused.
    pub fn from_code(code: u32) -> (e: Self)
        requires
            Self::spec_from(code) is Some,
        ensures
            Self::spec_from(code) == Some(e),
    {
        match code {
            0 => SamplerFilterMode::Nearest,
            1 => SamplerFilterMode::Linear,
            _ => vstd::pervasive::unreached(),
        }
    }
}

/// A SPIR-V word decodes to a `SamplerFilterMode` enumerant exactly when it is the word
/// that enumerant stands for.
pub proof fn lemma_sampler_filter_mode_codes(w: u32, e: SamplerFilterMode)
    ensures
        SamplerFilterMode::spec_from(w) == Some(e) <==> e.spec_code() == w,
{
}

#[derive(Debug, Copy, Clone, PartialEq, Eq, Structural)]
pub enum Decoration {
    RelaxedPrecision,
    SpecId,
    Block,
    BufferBlock,
    RowMajor,
    ColMajor,
    ArrayStride,
    MatrixStride,
    GLSLShared,
    GLSLPacked,
    CPacked,
    BuiltIn,
    NoPerspective,
    Flat,
    Patch,
    Centroid,
    Sample,
    Invariant,
    Restrict,
    Aliased,
    Volatile,
    Constant,
    Coherent,
    NonWritable,
    NonReadable,
    Uniform,
    UniformId,
    SaturatedConversion,
    Stream,
    Location,
    Component,
    Index,
    Binding,
    DescriptorSet,
    Offset,
    XfbBuffer,
    XfbStride,
    FuncParamAttr,
    FPRoundingMode,
    FPFastMathMode,
    LinkageAttributes,
    NoContraction,
    InputAttachmentIndex,
    Alignment,
    MaxByteOffset,
    AlignmentId,
    MaxByteOffsetId,
}

impl Decoration {
    /// The SPIR-V word that stands for this enumerant.
    pub open spec fn spec_code(self) -> u32 {
        match self {
            Decoration::RelaxedPrecision => 0,
            Decoration::SpecId => 1,
            Decoration::Block => 2,
            Decoration::BufferBlock => 3,
            Decoration::RowMajor => 4,
            Decoration::ColMajor => 5,
            Decoration::ArrayStride => 6,
            Decoration::MatrixStride => 7,
            Decoration::GLSLShared => 8,
            Decoration::GLSLPacked => 9,
            Decoration::CPacked => 10,
            Decoration::BuiltIn => 11,
            Decoration::NoPerspective => 13,
            Decoration::Flat => 14,
            Decoration::Patch => 15,
            Decoration::Centroid => 16,
            Decoration::Sample => 17,
            Decoration::Invariant => 18,
            Decoration::Restrict => 19,
            Decoration::Aliased => 20,
            Decoration::Volatile => 21,
            Decoration::Constant => 22,
            Decoration::Coherent => 23,
            Decoration::NonWritable => 24,
            Decoration::NonReadable => 25,
            Decoration::Uniform => 26,
            Decoration::UniformId => 27,
            Decoration::SaturatedConversion => 28,
            Decoration::Stream => 29,
            Decoration::Location => 30,
            Decoration::Component => 31,
            Decoration::Index => 32,
            Decoration::Binding => 33,
            Decoration::DescriptorSet => 34,
            Decoration::Offset => 35,
            Decoration::XfbBuffer => 36,
            Decoration::XfbStride => 37,
            Decoration::FuncParamAttr => 38,
            Decoration::FPRoundingMode => 39,
            Decoration::FPFastMathMode => 40,
            Decoration::LinkageAttributes => 41,
            Decoration::NoContraction => 42,
            Decoration::InputAttachmentIndex => 43,
            Decoration::Alignment => 44,
            Decoration::MaxByteOffset => 45,
            Decoration::AlignmentId => 46,
            Decoration::MaxByteOffsetId => 47,
        }
    }

    /// The enumerant that the SPIR-V word `code` names, if any.
    pub open spec fn spec_from(code: u32) -> Option<Self> {
        match code {
            0 => Some(Decoration::RelaxedPrecision),
            1 => Some(Decoration::SpecId),
            2 => Some(Decoration::Block),
            3 => Some(Decoration::BufferBlock),
            4 => Some(Decoration::RowMajor),
            5 => Some(Decoration::ColMajor),
            6 => Some(Decoration::ArrayStride),
            7 => Some(Decoration::MatrixStride),
            8 => Some(Decoration::GLSLShared),
            9 => Some(Decoration::GLSLPacked),
            10 => Some(Decoration::CPacked),
            11 => Some(Decoration::BuiltIn),
            13 => Some(Decoration::NoPerspective),
            14 => Some(Decoration::Flat),
            15 => Some(Decoration::Patch),
            16 => Some(Decoration::Centroid),
            17 => Some(Decoration::Sample),
            18 => Some(Decoration::Invariant),
            19 => Some(Decoration::Restrict),
            20 => Some(Decoration::Aliased),
            21 => Some(Decoration::Volatile),
            22 => Some(Decoration::Constant),
            23 => Some(Decoration::Coherent),
            24 => Some(Decoration::NonWritable),
            25 => Some(Decoration::NonReadable),
            26 => Some(Decoration::Uniform),
            27 => Some(Decoration::UniformId),
            28 => Some(Decoration::SaturatedConversion),
            29 => Some(Decoration::Stream),
            30 => Some(Decoration::Location),
            31 => Some(Decoration::Component),
            32 => Some(Decoration::Index),
            33 => Some(Decoration::Binding),
            34 => Some(Decoration::DescriptorSet),
            35 => Some(Decoration::Offset),
            36 => Some(Decoration::XfbBuffer),
            37 => Some(Decoration::XfbStride),
            38 => Some(Decoration::FuncParamAttr),
            39 => Some(Decoration::FPRoundingMode),
            40 => Some(Decoration::FPFastMathMode),
            41 => Some(Decoration::LinkageAttributes),
            42 => Some(Decoration::NoContraction),
            43 => Some(Decoration::InputAttachmentIndex),
            44 => Some(Decoration::Alignment),
            45 => Some(Decoration::MaxByteOffset),
            46 => Some(Decoration::AlignmentId),
            47 => Some(Decoration::MaxByteOffsetId),
            _ => None,
        }
    }

    /// The enumerant that the SPIR-V word `code` names; other codes are refused.
    pub fn from_code(code: u32) -> (e: Self)
        requires
            Self::spec_from(code) is Some,
        ensures
            Self::spec_from(code) == Some(e),
    {
        match code {
            0 => Decoration::RelaxedPrecision,
            1 => Decoration::SpecId,
            2 => Decoration::Block,
            3 => Decoration::BufferBlock,
            4 => Decoration::RowMajor,
            5 => Decoration::ColMajor,
            6 => Decoration::ArrayStride,
            7 => Decoration::MatrixStride,
            8 => Decoration::GLSLShared,
            9 => Decoration::GLSLPacked,
            10 => Decoration::CPacked,
            11 => Decoration::BuiltIn,
            13 => Decoration::NoPerspective,
            14 => Decoration::Flat,
            15 => Decoration::Patch,
            16 => Decoration::Centroid,
            17 => Decoration::Sample,
            18 => Decoration::Invariant,
            19 => Decoration::Restrict,
            20 => Decoration::Aliased,
            21 => Decoration::Volatile,
            22 => Decoration::Constant,
            23 => Decoration::Coherent,
            24 => Decoration::NonWritable,
            25 => Decoration::NonReadable,
            26 => Decoration::Uniform,
            27 => Decoration::UniformId,
            28 => Decoration::SaturatedConversion,
            29 => Decoration::Stream,
            30 => Decoration::Location,
            31 => Decoration::Component,
            32 => Decoration::Index,
            33 => Decoration::Binding,
            34 => Decoration::DescriptorSet,
            35 => Decoration::Offset,
            36 => Decoration::XfbBuffer,
            37 => Decoration::XfbStride,
            38 => Decoration::FuncParamAttr,
            39 => Decoration::FPRoundingMode,
            40 => Decoration::FPFastMathMode,
            41 => Decoration::LinkageAttributes,
            42 => Decoration::NoContraction,
            43 => Decoration::InputAttachmentIndex,
            44 => Decoration::Alignment,
            45 => Decoration::MaxByteOffset,
            46 => Decoration::AlignmentId,
            47 => Decoration::MaxByteOffsetId,
            _ => vstd::pervasive::unreached(),
        }
    }
}

/// A SPIR-V word decodes to a `Decoration` enumerant exactly when it is the word
/// that enumerant stands for.
pub proof fn lemma_decoration_codes(w: u32, e: Decoration)
    ensures
        Decoration::spec_from(w) == Some(e) <==> e.spec_code() == w,
{
}

#[derive(Debug, Copy, Clone, PartialEq, Eq, Structural)]
pub enum FunctionControl {
    NoControl,
    Inline,
    DontInline,
    Pure,
    Const,
}

impl FunctionControl {
    /// The SPIR-V word that stands for this enumerant.
    pub open spec fn spec_code(self) -> u32 {
        match self {
            FunctionControl::NoControl => 0,
            FunctionControl::Inline => 1,
            FunctionControl::DontInline => 2,
            FunctionControl::Pure => 4,
            FunctionControl::Const => 8,
        }
    }

    /// The enumerant that the SPIR-V word `code` names, if any.
    pub open spec fn spec_from(code: u32) -> Option<Self> {
        match code {
            0 => Some(FunctionControl::NoControl),
            1 => Some(FunctionControl::Inline),
            2 => Some(FunctionControl::DontInline),
            4 => Some(FunctionControl::Pure),
            8 => Some(FunctionControl::Const),
            _ => None,
        }
    }

    /// The enumerant that the SPIR-V word `code` names; other codes are refused.
    pub fn from_code(code: u32) -> (e: Self)
        requires
            Self::spec_from(code) is Some,
        ensures
            Self::spec_from(code) == Some(e),
    {
        match code {
            0 => FunctionControl::NoControl,
            1 => FunctionControl::Inline,
            2 => FunctionControl::DontInline,
            4 => FunctionControl::Pure,
            8 => FunctionControl::Const,
            _ => vstd::pervasive::unreached(),
        }
    }
}

/// A SPIR-V word decodes to a `FunctionControl` enumerant exactly when it is the word
/// that enumerant stands for.
pub proof fn lemma_function_control_codes(w: u32, e: FunctionControl)
    ensures
        FunctionControl::spec_from(w) == Some(e) <==> e.spec_code() == w,
{
}

#[derive(Debug, Copy, Clone, PartialEq, Eq, Structural)]
pub enum MemoryOperands {
    NoOperands,
    Volatile,
    Aligned,
    Nontemporal,
    MakePointerAvailable,
    MakePointerVisible,
    NonPrivatePointer,
}

impl MemoryOperands {
    /// The SPIR-V word that stands for this enumerant.
    pub open spec fn spec_code(self) -> u32 {
        match self {
            MemoryOperands::NoOperands => 0,
            MemoryOperands::Volatile => 1,
            MemoryOperands::Aligned => 2,
            MemoryOperands::Nontemporal => 4,
            MemoryOperands::MakePointerAvailable => 8,
            MemoryOperands::MakePointerVisible => 0x10,
            MemoryOperands::NonPrivatePointer => 0x20,
        }
    }

    /// The enumerant that the SPIR-V word `code` names, if any.
    pub open spec fn spec_from(code: u32) -> Option<Self> {
        match code {
            0 => Some(MemoryOperands::NoOperands),
            1 => Some(MemoryOperands::Volatile),
            2 => Some(MemoryOperands::Aligned),
            4 => Some(MemoryOperands::Nontemporal),
            8 => Some(MemoryOperands::MakePointerAvailable),
            16 => Some(MemoryOperands::MakePointerVisible),
            32 => Some(MemoryOperands::NonPrivatePointer),
            _ => None,
        }
    }

    /// The enumerant that the SPIR-V word `code` names; other codes are refused.
    pub fn from_code(code: u32) -> (e: Self)
        requires
            Self::spec_from(code) is Some,
        ensures
            Self::spec_from(code) == Some(e),
    {
        match code {
            0 => MemoryOperands::NoOperands,
            1 => MemoryOperands::Volatile,
            2 => MemoryOperands::Aligned,
            4 => MemoryOperands::Nontemporal,
            8 => MemoryOperands::MakePointerAvailable,
            16 => MemoryOperands::MakePointerVisible,
            32 => MemoryOperands::NonPrivatePointer,
            _ => vstd::pervasive::unreached(),
        }
    }
}

/// A SPIR-V word decodes to a `MemoryOperands` enumerant exactly when it is the word
/// that enumerant stands for.
pub proof fn lemma_memory_operands_codes(w: u32, e: MemoryOperands)
    ensures
        MemoryOperands::spec_from(w) == Some(e) <==> e.spec_code() == w,
{
}

#[derive(Debug, Copy, Clone, PartialEq, Eq, Structural)]
pub enum ImageOperands {
    NoOperands,
    Bias,
    Lod,
    Grad,
    ConstOffset,
    Offset,
    ConstOffsets,
    Sample,
    MinLod,
    MakeTexelAvailable,
    MakeTexelVisible,
    NonPrivateTexel,
    VolatileTexel,
    SignExtend,
    ZeroExtend,
    Nontemporal,
    Offsets,
}

impl ImageOperands {
    /// The SPIR-V word that stands for this enumerant.
    pub open spec fn spec_code(self) -> u32 {
        match self {
            ImageOperands::NoOperands => 0,
            ImageOperands::Bias => 1,
            ImageOperands::Lod => 2,
            ImageOperands::Grad => 4,
            ImageOperands::ConstOffset => 8,
            ImageOperands::Offset => 0x10,
            ImageOperands::ConstOffsets => 0x20,
            ImageOperands::Sample => 0x40,
            ImageOperands::MinLod => 0x80,
            ImageOperands::MakeTexelAvailable => 0x100,
            ImageOperands::MakeTexelVisible => 0x200,
            ImageOperands::NonPrivateTexel => 0x400,
            ImageOperands::VolatileTexel => 0x800,
            ImageOperands::SignExtend => 0x1000,
            ImageOperands::ZeroExtend => 0x2000,
            ImageOperands::Nontemporal => 0x4000,
            ImageOperands::Offsets => 0x10000,
        }
    }

    /// The enumerant that the SPIR-V word `code` names, if any.
    pub open spec fn spec_from(code: u32) -> Option<Self> {
        match code {
            0 => Some(ImageOperands::NoOperands),
            1 => Some(ImageOperands::Bias),
            2 => Some(ImageOperands::Lod),
            4 => Some(ImageOperands::Grad),
            8 => Some(ImageOperands::ConstOffset),
            16 => Some(ImageOperands::Offset),
            32 => Some(ImageOperands::ConstOffsets),
            64 => Some(ImageOperands::Sample),
            128 => Some(ImageOperands::MinLod),
            256 => Some(ImageOperands::MakeTexelAvailable),
            512 => Some(ImageOperands::MakeTexelVisible),
            1024 => Some(ImageOperands::NonPrivateTexel),
            2048 => Some(ImageOperands::VolatileTexel),
            4096 => Some(ImageOperands::SignExtend),
            8192 => Some(ImageOperands::ZeroExtend),
            16384 => Some(ImageOperands::Nontemporal),
            65536 => Some(ImageOperands::Offsets),
            _ => None,
        }
    }

    /// The enumerant that the SPIR-V word `code` names; other codes are refused.
    pub fn from_code(code: u32) -> (e: Self)
        requires
            Self::spec_from(code) is Some,
        ensures
            Self::spec_from(code) == Some(e),
    {
        match code {
            0 => ImageOperands::NoOperands,
            1 => ImageOperands::Bias,
            2 => ImageOperands::Lod,
            4 => ImageOperands::Grad,
            8 => ImageOperands::ConstOffset,
            16 => ImageOperands::Offset,
            32 => ImageOperands::ConstOffsets,
            64 => ImageOperands::Sample,
            128 => ImageOperands::MinLod,
            256 => ImageOperands::MakeTexelAvailable,
            512 => ImageOperands::MakeTexelVisible,
            1024 => ImageOperands::NonPrivateTexel,
            2048 => ImageOperands::VolatileTexel,
            4096 => ImageOperands::SignExtend,
            8192 => ImageOperands::ZeroExtend,
            16384 => ImageOperands::Nontemporal,
            65536 => ImageOperands::Offsets,
            _ => vstd::pervasive::unreached(),
        }
    }
}

/// A SPIR-V word decodes to a `ImageOperands` enumerant exactly when it is the word
/// that enumerant stands for.
pub proof fn lemma_image_operands_codes(w: u32, e: ImageOperands)
    ensures
        ImageOperands::spec_from(w) == Some(e) <==> e.spec_code() == w,
{
}

/// A decoded instruction.  Opcodes that the decoder does not read are listed
/// by name only.
#[derive(Debug, Clone, PartialEq)]
pub enum Instruction {
    OpNop {
        opcode: u32,
    },
    OpUndef {
        opcode: u32,
        result_type: u32,
        result: u32,
    },
    OpSourceContinued {
        opcode: u32,
        continued_source: String,
    },
    OpSource {
        opcode: u32,
        source_language: SourceLanguage,
        version: u32,
        file: Option<u32>,
        source: Option<String>,
    },
    OpSourceExtension {
        opcode: u32,
        extension: String,
    },
    OpName {
        opcode: u32,
        target: u32,
        name: String,
    },
    OpMemberName {
        opcode: u32,
        ttype: u32,
        member: u32,
        name: String,
    },
    OpString {
        opcode: u32,
        result: u32,
        string: String,
    },
    OpLine {
        opcode: u32,
        file: u32,
        line: u32,
        column: u32,
    },
    OpExtension {
        opcode: u32,
        name: String,
    },
    OpExtInstImport {
        opcode: u32,
        result: u32,
        name: String,
    },
    OpExtInst {
        opcode: u32,
        result_type: u32,
        result: u32,
        set: u32,
        instruction: u32,
        operands: Vec<u32>,
    },
    OpMemoryModel {
        opcode: u32,
        addressing_model: AddressingModel,
        memory_model: MemoryModel,
    },
    OpEntryPoint {
        opcode: u32,
        execution_model: ExecutionModel,
        entry_point: u32,
        name: String,
        interface: Vec<u32>,
    },
    OpExecutionMode {
        opcode: u32,
        entry_point: u32,
        mode: ExecutionMode,
        literals: Vec<u32>,
    },
    OpCapability {
        opcode: u32,
        capability: Capability,
    },
    OpTypeVoid {
        opcode: u32,
        result: u32,
    },
    OpTypeBool {
        opcode: u32,
        result: u32,
    },
    OpTypeInt {
        opcode: u32,
        result: u32,
        width: u32,
        signedness: u32,
    },
    OpTypeFloat {
        opcode: u32,
        result: u32,
        width: u32,
    },
    OpTypeVector {
        opcode: u32,
        result: u32,
        component_type: u32,
        component_count: u32,
    },
    OpTypeMatrix {
        opcode: u32,
        result: u32,
        column_type: u32,
        column_count: u32,
    },
    OpTypeImage {
        opcode: u32,
        result: u32,
        sampled_type: u32,
        dim: Dim,
        depth: u32,
        arrayed: u32,
        ms: u32,
        sampled: u32,
        image_format: ImageFormat,
        access_qualifier: Option<AccessQualifier>,
    },
    OpTypeSampler {
        opcode: u32,
        result: u32,
    },
    OpTypeSampledImage {
        opcode: u32,
        result: u32,
        image_type: u32,
    },
    OpTypeArray {
        opcode: u32,
        result: u32,
        element_type: u32,
        length: u32,
    },
    OpTypeRuntimeArray {
        opcode: u32,
        result: u32,
        element_type: u32,
    },
    OpTypeStruct {
        opcode: u32,
        result: u32,
        member_types: Vec<u32>,
    },
    OpTypeOpaque {
        opcode: u32,
        result: u32,
        name: String,
    },
    OpTypePointer {
        opcode: u32,
        result: u32,
        storage_class: StorageClass,
        ttype: u32,
    },
    OpTypeFunction {
        opcode: u32,
        result: u32,
        return_type: u32,
        parameter_types: Vec<u32>,
    },
    OpTypeEvent {
        opcode: u32,
        result: u32,
    },
    OpTypeDeviceEvent {
        opcode: u32,
        result: u32,
    },
    OpTypeReserveId {
        opcode: u32,
        result: u32,
    },
    OpTypeQueue {
        opcode: u32,
        result: u32,
    },
    OpTypePipe {
        opcode: u32,
        result: u32,
        qualifier: AccessQualifier,
    },
    OpTypeForwardPointer {
        opcode: u32,
        pointer_type: u32,
        storage_class: StorageClass,
    },
    OpConstantTrue {
        opcode: u32,
        result_type: u32,
        result: u32,
    },
    OpConstantFalse {
        opcode: u32,
        result_type: u32,
        result: u32,
    },
    OpConstant {
        opcode: u32,
        result_type: u32,
        result: u32,
        value: Vec<u32>,
    },
    OpConstantComposite {
        opcode: u32,
        result_type: u32,
        result: u32,
        constituents: Vec<u32>,
    },
    OpConstantSampler {
        opcode: u32,
        result_type: u32,
        result: u32,
        sampler_addressing_mode: SamplerAddressingMode,
        param: u32,
        sampler_filter_mode: SamplerFilterMode,
    },
    OpConstantNull {
        opcode: u32,
        result_type: u32,
        result: u32,
    },
    OpSpecConstantTrue,
    OpSpecConstantFalse,
    OpSpecConstant,
    OpSpecConstantComposite,
    OpSpecConstantOp,
    OpFunction {
        opcode: u32,
        result_type: u32,
        result: u32,
        function_control: FunctionControl,
        function_type: u32,
    },
    OpFunctionParameter,
    OpFunctionEnd {
        opcode: u32,
    },
    OpFunctionCall,
    OpVariable {
        opcode: u32,
        result_type: u32,
        result: u32,
        storage_class: StorageClass,
        initializer: Option<u32>,
    },
    OpImageTexelPointer,
    OpLoad {
        opcode: u32,
        result_type: u32,
        result: u32,
        pointer: u32,
        memory_operands: Option<MemoryOperands>,
    },
    OpStore {
        opcode: u32,
        pointer: u32,
        object: u32,
        memory_operands: Option<MemoryOperands>,
    },
    OpCopyMemory,
    OpCopyMemorySized,
    OpAccessChain {
        opcode: u32,
        result_type: u32,
        result: u32,
        base: u32,
        indexes: Vec<u32>,
    },
    OpInBoundsAccessChain,
    OpPtrAccessChain,
    OpArrayLength,
    OpGenericPtrMemSemantics,
    OpInBoundsPtrAccessChain,
    OpDecorate {
        opcode: u32,
        target: u32,
        decoration: Decoration,
        extra: Vec<u32>,
    },
    OpMemberDecorate {
        opcode: u32,
        structure_type: u32,
        member: u32,
        decoration: Decoration,
    },
    OpDecorationGroup,
    OpGroupDecorate,
    OpGroupMemberDecorate,
    OpVectorExtractDynamic,
    OpVectorInsertDynamic,
    OpVectorShuffle {
        opcode: u32,
        result_type: u32,
        result: u32,
        vector1: u32,
        vector2: u32,
        components: Vec<u32>,
    },
    OpCompositeConstruct {
        opcode: u32,
        result_type: u32,
        result: u32,
        constituents: Vec<u32>,
    },
    OpCompositeExtract {
        opcode: u32,
        result_type: u32,
        result: u32,
        composite: u32,
        indexes: Vec<u32>,
    },
    OpCompositeInsert,
    OpCopyObject,
    OpTranspose,
    OpSampledImage,
    OpImageSampleImplicitLod {
        opcode: u32,
        result_type: u32,
        result: u32,
        sampled_image: u32,
        coordinate: u32,
        image_operands: Option<ImageOperands>,
    },
    OpImageSampleExplicitLod,
    OpImageSampleDrefImplicitLod,
    OpImageSampleDrefExplicitLod,
    OpImageSampleProjImplicitLod,
    OpImageSampleProjExplicitLod,
    OpImageSampleProjDrefImplicitLod,
    OpImageSampleProjDrefExplicitLod,
    OpImageFetch,
    OpImageGather,
    OpImageDrefGather,
    OpImageRead,
    OpImageWrite,
    OpImage,
    OpImageQueryFormat,
    OpImageQueryOrder,
    OpImageQuerySizeLod,
    OpImageQuerySize,
    OpImageQueryLod,
    OpImageQueryLevels,
    OpImageQuerySamples,
    OpConvertFToU,
    OpConvertFToS,
    OpConvertSToF,
    OpConvertUToF {
        opcode: u32,
        result_type: u32,
        result: u32,
        unsigned_value: u32,
    },
    OpUConvert,
    OpSConvert,
    OpFConvert,
    OpQuantizeToF16,
    OpConvertPtrToU,
    OpSatConvertSToU,
    OpSatConvertUToS,
    OpConvertUToPtr,
    OpPtrCastToGeneric,
    OpGenericCastToPtr,
    OpGenericCastToPtrExplicit,
    OpBitcast,
    OpSNegate,
    OpFNegate {
        opcode: u32,
        result_type: u32,
        result: u32,
        operand: u32,
    },
    OpIAdd,
    OpFAdd {
        opcode: u32,
        result_type: u32,
        result: u32,
        operand1: u32,
        operand2: u32,
    },
    OpISub,
    OpFSub {
        opcode: u32,
        result_type: u32,
        result: u32,
        operand1: u32,
        operand2: u32,
    },
    OpIMul,
    OpFMul {
        opcode: u32,
        result_type: u32,
        result: u32,
        operand1: u32,
        operand2: u32,
    },
    OpUDiv,
    OpSDiv,
    OpFDiv {
        opcode: u32,
        result_type: u32,
        result: u32,
        operand1: u32,
        operand2: u32,
    },
    OpUMod,
    OpSRem,
    OpSMod,
    OpFRem,
    OpFMod,
    OpVectorTimesScalar {
        opcode: u32,
        result_type: u32,
        result: u32,
        vector: u32,
        scalar: u32,
    },
    OpMatrixTimesScalar,
    OpVectorTimesMatrix,
    OpMatrixTimesVector {
        opcode: u32,
        result_type: u32,
        result: u32,
        matrix: u32,
        vector: u32,
    },
    OpMatrixTimesMatrix,
    OpOuterProduct,
    OpDot,
    OpIAddCarry,
    OpISubBorrow,
    OpUMulExtended,
    OpSMulExtended,
    OpAny,
    OpAll,
    OpIsNan,
    OpIsInf,
    OpIsFinite,
    OpIsNormal,
    OpSignBitSet,
    OpLessOrGreater,
    OpOrdered,
    OpUnordered,
    OpLogicalEqual,
    OpLogicalNotEqual,
    OpLogicalOr,
    OpLogicalAnd,
    OpLogicalNot,
    OpSelect,
    OpIEqual,
    OpINotEqual,
    OpUGreaterThan,
    OpSGreaterThan,
    OpUGreaterThanEqual,
    OpSGreaterThanEqual,
    OpULessThan,
    OpSLessThan,
    OpULessThanEqual,
    OpSLessThanEqual,
    OpFOrdEqual,
    OpFUnordEqual,
    OpFOrdNotEqual,
    OpFUnordNotEqual,
    OpFOrdLessThan,
    OpFUnordLessThan,
    OpFOrdGreaterThan,
    OpFUnordGreaterThan,
    OpFOrdLessThanEqual,
    OpFUnordLessThanEqual,
    OpFOrdGreaterThanEqual,
    OpFUnordGreaterThanEqual,
    OpShiftRightLogical,
    OpShiftRightArithmetic,
    OpShiftLeftLogical,
    OpBitwiseOr,
    OpBitwiseXor,
    OpBitwiseAnd,
    OpNot,
    OpBitFieldInsert,
    OpBitFieldSExtract,
    OpBitFieldUExtract,
    OpBitReverse,
    OpBitCount,
    OpDPdx,
    OpDPdy,
    OpFwidth,
    OpDPdxFine,
    OpDPdyFine,
    OpFwidthFine,
    OpDPdxCoarse,
    OpDPdyCoarse,
    OpFwidthCoarse,
    OpEmitVertex,
    OpEndPrimitive,
    OpEmitStreamVertex,
    OpEndStreamPrimitive,
    OpControlBarrier,
    OpMemoryBarrier,
    OpAtomicLoad,
    OpAtomicStore,
    OpAtomicExchange,
    OpAtomicCompareExchange,
    OpAtomicCompareExchangeWeak,
    OpAtomicIIncrement,
    OpAtomicIDecrement,
    OpAtomicIAdd,
    OpAtomicISub,
    OpAtomicSMin,
    OpAtomicUMin,
    OpAtomicSMax,
    OpAtomicUMax,
    OpAtomicAnd,
    OpAtomicOr,
    OpAtomicXor,
    OpPhi,
    OpLoopMerge,
    OpSelectionMerge,
    OpLabel {
        opcode: u32,
        result: u32,
    },
    OpBranch,
    OpBranchConditional,
    OpSwitch,
    OpKill,
    OpReturn {
        opcode: u32,
    },
    OpReturnValue,
    OpUnreachable,
    OpLifetimeStart,
    OpLifetimeStop,
    OpGroupAsyncCopy,
    OpGroupWaitEvents,
    OpGroupAll,
    OpGroupAny,
    OpGroupBroadcast,
    OpGroupIAdd,
    OpGroupFAdd,
    OpGroupFMin,
    OpGroupUMin,
    OpGroupSMin,
    OpGroupFMax,
    OpGroupUMax,
    OpGroupSMax,
    OpReadPipe,
    OpWritePipe,
    OpReservedReadPipe,
    OpReservedWritePipe,
    OpReserveReadPipePackets,
    OpReserveWritePipePackets,
    OpCommitReadPipe,
    OpCommitWritePipe,
    OpIsValidReserveId,
    OpGetNumPipePackets,
    OpGetMaxPipePackets,
    OpGroupReserveReadPipePackets,
    OpGroupReserveWritePipePackets,
    OpGroupCommitReadPipe,
    OpGroupCommitWritePipe,
    OpEnqueueMarker,
    OpEnqueueKernel,
    OpGetKernelNDrangeSubGroupCount,
    OpGetKernelNDrangeMaxSubGroupSize,
    OpGetKernelWorkGroupSize,
    OpGetKernelPreferredWorkGroupSizeMultiple,
    OpRetainEvent,
    OpReleaseEvent,
    OpCreateUserEvent,
    OpIsValidEvent,
    OpSetUserEventStatus,
    OpCaptureEventProfilingInfo,
    OpGetDefaultQueue,
    OpBuildNDRange,
    OpImageSparseSampleImplicitLod,
    OpImageSparseSampleExplicitLod,
    OpImageSparseSampleDrefImplicitLod,
    OpImageSparseSampleDrefExplicitLod,
    OpImageSparseSampleProjImplicitLod,
    OpImageSparseSampleProjExplicitLod,
    OpImageSparseSampleProjDrefImplicitLod,
    OpImageSparseSampleProjDrefExplicitLod,
    OpImageSparseFetch,
    OpImageSparseGather,
    OpImageSparseDrefGather,
    OpImageSparseTexelsResident,
    OpNoLine,
    OpAtomicFlagTestAndSet,
    OpAtomicFlagClear,
    OpImageSparseRead,
    OpSizeOf,
    OpTypePipeStorage,
    OpConstantPipeStorage,
    OpCreatePipeFromPipeStorage,
    OpGetKernelLocalSizeForSubgroupCount,
    OpGetKernelMaxNumSubgroups,
    OpTypeNamedBarrier,
    OpNamedBarrierInitialize,
    OpMemoryNamedBarrier,
    OpModuleProcessed,
    OpExecutionModeId,
    OpDecorateId,
    OpGroupNonUniformElect,
    OpGroupNonUniformAll,
    OpGroupNonUniformAny,
    OpGroupNonUniformAllEqual,
    OpGroupNonUniformBroadcast,
    OpGroupNonUniformBroadcastFirst,
    OpGroupNonUniformBallot,
    OpGroupNonUniformInverseBallot,
    OpGroupNonUniformBallotBitExtract,
    OpGroupNonUniformBallotBitCount,
    OpGroupNonUniformBallotFindLSB,
    OpGroupNonUniformBallotFindMSB,
    OpGroupNonUniformShuffle,
    OpGroupNonUniformShuffleXor,
    OpGroupNonUniformShuffleUp,
    OpGroupNonUniformShuffleDown,
    OpGroupNonUniformIAdd,
    OpGroupNonUniformFAdd,
    OpGroupNonUniformIMul,
    OpGroupNonUniformFMul,
    OpGroupNonUniformSMin,
    OpGroupNonUniformUMin,
    OpGroupNonUniformFMin,
    OpGroupNonUniformSMax,
    OpGroupNonUniformUMax,
    OpGroupNonUniformFMax,
    OpGroupNonUniformBitwiseAnd,
    OpGroupNonUniformBitwiseOr,
    OpGroupNonUniformBitwiseXor,
    OpGroupNonUniformLogicalAnd,
    OpGroupNonUniformLogicalOr,
    OpGroupNonUniformLogicalXor,
    OpGroupNonUniformQuadBroadcast,
    OpGroupNonUniformQuadSwap,
    OpCopyLogical,
    OpPtrEqual,
    OpPtrNotEqual,
    OpPtrDiff,
}

/// The number of words that the first word of an instruction announces.
pub open spec fn word_count_of(first: u32) -> int {
    (first as int / 0x1_0000) % 0x1_0000
}

/// The opcode in the first word of an instruction.
pub open spec fn opcode_of(first: u32) -> u32 {
    (first as int % 0x1_0000) as u32
}

/// The four little-endian bytes of a word.
pub open spec fn word_bytes(x: u32) -> Seq<u8> {
    seq![
        (x as int % 0x100) as u8,
        (x as int / 0x100 % 0x100) as u8,
        (x as int / 0x1_0000 % 0x100) as u8,
        (x as int / 0x100_0000 % 0x100) as u8,
    ]
}

/// The little-endian bytes of a run of words.
pub open spec fn words_bytes(ws: Seq<u32>) -> Seq<u8>
    decreases ws.len(),
{
    if ws.len() == 0 {
        Seq::empty()
    } else {
        words_bytes(ws.drop_last()) + word_bytes(ws.last())
    }
}

/// The index of the first zero byte of `b` at or after `i`, or the length of `b`.
pub open spec fn first_nul_from(b: Seq<u8>, i: int) -> int
    decreases b.len() - i,
{
    if i >= b.len() {
        b.len() as int
    } else if b[i] == 0 {
        i
    } else {
        first_nul_from(b, i + 1)
    }
}

/// The bytes of `b` before its first zero byte.
pub open spec fn before_nul(b: Seq<u8>) -> Seq<u8> {
    b.subrange(0, first_nul_from(b, 0))
}

/// The bytes of the literal string held in words `a..b` of `w`.
pub open spec fn text_bytes(w: Seq<u32>, a: int, b: int) -> Seq<u8> {
    before_nul(words_bytes(w.subrange(a, b)))
}

/// A literal string in words `a..b` of `w` that can be decoded.
pub open spec fn text_ok(w: Seq<u32>, a: int, b: int) -> bool {
    0 <= a <= b <= w.len() && valid_utf8(text_bytes(w, a, b))
}

/// The characters of the literal string held in words `a..b` of `w`.
pub open spec fn text_at(w: Seq<u32>, a: int, b: int) -> Seq<char> {
    decode_utf8(text_bytes(w, a, b))
}

/// The words `w` form an instruction that the decoder reads: its opcode is
/// one it knows, the words it reads are there, and its enumerants and
/// strings are valid.
pub open spec fn instruction_decodable(w: Seq<u32>) -> bool {
    w.len() >= 1 && {
        let wc = word_count_of(w[0]);
        let op = opcode_of(w[0]);
        if op == 0 {
            true
        } else if op == 1 {
            w.len() > 1 && w.len() > 2
        } else if op == 2 {
            text_ok(w, 1, wc)
        } else if op == 3 {
            w.len() > 1 && SourceLanguage::spec_from(w[1]) is Some && w.len() > 2 && (wc >= 4 ==> w.len() > 3)
        } else if op == 4 {
            text_ok(w, 1, wc)
        } else if op == 5 {
            w.len() > 1 && text_ok(w, 2, wc)
        } else if op == 6 {
            w.len() > 1 && w.len() > 2 && text_ok(w, 3, wc)
        } else if op == 7 {
            w.len() > 1 && text_ok(w, 2, wc)
        } else if op == 8 {
            w.len() > 1 && w.len() > 2 && w.len() > 2
        } else if op == 10 {
            text_ok(w, 1, wc)
        } else if op == 11 {
            w.len() > 1 && text_ok(w, 2, wc)
        } else if op == 12 {
            w.len() > 1 && w.len() > 2 && w.len() > 3 && w.len() > 4 && 5 <= w.len()
        } else if op == 14 {
            w.len() > 1 && AddressingModel::spec_from(w[1]) is Some && w.len() > 2 && MemoryModel::spec_from(w[2]) is Some
        } else if op == 15 {
            w.len() > 1 && ExecutionModel::spec_from(w[1]) is Some && w.len() > 2 && text_ok(w, 3, wc) && 5 <= w.len()
        } else if op == 16 {
            w.len() > 1 && w.len() > 2 && ExecutionMode::spec_from(w[2]) is Some && 3 <= w.len()
        } else if op == 17 {
            w.len() > 1 && Capability::spec_from(w[1]) is Some
        } else if op == 19 {
            w.len() > 1
        } else if op == 20 {
            w.len() > 1
        } else if op == 21 {
            w.len() > 1 && w.len() > 2 && w.len() > 3
        } else if op == 22 {
            w.len() > 1 && w.len() > 2
        } else if op == 23 {
            w.len() > 1 && w.len() > 2 && w.len() > 3
        } else if op == 24 {
            w.len() > 1 && w.len() > 2 && w.len() > 3
        } else if op == 25 {
            w.len() > 1 && w.len() > 2 && w.len() > 3 && Dim::spec_from(w[3]) is Some && w.len() > 4 && w.len() > 5 && w.len() > 6 && w.len() > 7 && w.len() > 8 && ImageFormat::spec_from(w[8]) is Some && (wc >= 10 ==> w.len() > 9 && AccessQualifier::spec_from(w[9]) is Some)
        } else if op == 26 {
            w.len() > 1
        } else if op == 27 {
            w.len() > 1 && w.len() > 2
        } else if op == 28 {
            w.len() > 1 && w.len() > 2 && w.len() > 3
        } else if op == 29 {
            w.len() > 1 && w.len() > 2
        } else if op == 30 {
            w.len() > 1 && 2 <= w.len()
        } else if op == 31 {
            w.len() > 1 && text_ok(w, 2, wc)
        } else if op == 32 {
            w.len() > 1 && w.len() > 2 && StorageClass::spec_from(w[2]) is Some && w.len() > 3
        } else if op == 33 {
            w.len() > 1 && w.len() > 2 && 3 <= w.len()
        } else if op == 43 {
            w.len() > 1 && w.len() > 2 && 3 <= w.len()
        } else if op == 44 {
            w.len() > 1 && w.len() > 2 && 3 <= w.len()
        } else if op == 54 {
            w.len() > 1 && w.len() > 2 && w.len() > 3 && FunctionControl::spec_from(w[3]) is Some && w.len() > 4
        } else if op == 56 {
            true
        } else if op == 59 {
            w.len() > 1 && w.len() > 2 && w.len() > 3 && StorageClass::spec_from(w[3]) is Some && (wc == 5 ==> w.len() > 4)
        } else if op == 61 {
            w.len() > 1 && w.len() > 2 && w.len() > 3 && (wc >= 5 ==> w.len() > 4 && MemoryOperands::spec_from(w[4]) is Some)
        } else if op == 62 {
            w.len() > 1 && w.len() > 2 && (wc >= 4 ==> w.len() > 3 && MemoryOperands::spec_from(w[3]) is Some)
        } else if op == 65 {
            w.len() > 1 && w.len() > 2 && w.len() > 3 && 4 <= w.len()
        } else if op == 71 {
            w.len() > 1 && w.len() > 2 && Decoration::spec_from(w[2]) is Some && 3 <= w.len()
        } else if op == 72 {
            w.len() > 1 && w.len() > 2 && w.len() > 3 && Decoration::spec_from(w[3]) is Some
        } else if op == 79 {
            w.len() > 1 && w.len() > 2 && w.len() > 3 && w.len() > 4 && 5 <= w.len()
        } else if op == 80 {
            w.len() > 1 && w.len() > 2 && 3 <= w.len()
        } else if op == 81 {
            w.len() > 1 && w.len() > 2 && w.len() > 3 && 4 <= w.len()
        } else if op == 87 {
            w.len() > 1 && w.len() > 2 && w.len() > 3 && w.len() > 4
        } else if op == 112 {
            w.len() > 1 && w.len() > 2 && w.len() > 3
        } else if op == 127 {
            w.len() > 1 && w.len() > 2 && w.len() > 3
        } else if op == 129 {
            w.len() > 1 && w.len() > 2 && w.len() > 3 && w.len() > 4
        } else if op == 131 {
            w.len() > 1 && w.len() > 2 && w.len() > 3 && w.len() > 4
        } else if op == 133 {
            w.len() > 1 && w.len() > 2 && w.len() > 3 && w.len() > 4
        } else if op == 136 {
            w.len() > 1 && w.len() > 2 && w.len() > 3 && w.len() > 4
        } else if op == 142 {
            w.len() > 1 && w.len() > 2 && w.len() > 3 && w.len() > 4
        } else if op == 145 {
            w.len() > 1 && w.len() > 2 && w.len() > 3 && w.len() > 4
        } else if op == 248 {
            w.len() > 1
        } else if op == 253 {
            true
        } else {
            false
        }
    }
}

/// `inst` is what the decoder makes of the words `w`: the variant that the
/// opcode names, with each field taken from its word.
pub open spec fn decoded(w: Seq<u32>, inst: Instruction) -> bool {
    let wc = word_count_of(w[0]);
    let op = opcode_of(w[0]);
    if op == 0 {
        inst matches Instruction::OpNop { opcode } && opcode == op
    } else if op == 1 {
        inst matches Instruction::OpUndef { opcode, result_type, result } && opcode == op && result_type == w[1] && result == w[2]
    } else if op == 2 {
        inst matches Instruction::OpSourceContinued { opcode, continued_source } && opcode == op && continued_source@ == text_at(w, 1, wc)
    } else if op == 3 {
        inst matches Instruction::OpSource { opcode, source_language, version, file, source } && opcode == op && Some(source_language) == SourceLanguage::spec_from(w[1]) && version == w[2] && file == (if wc >= 4 { Some(w[3]) } else { None }) && source is None
    } else if op == 4 {
        inst matches Instruction::OpSourceExtension { opcode, extension } && opcode == op && extension@ == text_at(w, 1, wc)
    } else if op == 5 {
        inst matches Instruction::OpName { opcode, target, name } && opcode == op && target == w[1] && name@ == text_at(w, 2, wc)
    } else if op == 6 {
        inst matches Instruction::OpMemberName { opcode, ttype, member, name } && opcode == op && ttype == w[1] && member == w[2] && name@ == text_at(w, 3, wc)
    } else if op == 7 {
        inst matches Instruction::OpString { opcode, result, string } && opcode == op && result == w[1] && string@ == text_at(w, 2, wc)
    } else if op == 8 {
        inst matches Instruction::OpLine { opcode, file, line, column } && opcode == op && file == w[1] && line == w[2] && column == w[2]
    } else if op == 10 {
        inst matches Instruction::OpExtension { opcode, name } && opcode == op && name@ == text_at(w, 1, wc)
    } else if op == 11 {
        inst matches Instruction::OpExtInstImport { opcode, result, name } && opcode == op && result == w[1] && name@ == text_at(w, 2, wc)
    } else if op == 12 {
        inst matches Instruction::OpExtInst { opcode, result_type, result, set, instruction, operands } && opcode == op && result_type == w[1] && result == w[2] && set == w[3] && instruction == w[4] && operands@ == w.subrange(5, w.len() as int)
    } else if op == 14 {
        inst matches Instruction::OpMemoryModel { opcode, addressing_model, memory_model } && opcode == op && Some(addressing_model) == AddressingModel::spec_from(w[1]) && Some(memory_model) == MemoryModel::spec_from(w[2])
    } else if op == 15 {
        inst matches Instruction::OpEntryPoint { opcode, execution_model, entry_point, name, interface } && opcode == op && Some(execution_model) == ExecutionModel::spec_from(w[1]) && entry_point == w[2] && name@ == text_at(w, 3, wc) && interface@ == w.subrange(5, w.len() as int)
    } else if op == 16 {
        inst matches Instruction::OpExecutionMode { opcode, entry_point, mode, literals } && opcode == op && entry_point == w[1] && Some(mode) == ExecutionMode::spec_from(w[2]) && literals@ == w.subrange(3, w.len() as int)
    } else if op == 17 {
        inst matches Instruction::OpCapability { opcode, capability } && opcode == op && Some(capability) == Capability::spec_from(w[1])
    } else if op == 19 {
        inst matches Instruction::OpTypeVoid { opcode, result } && opcode == op && result == w[1]
    } else if op == 20 {
        inst matches Instruction::OpTypeBool { opcode, result } && opcode == op && result == w[1]
    } else if op == 21 {
        inst matches Instruction::OpTypeInt { opcode, result, width, signedness } && opcode == op && result == w[1] && width == w[2] && signedness == w[3]
    } else if op == 22 {
        inst matches Instruction::OpTypeFloat { opcode, result, width } && opcode == op && result == w[1] && width == w[2]
    } else if op == 23 {
        inst matches Instruction::OpTypeVector { opcode, result, component_type, component_count } && opcode == op && result == w[1] && component_type == w[2] && component_count == w[3]
    } else if op == 24 {
        inst matches Instruction::OpTypeMatrix { opcode, result, column_type, column_count } && opcode == op && result == w[1] && column_type == w[2] && column_count == w[3]
    } else if op == 25 {
        inst matches Instruction::OpTypeImage { opcode, result, sampled_type, dim, depth, arrayed, ms, sampled, image_format, access_qualifier } && opcode == op && result == w[1] && sampled_type == w[2] && Some(dim) == Dim::spec_from(w[3]) && depth == w[4] && arrayed == w[5] && ms == w[6] && sampled == w[7] && Some(image_format) == ImageFormat::spec_from(w[8]) && access_qualifier == (if wc >= 10 { AccessQualifier::spec_from(w[9]) } else { None })
    } else if op == 26 {
        inst matches Instruction::OpTypeSampler { opcode, result } && opcode == op && result == w[1]
    } else if op == 27 {
        inst matches Instruction::OpTypeSampledImage { opcode, result, image_type } && opcode == op && result == w[1] && image_type == w[2]
    } else if op == 28 {
        inst matches Instruction::OpTypeArray { opcode, result, element_type, length } && opcode == op && result == w[1] && element_type == w[2] && length == w[3]
    } else if op == 29 {
        inst matches Instruction::OpTypeRuntimeArray { opcode, result, element_type } && opcode == op && result == w[1] && element_type == w[2]
    } else if op == 30 {
        inst matches Instruction::OpTypeStruct { opcode, result, member_types } && opcode == op && result == w[1] && member_types@ == w.subrange(2, w.len() as int)
    } else if op == 31 {
        inst matches Instruction::OpTypeOpaque { opcode, result, name } && opcode == op && result == w[1] && name@ == text_at(w, 2, wc)
    } else if op == 32 {
        inst matches Instruction::OpTypePointer { opcode, result, storage_class, ttype } && opcode == op && result == w[1] && Some(storage_class) == StorageClass::spec_from(w[2]) && ttype == w[3]
    } else if op == 33 {
        inst matches Instruction::OpTypeFunction { opcode, result, return_type, parameter_types } && opcode == op && result == w[1] && return_type == w[2] && parameter_types@ == w.subrange(3, w.len() as int)
    } else if op == 43 {
        inst matches Instruction::OpConstant { opcode, result_type, result, value } && opcode == op && result_type == w[1] && result == w[2] && value@ == w.subrange(3, w.len() as int)
    } else if op == 44 {
        inst matches Instruction::OpConstantComposite { opcode, result_type, result, constituents } && opcode == op && result_type == w[1] && result == w[2] && constituents@ == w.subrange(3, w.len() as int)
    } else if op == 54 {
        inst matches Instruction::OpFunction { opcode, result_type, result, function_control, function_type } && opcode == op && result_type == w[1] && result == w[2] && Some(function_control) == FunctionControl::spec_from(w[3]) && function_type == w[4]
    } else if op == 56 {
        inst matches Instruction::OpFunctionEnd { opcode } && opcode == op
    } else if op == 59 {
        inst matches Instruction::OpVariable { opcode, result_type, result, storage_class, initializer } && opcode == op && result_type == w[1] && result == w[2] && Some(storage_class) == StorageClass::spec_from(w[3]) && initializer == (if wc == 5 { Some(w[4]) } else { None })
    } else if op == 61 {
        inst matches Instruction::OpLoad { opcode, result_type, result, pointer, memory_operands } && opcode == op && result_type == w[1] && result == w[2] && pointer == w[3] && memory_operands == (if wc >= 5 { MemoryOperands::spec_from(w[4]) } else { None })
    } else if op == 62 {
        inst matches Instruction::OpStore { opcode, pointer, object, memory_operands } && opcode == op && pointer == w[1] && object == w[2] && memory_operands == (if wc >= 4 { MemoryOperands::spec_from(w[3]) } else { None })
    } else if op == 65 {
        inst matches Instruction::OpAccessChain { opcode, result_type, result, base, indexes } && opcode == op && result_type == w[1] && result == w[2] && base == w[3] && indexes@ == w.subrange(4, w.len() as int)
    } else if op == 71 {
        inst matches Instruction::OpDecorate { opcode, target, decoration, extra } && opcode == op && target == w[1] && Some(decoration) == Decoration::spec_from(w[2]) && extra@ == w.subrange(3, w.len() as int)
    } else if op == 72 {
        inst matches Instruction::OpMemberDecorate { opcode, structure_type, member, decoration } && opcode == op && structure_type == w[1] && member == w[2] && Some(decoration) == Decoration::spec_from(w[3])
    } else if op == 79 {
        inst matches Instruction::OpVectorShuffle { opcode, result_type, result, vector1, vector2, components } && opcode == op && result_type == w[1] && result == w[2] && vector1 == w[3] && vector2 == w[4] && components@ == w.subrange(5, w.len() as int)
    } else if op == 80 {
        inst matches Instruction::OpCompositeConstruct { opcode, result_type, result, constituents } && opcode == op && result_type == w[1] && result == w[2] && constituents@ == w.subrange(3, w.len() as int)
    } else if op == 81 {
        inst matches Instruction::OpCompositeExtract { opcode, result_type, result, composite, indexes } && opcode == op && result_type == w[1] && result == w[2] && composite == w[3] && indexes@ == w.subrange(4, w.len() as int)
    } else if op == 87 {
        inst matches Instruction::OpImageSampleImplicitLod { opcode, result_type, result, sampled_image, coordinate, image_operands } && opcode == op && result_type == w[1] && result == w[2] && sampled_image == w[3] && coordinate == w[4] && image_operands is None
    } else if op == 112 {
        inst matches Instruction::OpConvertUToF { opcode, result_type, result, unsigned_value } && opcode == op && result_type == w[1] && result == w[2] && unsigned_value == w[3]
    } else if op == 127 {
        inst matches Instruction::OpFNegate { opcode, result_type, result, operand } && opcode == op && result_type == w[1] && result == w[2] && operand == w[3]
    } else if op == 129 {
        inst matches Instruction::OpFAdd { opcode, result_type, result, operand1, operand2 } && opcode == op && result_type == w[1] && result == w[2] && operand1 == w[3] && operand2 == w[4]
    } else if op == 131 {
        inst matches Instruction::OpFSub { opcode, result_type, result, operand1, operand2 } && opcode == op && result_type == w[1] && result == w[2] && operand1 == w[3] && operand2 == w[4]
    } else if op == 133 {
        inst matches Instruction::OpFMul { opcode, result_type, result, operand1, operand2 } && opcode == op && result_type == w[1] && result == w[2] && operand1 == w[3] && operand2 == w[4]
    } else if op == 136 {
        inst matches Instruction::OpFDiv { opcode, result_type, result, operand1, operand2 } && opcode == op && result_type == w[1] && result == w[2] && operand1 == w[3] && operand2 == w[4]
    } else if op == 142 {
        inst matches Instruction::OpVectorTimesScalar { opcode, result_type, result, vector, scalar } && opcode == op && result_type == w[1] && result == w[2] && vector == w[3] && scalar == w[4]
    } else if op == 145 {
        inst matches Instruction::OpMatrixTimesVector { opcode, result_type, result, matrix, vector } && opcode == op && result_type == w[1] && result == w[2] && matrix == w[3] && vector == w[4]
    } else if op == 248 {
        inst matches Instruction::OpLabel { opcode, result } && opcode == op && result == w[1]
    } else if op == 253 {
        inst matches Instruction::OpReturn { opcode } && opcode == op
    } else {
        false
    }
}

/// Copies the words of `w` from index `a` to the end.
fn words_from(w: &[u32], a: usize) -> (v: Vec<u32>)
    requires
        a <= w@.len(),
    ensures
        v@ == w@.subrange(a as int, w@.len() as int),
{
    let mut v: Vec<u32> = Vec::new();
    let mut i = a;
    while i < w.len()
        invariant
            a <= i <= w@.len(),
            v@ == w@.subrange(a as int, i as int),
        decreases w@.len() - i,
    {
        v.push(w[i]);
        i += 1;
    }
    v
}

proof fn lemma_first_word(x: u32)
    ensures
        ((x >> 16) & 0xffff) as int == (x as int / 0x1_0000) % 0x1_0000,
        (x & 0xffff) as int == x as int % 0x1_0000,
{
    assert(((x >> 16) & 0xffff) == (x / 0x1_0000) % 0x1_0000) by (bit_vector);
    assert((x & 0xffff) == x % 0x1_0000) by (bit_vector);
}

/// The little-endian bytes of `x`, computed with masks and shifts.
fn bytes_of_word(x: u32) -> (b: (u8, u8, u8, u8))
    ensures
        seq![b.0, b.1, b.2, b.3] == word_bytes(x),
{
    let b0 = (x & 0xff) as u8;
    let b1 = ((x >> 8) & 0xff) as u8;
    let b2 = ((x >> 16) & 0xff) as u8;
    let b3 = ((x >> 24) & 0xff) as u8;
    assert(b0 == (x % 0x100) as u8 && b1 == (x / 0x100 % 0x100) as u8 && b2 == (x / 0x1_0000
        % 0x100) as u8 && b3 == (x / 0x100_0000 % 0x100) as u8) by (bit_vector)
        requires
            b0 == (x & 0xff) as u8,
            b1 == ((x >> 8) & 0xff) as u8,
            b2 == ((x >> 16) & 0xff) as u8,
            b3 == ((x >> 24) & 0xff) as u8,
    ;
    (b0, b1, b2, b3)
}

/// Decodes the literal string held in words `a..b` of `w`.
fn words_text(w: &[u32], a: usize, b: usize) -> (s: String)
    requires
        text_ok(w@, a as int, b as int),
    ensures
        s@ == text_at(w@, a as int, b as int),
{
    let mut bytes: Vec<u8> = Vec::new();
    let mut i = a;
    while i < b
        invariant
            a <= i <= b <= w@.len(),
            bytes@ == words_bytes(w@.subrange(a as int, i as int)),
        decreases b - i,
    {
        let (b0, b1, b2, b3) = bytes_of_word(w[i]);
        bytes.push(b0);
        bytes.push(b1);
        bytes.push(b2);
        bytes.push(b3);
        proof {
            let ws = w@.subrange(a as int, i + 1);
            assert(ws.drop_last() =~= w@.subrange(a as int, i as int));
            assert(ws.last() == w@[i as int]);
            assert(bytes@ =~= words_bytes(ws));
        }
        i += 1;
    }
    let ghost all = bytes@;
    let mut kept: Vec<u8> = Vec::new();
    let mut k: usize = 0;
    while k < bytes.len() && bytes[k] != 0
        invariant
            bytes@ == all,
            0 <= k <= all.len(),
            first_nul_from(all, 0) == first_nul_from(all, k as int),
            kept@ == all.subrange(0, k as int),
        decreases all.len() - k,
    {
        kept.push(bytes[k]);
        k += 1;
        assert(kept@ =~= all.subrange(0, k as int));
    }
    assert(first_nul_from(all, k as int) == k);
    match string_from_utf8(kept) {
        Some(s) => s,
        None => vstd::pervasive::unreached(),
    }
}

impl Instruction {
    /// Decodes one instruction from its words (the first word holds the word
    /// count and the opcode).
    pub fn try_from(inst_words: &[u32]) -> (r: Result<Self, &'static str>)
        requires
            instruction_decodable(inst_words@),
        ensures
            r matches Ok(inst) && decoded(inst_words@, inst),
    {
        let ghost w = inst_words@;
        let word_count = ((inst_words[0] >> 16) & 0xffff) as usize;
        let opcode = inst_words[0] & 0xffff;
        proof {
            lemma_first_word(inst_words[0]);
        }
        assert(word_count == word_count_of(w[0]) && opcode == opcode_of(w[0]));
        match opcode {
            0 => {
                Ok(Instruction::OpNop { opcode })
            },
            1 => {
                let result_type = inst_words[1];
                let result = inst_words[2];
                Ok(Instruction::OpUndef { opcode, result_type, result })
            },
            2 => {
                let continued_source = words_text(inst_words, 1, word_count);
                Ok(Instruction::OpSourceContinued { opcode, continued_source })
            },
            3 => {
                let source_language = SourceLanguage::from_code(inst_words[1]);
                let version = inst_words[2];
                let file = if word_count >= 4 { Some(inst_words[3]) } else { None };
                let source = None;
                Ok(Instruction::OpSource { opcode, source_language, version, file, source })
            },
            4 => {
                let extension = words_text(inst_words, 1, word_count);
                Ok(Instruction::OpSourceExtension { opcode, extension })
            },
            5 => {
                let target = inst_words[1];
                let name = words_text(inst_words, 2, word_count);
                Ok(Instruction::OpName { opcode, target, name })
            },
            6 => {
                let ttype = inst_words[1];
                let member = inst_words[2];
                let name = words_text(inst_words, 3, word_count);
                Ok(Instruction::OpMemberName { opcode, ttype, member, name })
            },
            7 => {
                let result = inst_words[1];
                let string = words_text(inst_words, 2, word_count);
                Ok(Instruction::OpString { opcode, result, string })
            },
            8 => {
                let file = inst_words[1];
                let line = inst_words[2];
                let column = inst_words[2];
                Ok(Instruction::OpLine { opcode, file, line, column })
            },
            10 => {
                let name = words_text(inst_words, 1, word_count);
                Ok(Instruction::OpExtension { opcode, name })
            },
            11 => {
                let result = inst_words[1];
                let name = words_text(inst_words, 2, word_count);
                Ok(Instruction::OpExtInstImport { opcode, result, name })
            },
            12 => {
                let result_type = inst_words[1];
                let result = inst_words[2];
                let set = inst_words[3];
                let instruction = inst_words[4];
                let operands = words_from(inst_words, 5);
                Ok(Instruction::OpExtInst { opcode, result_type, result, set, instruction, operands })
            },
            14 => {
                let addressing_model = AddressingModel::from_code(inst_words[1]);
                let memory_model = MemoryModel::from_code(inst_words[2]);
                Ok(Instruction::OpMemoryModel { opcode, addressing_model, memory_model })
            },
            15 => {
                let execution_model = ExecutionModel::from_code(inst_words[1]);
                let entry_point = inst_words[2];
                let name = words_text(inst_words, 3, word_count);
                let interface = words_from(inst_words, 5);
                Ok(Instruction::OpEntryPoint { opcode, execution_model, entry_point, name, interface })
            },
            16 => {
                let entry_point = inst_words[1];
                let mode = ExecutionMode::from_code(inst_words[2]);
                let literals = words_from(inst_words, 3);
                Ok(Instruction::OpExecutionMode { opcode, entry_point, mode, literals })
            },
            17 => {
                let capability = Capability::from_code(inst_words[1]);
                Ok(Instruction::OpCapability { opcode, capability })
            },
            19 => {
                let result = inst_words[1];
                Ok(Instruction::OpTypeVoid { opcode, result })
            },
            20 => {
                let result = inst_words[1];
                Ok(Instruction::OpTypeBool { opcode, result })
            },
            21 => {
                let result = inst_words[1];
                let width = inst_words[2];
                let signedness = inst_words[3];
                Ok(Instruction::OpTypeInt { opcode, result, width, signedness })
            },
            22 => {
                let result = inst_words[1];
                let width = inst_words[2];
                Ok(Instruction::OpTypeFloat { opcode, result, width })
            },
            23 => {
                let result = inst_words[1];
                let component_type = inst_words[2];
                let component_count = inst_words[3];
                Ok(Instruction::OpTypeVector { opcode, result, component_type, component_count })
            },
            24 => {
                let result = inst_words[1];
                let column_type = inst_words[2];
                let column_count = inst_words[3];
                Ok(Instruction::OpTypeMatrix { opcode, result, column_type, column_count })
            },
            25 => {
                let result = inst_words[1];
                let sampled_type = inst_words[2];
                let dim = Dim::from_code(inst_words[3]);
                let depth = inst_words[4];
                let arrayed = inst_words[5];
                let ms = inst_words[6];
                let sampled = inst_words[7];
                let image_format = ImageFormat::from_code(inst_words[8]);
                let access_qualifier = if word_count >= 10 { Some(AccessQualifier::from_code(inst_words[9])) } else { None };
                Ok(Instruction::OpTypeImage { opcode, result, sampled_type, dim, depth, arrayed, ms, sampled, image_format, access_qualifier })
            },
            26 => {
                let result = inst_words[1];
                Ok(Instruction::OpTypeSampler { opcode, result })
            },
            27 => {
                let result = inst_words[1];
                let image_type = inst_words[2];
                Ok(Instruction::OpTypeSampledImage { opcode, result, image_type })
            },
            28 => {
                let result = inst_words[1];
                let element_type = inst_words[2];
                let length = inst_words[3];
                Ok(Instruction::OpTypeArray { opcode, result, element_type, length })
            },
            29 => {
                let result = inst_words[1];
                let element_type = inst_words[2];
                Ok(Instruction::OpTypeRuntimeArray { opcode, result, element_type })
            },
            30 => {
                let result = inst_words[1];
                let member_types = words_from(inst_words, 2);
                Ok(Instruction::OpTypeStruct { opcode, result, member_types })
            },
            31 => {
                let result = inst_words[1];
                let name = words_text(inst_words, 2, word_count);
                Ok(Instruction::OpTypeOpaque { opcode, result, name })
            },
            32 => {
                let result = inst_words[1];
                let storage_class = StorageClass::from_code(inst_words[2]);
                let ttype = inst_words[3];
                Ok(Instruction::OpTypePointer { opcode, result, storage_class, ttype })
            },
            33 => {
                let result = inst_words[1];
                let return_type = inst_words[2];
                let parameter_types = words_from(inst_words, 3);
                Ok(Instruction::OpTypeFunction { opcode, result, return_type, parameter_types })
            },
            43 => {
                let result_type = inst_words[1];
                let result = inst_words[2];
                let value = words_from(inst_words, 3);
                Ok(Instruction::OpConstant { opcode, result_type, result, value })
            },
            44 => {
                let result_type = inst_words[1];
                let result = inst_words[2];
                let constituents = words_from(inst_words, 3);
                Ok(Instruction::OpConstantComposite { opcode, result_type, result, constituents })
            },
            54 => {
                let result_type = inst_words[1];
                let result = inst_words[2];
                let function_control = FunctionControl::from_code(inst_words[3]);
                let function_type = inst_words[4];
                Ok(Instruction::OpFunction { opcode, result_type, result, function_control, function_type })
            },
            56 => {
                Ok(Instruction::OpFunctionEnd { opcode })
            },
            59 => {
                let result_type = inst_words[1];
                let result = inst_words[2];
                let storage_class = StorageClass::from_code(inst_words[3]);
                let initializer = if word_count == 5 { Some(inst_words[4]) } else { None };
                Ok(Instruction::OpVariable { opcode, result_type, result, storage_class, initializer })
            },
            61 => {
                let result_type = inst_words[1];
                let result = inst_words[2];
                let pointer = inst_words[3];
                let memory_operands = if word_count >= 5 { Some(MemoryOperands::from_code(inst_words[4])) } else { None };
                Ok(Instruction::OpLoad { opcode, result_type, result, pointer, memory_operands })
            },
            62 => {
                let pointer = inst_words[1];
                let object = inst_words[2];
                let memory_operands = if word_count >= 4 { Some(MemoryOperands::from_code(inst_words[3])) } else { None };
                Ok(Instruction::OpStore { opcode, pointer, object, memory_operands })
            },
            65 => {
                let result_type = inst_words[1];
                let result = inst_words[2];
                let base = inst_words[3];
                let indexes = words_from(inst_words, 4);
                Ok(Instruction::OpAccessChain { opcode, result_type, result, base, indexes })
            },
            71 => {
                let target = inst_words[1];
                let decoration = Decoration::from_code(inst_words[2]);
                let extra = words_from(inst_words, 3);
                Ok(Instruction::OpDecorate { opcode, target, decoration, extra })
            },
            72 => {
                let structure_type = inst_words[1];
                let member = inst_words[2];
                let decoration = Decoration::from_code(inst_words[3]);
                Ok(Instruction::OpMemberDecorate { opcode, structure_type, member, decoration })
            },
            79 => {
                let result_type = inst_words[1];
                let result = inst_words[2];
                let vector1 = inst_words[3];
                let vector2 = inst_words[4];
                let components = words_from(inst_words, 5);
                Ok(Instruction::OpVectorShuffle { opcode, result_type, result, vector1, vector2, components })
            },
            80 => {
                let result_type = inst_words[1];
                let result = inst_words[2];
                let constituents = words_from(inst_words, 3);
                Ok(Instruction::OpCompositeConstruct { opcode, result_type, result, constituents })
            },
            81 => {
                let result_type = inst_words[1];
                let result = inst_words[2];
                let composite = inst_words[3];
                let indexes = words_from(inst_words, 4);
                Ok(Instruction::OpCompositeExtract { opcode, result_type, result, composite, indexes })
            },
            87 => {
                let result_type = inst_words[1];
                let result = inst_words[2];
                let sampled_image = inst_words[3];
                let coordinate = inst_words[4];
                let image_operands = None;
                Ok(Instruction::OpImageSampleImplicitLod { opcode, result_type, result, sampled_image, coordinate, image_operands })
            },
            112 => {
                let result_type = inst_words[1];
                let result = inst_words[2];
                let unsigned_value = inst_words[3];
                Ok(Instruction::OpConvertUToF { opcode, result_type, result, unsigned_value })
            },
            127 => {
                let result_type = inst_words[1];
                let result = inst_words[2];
                let operand = inst_words[3];
                Ok(Instruction::OpFNegate { opcode, result_type, result, operand })
            },
            129 => {
                let result_type = inst_words[1];
                let result = inst_words[2];
                let operand1 = inst_words[3];
                let operand2 = inst_words[4];
                Ok(Instruction::OpFAdd { opcode, result_type, result, operand1, operand2 })
            },
            131 => {
                let result_type = inst_words[1];
                let result = inst_words[2];
                let operand1 = inst_words[3];
                let operand2 = inst_words[4];
                Ok(Instruction::OpFSub { opcode, result_type, result, operand1, operand2 })
            },
            133 => {
                let result_type = inst_words[1];
                let result = inst_words[2];
                let operand1 = inst_words[3];
                let operand2 = inst_words[4];
                Ok(Instruction::OpFMul { opcode, result_type, result, operand1, operand2 })
            },
            136 => {
                let result_type = inst_words[1];
                let result = inst_words[2];
                let operand1 = inst_words[3];
                let operand2 = inst_words[4];
                Ok(Instruction::OpFDiv { opcode, result_type, result, operand1, operand2 })
            },
            142 => {
                let result_type = inst_words[1];
                let result = inst_words[2];
                let vector = inst_words[3];
                let scalar = inst_words[4];
                Ok(Instruction::OpVectorTimesScalar { opcode, result_type, result, vector, scalar })
            },
            145 => {
                let result_type = inst_words[1];
                let result = inst_words[2];
                let matrix = inst_words[3];
                let vector = inst_words[4];
                Ok(Instruction::OpMatrixTimesVector { opcode, result_type, result, matrix, vector })
            },
            248 => {
                let result = inst_words[1];
                Ok(Instruction::OpLabel { opcode, result })
            },
            253 => {
                Ok(Instruction::OpReturn { opcode })
            },
            _ => vstd::pervasive::unreached(),
        }
    }
}

/// A SPIR-V module: its header words and its instructions.
#[derive(Clone)]
pub struct ShaderModule {
    pub magic: u32,
    pub version: u32,
    pub generator: u32,
    pub bound: u32,
    pub instructions: Vec<Instruction>,
}

/// The little-endian words of a byte string whose length is a multiple of four.
pub open spec fn module_words(bytes: Seq<u8>) -> Seq<u32> {
    Seq::new(bytes.len() / 4, |i: int| le32(bytes.subrange(4 * i, 4 * i + 4)) as u32)
}

/// How the instruction stream from a word index on reads: the start index of
/// each instruction, or a stream that ends inside an instruction, or one that
/// holds an instruction the decoder cannot read.
pub enum Scan {
    Starts(Seq<int>),
    Truncated,
    Malformed,
}

/// `s` with `d` put in front of its start indices.
pub open spec fn prepend(d: Seq<int>, s: Scan) -> Scan {
    match s {
        Scan::Starts(t) => Scan::Starts(d + t),
        other => other,
    }
}

/// Reads the instruction stream of `w` from word `k` on.  An instruction
/// announcing no words, or more than the 32 that an instruction may have
/// while the stream goes on past its 33rd word, cannot be read; one that runs
/// past the end of the stream truncates it.
pub open spec fn scan_from(w: Seq<u32>, k: int) -> Scan
    decreases w.len() - k,
{
    if k < 0 || k >= w.len() {
        Scan::Starts(Seq::empty())
    } else {
        let wc = word_count_of(w[k]);
        if wc == 0 {
            Scan::Malformed
        } else if wc > 32 {
            if k + 33 > w.len() {
                Scan::Truncated
            } else {
                Scan::Malformed
            }
        } else if k + wc > w.len() {
            Scan::Truncated
        } else if !instruction_decodable(w.subrange(k, k + wc)) {
            Scan::Malformed
        } else {
            prepend(seq![k], scan_from(w, k + wc))
        }
    }
}

/// What reading a module gives: the header words and the start index of each
/// instruction, or the refusal message, or an input the reader cannot take.
pub enum ModuleParse {
    Parsed { magic: u32, version: u32, generator: u32, bound: u32, starts: Seq<int> },
    Refused(&'static str),
    Malformed,
}

/// Reading a module from its bytes: the length must be a multiple of four,
/// the magic number 0x07230203, the version between 1.0 and 1.6 and the
/// reserved word zero; a header or instruction that runs out of bytes is an
/// I/O error.
pub open spec fn parse_module(bytes: Seq<u8>) -> ModuleParse {
    let w = module_words(bytes);
    if bytes.len() % 4 != 0 {
        ModuleParse::Refused("Length should be an even multiple of 4.")
    } else if w.len() < 1 {
        ModuleParse::Refused("IO Error")
    } else if w[0] != 0x07230203 {
        ModuleParse::Refused("Magic number should be 0x07230203.")
    } else if w.len() < 2 {
        ModuleParse::Refused("IO Error")
    } else if !(0x0001_0000 <= w[1] && w[1] <= 0x0001_0600) {
        ModuleParse::Refused("Unexpected version number.")
    } else if w.len() < 5 {
        ModuleParse::Refused("IO Error")
    } else if w[4] != 0 {
        ModuleParse::Refused("Reserved should be 0.")
    } else {
        match scan_from(w, 5) {
            Scan::Starts(s) => ModuleParse::Parsed {
                magic: w[0],
                version: w[1],
                generator: w[2],
                bound: w[3],
                starts: s,
            },
            Scan::Truncated => ModuleParse::Refused("IO Error"),
            Scan::Malformed => ModuleParse::Malformed,
        }
    }
}

/// The words of the instruction that starts at word `k` of `w`.
pub open spec fn instruction_words(w: Seq<u32>, k: int) -> Seq<u32> {
    w.subrange(k, k + word_count_of(w[k]))
}

/// `m` holds the header words of `w` and, in order, the decoded instructions
/// that start at the indices `starts`.
pub open spec fn module_holds(m: ShaderModule, w: Seq<u32>, starts: Seq<int>) -> bool {
    &&& m.instructions@.len() == starts.len()
    &&& forall|i: int|
        0 <= i < starts.len() ==> decoded(
            instruction_words(w, starts[i]),
            #[trigger] m.instructions@[i],
        )
}

proof fn lemma_prepend_assoc(a: Seq<int>, b: Seq<int>, s: Scan)
    ensures
        prepend(a, prepend(b, s)) == prepend(a + b, s),
{
    match s {
        Scan::Starts(t) => {
            assert(a + (b + t) =~= (a + b) + t);
        },
        _ => {},
    }
}

/// The word that a cursor at word `j` of a module reads is word `j` of the module.
proof fn lemma_word_at(bytes: Seq<u8>, j: int)
    requires
        bytes.len() % 4 == 0,
        0 <= j < bytes.len() / 4,
    ensures
        4 * j + 4 <= bytes.len(),
        le32(crate::parsing::rest(bytes, 4 * j)) == module_words(bytes)[j],
        crate::parsing::rest(bytes, 4 * j).len() >= 4,
{
    let r = crate::parsing::rest(bytes, 4 * j);
    let s = bytes.subrange(4 * j, 4 * j + 4);
    assert(r[0] == s[0] && r[1] == s[1] && r[2] == s[2] && r[3] == s[3]);
}

impl ShaderModule {
    /// Reads a module from its bytes.
    pub fn try_from(bytes: &[u8]) -> (res: Result<Self, &'static str>)
        requires
            !(parse_module(bytes@) is Malformed),
        ensures
            match parse_module(bytes@) {
                ModuleParse::Parsed { magic, version, generator, bound, starts } => {
                    &&& res matches Ok(m)
                    &&& m.magic == magic
                    &&& m.version == version
                    &&& m.generator == generator
                    &&& m.bound == bound
                    &&& module_holds(m, module_words(bytes@), starts)
                },
                ModuleParse::Refused(msg) => res == Err::<Self, &'static str>(msg),
                ModuleParse::Malformed => false,
            },
    {
        let ghost w = module_words(bytes@);
        let ghost nw = w.len();
        if bytes.len() % 4 != 0 {
            return Err("Length should be an even multiple of 4.");
        }
        let mut r = Cursor::new(bytes);
        proof {
            if nw > 0 {
                lemma_word_at(bytes@, 0);
            }
        }
        let magic = match read_u32_le(&mut r) {
            Ok(v) => v,
            Err(_) => return Err("IO Error"),
        };
        if magic != 0x07230203 {
            return Err("Magic number should be 0x07230203.");
        }
        proof {
            if nw > 1 {
                lemma_word_at(bytes@, 1);
            }
        }
        let version = match read_u32_le(&mut r) {
            Ok(v) => v,
            Err(_) => return Err("IO Error"),
        };
        if !(version >= 0x0001_0000 && version <= 0x0001_0600) {
            return Err("Unexpected version number.");
        }
        proof {
            if nw > 2 {
                lemma_word_at(bytes@, 2);
            }
        }
        let generator = match read_u32_le(&mut r) {
            Ok(v) => v,
            Err(_) => return Err("IO Error"),
        };
        proof {
            if nw > 3 {
                lemma_word_at(bytes@, 3);
            }
        }
        let bound = match read_u32_le(&mut r) {
            Ok(v) => v,
            Err(_) => return Err("IO Error"),
        };
        proof {
            if nw > 4 {
                lemma_word_at(bytes@, 4);
            }
        }
        let reserved = match read_u32_le(&mut r) {
            Ok(v) => v,
            Err(_) => return Err("IO Error"),
        };
        if reserved != 0 {
            return Err("Reserved should be 0.");
        }
        let mut instructions: Vec<Instruction> = Vec::new();
        let ghost mut starts: Seq<int> = Seq::empty();
        let ghost mut k: int = 5;
        assert(prepend(starts, scan_from(w, k)) == scan_from(w, 5)) by {
            match scan_from(w, 5) {
                Scan::Starts(t) => {
                    assert(Seq::<int>::empty() + t =~= t);
                },
                _ => {},
            }
        };
        let len = bytes.len();
        while r.pos < len as u64
            invariant
                r.data == bytes,
                len == bytes@.len(),
                w == module_words(bytes@),
                nw == w.len(),
                len % 4 == 0,
                5 <= k <= nw,
                r.pos == 4 * k,
                prepend(starts, scan_from(w, k)) == scan_from(w, 5),
                !(scan_from(w, 5) is Malformed),
                instructions@.len() == starts.len(),
                forall|i: int|
                    0 <= i < starts.len() ==> decoded(
                        instruction_words(w, starts[i]),
                        #[trigger] instructions@[i],
                    ),
                magic == w[0],
                version == w[1],
                generator == w[2],
                bound == w[3],
                reserved == w[4],
                magic == 0x07230203,
                0x0001_0000 <= version <= 0x0001_0600,
                reserved == 0,
            ensures
                r.pos >= len ==> k == nw,
                (r.pos >= len && scan_from(w, 5) is Starts) ==> scan_from(w, 5) == Scan::Starts(
                    starts,
                ),
                r.pos < len ==> scan_from(w, 5) is Truncated,
            decreases nw - k,
        {
            proof {
                lemma_word_at(bytes@, k);
            }
            let first = match read_u32_le(&mut r) {
                Ok(v) => v,
                Err(_) => return Err("IO Error"),
            };
            proof {
                lemma_first_word(first);
            }
            let word_count = ((first >> 16) & 0xffff) as usize;
            assert(word_count == word_count_of(w[k]));
            if word_count == 0 {
                assert(scan_from(w, k) is Malformed);
                assert(false);
            }
            let mut buf: Vec<u32> = Vec::new();
            buf.push(first);
            let mut remaining = word_count - 1;
            while remaining > 0
                invariant
                    r.data == bytes,
                    len == bytes@.len(),
                    w == module_words(bytes@),
                    nw == w.len(),
                    len % 4 == 0,
                    5 <= k < nw,
                    word_count == word_count_of(w[k]),
                    1 <= buf@.len() <= 32,
                    k + buf@.len() <= nw,
                    remaining + buf@.len() == word_count,
                    r.pos == 4 * (k + buf@.len()),
                    buf@ == w.subrange(k, k + buf@.len()),
                    prepend(starts, scan_from(w, k)) == scan_from(w, 5),
                    !(scan_from(w, 5) is Malformed),
                    magic == w[0] && version == w[1] && reserved == w[4],
                    magic == 0x07230203,
                    0x0001_0000 <= version <= 0x0001_0600,
                    reserved == 0,
                decreases remaining,
            {
                let ghost j = k + buf@.len();
                proof {
                    if j < nw {
                        lemma_word_at(bytes@, j);
                    }
                }
                let x = match read_u32_le(&mut r) {
                    Ok(v) => v,
                    Err(_) => {
                        assert(scan_from(w, k) is Truncated);
                        assert(scan_from(w, 5) is Truncated);
                        return Err("IO Error");
                    },
                };
                if buf.len() == 32 {
                    assert(scan_from(w, k) is Malformed);
                    assert(false);
                }
                buf.push(x);
                remaining -= 1;
                assert(buf@ =~= w.subrange(k, k + buf@.len()));
            }
            assert(!(scan_from(w, k) is Malformed));
            assert(buf@.len() == word_count && word_count <= 32 && k + word_count <= nw);
            assert(buf@ == instruction_words(w, k));
            assert(scan_from(w, k) == prepend(seq![k], scan_from(w, k + word_count)));
            let inst = match Instruction::try_from(buf.as_slice()) {
                Ok(i) => i,
                Err(_) => return Err("Failed to parse Instruction"),
            };
            instructions.push(inst);
            proof {
                lemma_prepend_assoc(starts, seq![k], scan_from(w, k + word_count));
                starts = starts + seq![k];
                k = k + word_count;
            }
        }
        if r.pos < len as u64 {
            return Err("IO Error");
        }
        Ok(ShaderModule { magic, version, generator, bound, instructions })
    }
}

/// The interface of the first entry point among `insts[i..]`, if there is one.
pub open spec fn entry_interface_from(insts: Seq<Instruction>, i: int) -> Option<Seq<u32>>
    decreases insts.len() - i,
{
    if i < 0 || i >= insts.len() {
        None
    } else {
        match insts[i] {
            Instruction::OpEntryPoint { interface, .. } => Some(interface@),
            _ => entry_interface_from(insts, i + 1),
        }
    }
}

/// The ids of the input variables of the interface `iface`, in the order of `insts`.
pub open spec fn input_variable_ids(insts: Seq<Instruction>, iface: Seq<u32>) -> Seq<u32>
    decreases insts.len(),
{
    if insts.len() == 0 {
        Seq::empty()
    } else {
        let before = input_variable_ids(insts.drop_last(), iface);
        match insts.last() {
            Instruction::OpVariable { result, storage_class, .. } => {
                if iface.contains(result) && storage_class == StorageClass::Input {
                    before.push(result)
                } else {
                    before
                }
            },
            _ => before,
        }
    }
}

/// The `Location` decorations of the variables `ids`, in the order of
/// `insts`: each target with its extra operands.
pub open spec fn location_decorations(insts: Seq<Instruction>, ids: Seq<u32>) -> Seq<(u32, Seq<u32>)>
    decreases insts.len(),
{
    if insts.len() == 0 {
        Seq::empty()
    } else {
        let before = location_decorations(insts.drop_last(), ids);
        match insts.last() {
            Instruction::OpDecorate { target, decoration, extra, .. } => {
                if decoration == Decoration::Location && ids.contains(target) {
                    before.push((target, extra@))
                } else {
                    before
                }
            },
            _ => before,
        }
    }
}

/// The location number of a decoration: its first extra operand.
pub open spec fn location_of(d: (u32, Seq<u32>)) -> u32 {
    d.1[0]
}

/// Where a stable sort places `x` among the sorted `t`: after every entry
/// whose location is not greater, looking from index `j` on.
pub open spec fn insertion_point_from(t: Seq<(u32, Seq<u32>)>, x: (u32, Seq<u32>), j: int) -> int
    decreases t.len() - j,
{
    if j < 0 || j >= t.len() {
        t.len() as int
    } else if location_of(t[j]) > location_of(x) {
        j
    } else {
        insertion_point_from(t, x, j + 1)
    }
}

/// `t` with `x` inserted at its insertion point.
pub open spec fn insert_stable(t: Seq<(u32, Seq<u32>)>, x: (u32, Seq<u32>)) -> Seq<(u32, Seq<u32>)> {
    let p = insertion_point_from(t, x, 0);
    t.subrange(0, p).push(x) + t.subrange(p, t.len() as int)
}

/// The decorations `s` sorted by location, equal locations kept in their order.
pub open spec fn sort_by_location(s: Seq<(u32, Seq<u32>)>) -> Seq<(u32, Seq<u32>)>
    decreases s.len(),
{
    if s.len() == 0 {
        Seq::empty()
    } else {
        insert_stable(sort_by_location(s.drop_last()), s.last())
    }
}

/// The type of the first variable with id `id` among `insts[i..]`.
pub open spec fn variable_type_from(insts: Seq<Instruction>, id: u32, i: int) -> Option<u32>
    decreases insts.len() - i,
{
    if i < 0 || i >= insts.len() {
        None
    } else {
        match insts[i] {
            Instruction::OpVariable { result, result_type, .. } => {
                if result == id {
                    Some(result_type)
                } else {
                    variable_type_from(insts, id, i + 1)
                }
            },
            _ => variable_type_from(insts, id, i + 1),
        }
    }
}

/// The pointee type of the first pointer type with id `id` among `insts[i..]`.
pub open spec fn pointee_from(insts: Seq<Instruction>, id: u32, i: int) -> Option<u32>
    decreases insts.len() - i,
{
    if i < 0 || i >= insts.len() {
        None
    } else {
        match insts[i] {
            Instruction::OpTypePointer { result, ttype, .. } => {
                if result == id {
                    Some(ttype)
                } else {
                    pointee_from(insts, id, i + 1)
                }
            },
            _ => pointee_from(insts, id, i + 1),
        }
    }
}

/// The component count of the first vector type with id `id` among `insts[i..]`.
pub open spec fn components_from(insts: Seq<Instruction>, id: u32, i: int) -> Option<u32>
    decreases insts.len() - i,
{
    if i < 0 || i >= insts.len() {
        None
    } else {
        match insts[i] {
            Instruction::OpTypeVector { result, component_count, .. } => {
                if result == id {
                    Some(component_count)
                } else {
                    components_from(insts, id, i + 1)
                }
            },
            _ => components_from(insts, id, i + 1),
        }
    }
}

/// The number of components of the input variable `id`: its type must be a
/// pointer to a vector.
pub open spec fn attribute_size(insts: Seq<Instruction>, id: u32) -> Option<u32> {
    match variable_type_from(insts, id, 0) {
        Some(vt) => match pointee_from(insts, vt, 0) {
            Some(pt) => components_from(insts, pt, 0),
            None => None,
        },
        None => None,
    }
}

/// The `Location` decorations of the entry point's input variables, in
/// location order (the module must have an entry point).
pub open spec fn input_locations(insts: Seq<Instruction>) -> Seq<(u32, Seq<u32>)> {
    let iface = entry_interface_from(insts, 0).unwrap();
    sort_by_location(location_decorations(insts, input_variable_ids(insts, iface)))
}

/// The module has what `input_descriptions` reads: an entry point, a location
/// number on each decoration it sorts (when there are two or more), and a
/// pointer-to-vector type for each located input variable.
pub open spec fn input_layout_ok(insts: Seq<Instruction>) -> bool {
    &&& entry_interface_from(insts, 0) is Some
    &&& {
        let iface = entry_interface_from(insts, 0).unwrap();
        let locs = location_decorations(insts, input_variable_ids(insts, iface));
        &&& locs.len() >= 2 ==> forall|i: int| 0 <= i < locs.len() ==> (#[trigger] locs[i]).1.len() >= 1
        &&& forall|i: int| 0 <= i < locs.len() ==> attribute_size(insts, (#[trigger] locs[i]).0) is Some
    }
}

/// The component counts of the entry point's input attributes, in location order.
pub open spec fn input_sizes(insts: Seq<Instruction>) -> Seq<usize> {
    let locs = input_locations(insts);
    Seq::new(locs.len(), |i: int| attribute_size(insts, locs[i].0).unwrap() as usize)
}

fn contains_u32(v: &Vec<u32>, x: u32) -> (b: bool)
    ensures
        b == v@.contains(x),
{
    let mut i: usize = 0;
    while i < v.len()
        invariant
            0 <= i <= v@.len(),
            forall|j: int| 0 <= j < i ==> v@[j] != x,
        decreases v@.len() - i,
    {
        if v[i] == x {
            assert(v@[i as int] == x);
            return true;
        }
        i += 1;
    }
    false
}

proof fn lemma_sort_len(s: Seq<(u32, Seq<u32>)>)
    ensures
        sort_by_location(s).len() == s.len(),
        forall|i: int| 0 <= i < s.len() ==> #[trigger] sort_by_location(s).contains(s[i]),
        forall|i: int| 0 <= i < s.len() ==> s.contains(#[trigger] sort_by_location(s)[i]),
    decreases s.len(),
{
    if s.len() > 0 {
        let t = sort_by_location(s.drop_last());
        lemma_sort_len(s.drop_last());
        lemma_insertion_point_bounds(t, s.last(), 0);
        let p = insertion_point_from(t, s.last(), 0);
        let r = insert_stable(t, s.last());
        assert forall|i: int| 0 <= i < s.len() implies #[trigger] r.contains(s[i]) by {
            if i == s.len() - 1 {
                assert(r[p] == s.last());
            } else {
                assert(s.drop_last()[i] == s[i]);
                assert(t.contains(s[i]));
                let k = choose|k: int| 0 <= k < t.len() && t[k] == s[i];
                if k < p {
                    assert(r[k] == t[k]);
                } else {
                    assert(r[k + 1] == t[k]);
                }
            }
        }
        assert forall|i: int| 0 <= i < s.len() implies s.contains(#[trigger] r[i]) by {
            if i < p {
                assert(t.contains(r[i]) && r[i] == t[i]);
                let k = choose|k: int| 0 <= k < s.drop_last().len() && s.drop_last()[k] == t[i];
                assert(s[k] == r[i]);
            } else if i == p {
                assert(s[s.len() - 1] == r[i]);
            } else {
                assert(r[i] == t[i - 1]);
                assert(s.drop_last().contains(t[i - 1]));
                let k = choose|k: int| 0 <= k < s.drop_last().len() && s.drop_last()[k] == t[i - 1];
                assert(s[k] == r[i]);
            }
        }
    }
}

/// The decorations are in location order.
pub open spec fn sorted_by_location(s: Seq<(u32, Seq<u32>)>) -> bool {
    forall|i: int, j: int| 0 <= i < j < s.len() ==> location_of(#[trigger] s[i]) <= location_of(#[trigger] s[j])
}

/// Everything before the insertion point is placed no later than `x`, and
/// the entry at the insertion point, if any, after it.
proof fn lemma_insertion_point_split(t: Seq<(u32, Seq<u32>)>, x: (u32, Seq<u32>), j: int)
    requires
        0 <= j <= t.len(),
    ensures
        forall|k: int| j <= k < insertion_point_from(t, x, j) ==> location_of(#[trigger] t[k]) <= location_of(x),
        insertion_point_from(t, x, j) < t.len() ==> location_of(t[insertion_point_from(t, x, j)]) > location_of(x),
    decreases t.len() - j,
{
    if j < t.len() && location_of(t[j]) <= location_of(x) {
        lemma_insertion_point_split(t, x, j + 1);
    }
}

/// Inserting into a sequence in location order keeps it in location order.
proof fn lemma_insert_stable_sorted(t: Seq<(u32, Seq<u32>)>, x: (u32, Seq<u32>))
    requires
        sorted_by_location(t),
    ensures
        sorted_by_location(insert_stable(t, x)),
{
    let p = insertion_point_from(t, x, 0);
    lemma_insertion_point_bounds(t, x, 0);
    lemma_insertion_point_split(t, x, 0);
    let r = insert_stable(t, x);
    assert(r.len() == t.len() + 1);
    assert forall|i: int| 0 <= i < r.len() implies #[trigger] r[i] == (if i < p {
        t[i]
    } else if i == p {
        x
    } else {
        t[i - 1]
    }) by {}
    assert forall|i: int, j: int| 0 <= i < j < r.len() implies location_of(#[trigger] r[i])
        <= location_of(#[trigger] r[j]) by {
        if j < p {
            assert(r[i] == t[i] && r[j] == t[j]);
        } else if j == p {
            assert(r[i] == t[i]);
        } else if i < p {
            assert(r[i] == t[i] && r[j] == t[j - 1]);
            assert(location_of(t[i]) <= location_of(x));
            assert(location_of(t[p]) > location_of(x));
            if j - 1 > p {
                assert(location_of(t[p]) <= location_of(t[j - 1]));
            }
        } else if i == p {
            assert(r[j] == t[j - 1]);
            assert(location_of(t[p]) > location_of(x));
            if j - 1 > p {
                assert(location_of(t[p]) <= location_of(t[j - 1]));
            }
        } else {
            assert(r[i] == t[i - 1] && r[j] == t[j - 1]);
        }
    }
}

/// Sorting by location puts the decorations in location order.
pub proof fn lemma_sort_by_location_sorted(s: Seq<(u32, Seq<u32>)>)
    ensures
        sorted_by_location(sort_by_location(s)),
    decreases s.len(),
{
    if s.len() > 0 {
        lemma_sort_by_location_sorted(s.drop_last());
        lemma_insert_stable_sorted(sort_by_location(s.drop_last()), s.last());
    }
}

/// The input attributes that `input_descriptions` reports come in location
/// order, and they are exactly the located input variables of the entry point.
pub proof fn lemma_input_locations_sorted(insts: Seq<Instruction>)
    requires
        entry_interface_from(insts, 0) is Some,
    ensures
        sorted_by_location(input_locations(insts)),
        ({
            let locs = location_decorations(
                insts,
                input_variable_ids(insts, entry_interface_from(insts, 0).unwrap()),
            );
            &&& input_locations(insts).len() == locs.len()
            &&& forall|i: int| 0 <= i < locs.len() ==> #[trigger] input_locations(insts).contains(locs[i])
            &&& forall|i: int| 0 <= i < locs.len() ==> locs.contains(#[trigger] input_locations(insts)[i])
        }),
{
    let locs = location_decorations(insts, input_variable_ids(insts, entry_interface_from(insts, 0).unwrap()));
    lemma_sort_by_location_sorted(locs);
    lemma_sort_len(locs);
}

proof fn lemma_insertion_point_bounds(t: Seq<(u32, Seq<u32>)>, x: (u32, Seq<u32>), j: int)
    requires
        0 <= j <= t.len(),
    ensures
        j <= insertion_point_from(t, x, j) <= t.len(),
    decreases t.len() - j,
{
    if j < t.len() && location_of(t[j]) <= location_of(x) {
        lemma_insertion_point_bounds(t, x, j + 1);
    }
}

impl ShaderModule {
    /// The component counts of the shader's input attributes, in location
    /// order: for each input variable of the entry point's interface that has
    /// a `Location` decoration, the component count of the vector type it
    /// points to.
    pub fn input_descriptions(&self) -> (r: Vec<usize>)
        requires
            input_layout_ok(self.instructions@),
        ensures
            r@ == input_sizes(self.instructions@),
    {
        let insts = &self.instructions;
        let ghost s = insts@;
        let n = insts.len();
        // The interface of the first entry point.
        let mut e: usize = 0;
        while e < n && !matches!(insts[e], Instruction::OpEntryPoint { .. })
            invariant
                n == s.len(),
                s == insts@,
                0 <= e <= n,
                entry_interface_from(s, 0) == entry_interface_from(s, e as int),
            decreases n - e,
        {
            e += 1;
        }
        if e >= n {
            assert(false);
        }
        let interface = match &insts[e] {
            Instruction::OpEntryPoint { interface, .. } => interface,
            _ => vstd::pervasive::unreached(),
        };
        let ghost iface = interface@;
        assert(entry_interface_from(s, 0) == Some(iface));
        // The input variables of the interface.
        let mut ids: Vec<u32> = Vec::new();
        let mut i: usize = 0;
        while i < n
            invariant
                n == s.len(),
                s == insts@,
                0 <= i <= n,
                iface == interface@,
                ids@ == input_variable_ids(s.subrange(0, i as int), iface),
            decreases n - i,
        {
            assert(s.subrange(0, i + 1).drop_last() =~= s.subrange(0, i as int));
            match &insts[i] {
                Instruction::OpVariable { result, storage_class, .. } => {
                    if contains_u32(interface, *result) && *storage_class == StorageClass::Input {
                        ids.push(*result);
                    }
                },
                _ => {},
            }
            i += 1;
        }
        assert(s.subrange(0, n as int) =~= s);
        // Their location decorations, in module order.
        let mut locs: Vec<(u32, &Vec<u32>)> = Vec::new();
        let ghost mut locs_view: Seq<(u32, Seq<u32>)> = Seq::empty();
        let mut i: usize = 0;
        while i < n
            invariant
                n == s.len(),
                s == insts@,
                0 <= i <= n,
                locs_view == location_decorations(s.subrange(0, i as int), ids@),
                locs@.len() == locs_view.len(),
                forall|j: int| 0 <= j < locs_view.len() ==> (#[trigger] locs@[j]).0 == locs_view[j].0
                    && locs@[j].1@ == locs_view[j].1,
            decreases n - i,
        {
            assert(s.subrange(0, i + 1).drop_last() =~= s.subrange(0, i as int));
            match &insts[i] {
                Instruction::OpDecorate { target, decoration, extra, .. } => {
                    if *decoration == Decoration::Location && contains_u32(&ids, *target) {
                        locs.push((*target, extra));
                        proof {
                            locs_view = locs_view.push((*target, extra@));
                        }
                    }
                },
                _ => {},
            }
            i += 1;
        }
        assert(s.subrange(0, n as int) =~= s);
        let ghost all_locs = locs_view;
        // Stable insertion sort by location.
        let mut sorted: Vec<(u32, &Vec<u32>)> = Vec::new();
        let ghost mut sorted_view: Seq<(u32, Seq<u32>)> = Seq::empty();
        let m = locs.len();
        let mut i: usize = 0;
        while i < m
            invariant
                m == locs@.len(),
                m == all_locs.len(),
                0 <= i <= m,
                forall|j: int| 0 <= j < m ==> (#[trigger] locs@[j]).0 == all_locs[j].0
                    && locs@[j].1@ == all_locs[j].1,
                m >= 2 ==> forall|j: int| 0 <= j < m ==> (#[trigger] all_locs[j]).1.len() >= 1,
                sorted_view == sort_by_location(all_locs.subrange(0, i as int)),
                sorted@.len() == sorted_view.len(),
                forall|j: int| 0 <= j < sorted_view.len() ==> (#[trigger] sorted@[j]).0 == sorted_view[j].0
                    && sorted@[j].1@ == sorted_view[j].1,
            decreases m - i,
        {
            let x = locs[i];
            let ghost xv = all_locs[i as int];
            proof {
                lemma_sort_len(all_locs.subrange(0, i as int));
                assert forall|j: int| 0 <= j < sorted_view.len() implies #[trigger] sorted_view[j].1.len() >= 1 by {
                    assert(all_locs.subrange(0, i as int).contains(sorted_view[j]));
                }
            }
            let mut p: usize = 0;
            while p < sorted.len() && sorted[p].1[0] <= x.1[0]
                invariant
                    0 <= p <= sorted@.len(),
                    sorted@.len() == sorted_view.len(),
                    forall|j: int| 0 <= j < sorted_view.len() ==> (#[trigger] sorted@[j]).0 == sorted_view[j].0
                        && sorted@[j].1@ == sorted_view[j].1,
                    forall|j: int| 0 <= j < sorted_view.len() ==> (#[trigger] sorted_view[j]).1.len() >= 1,
                    sorted_view.len() >= 1 ==> xv.1.len() >= 1,
                    x.1@ == xv.1,
                    insertion_point_from(sorted_view, xv, 0) == insertion_point_from(sorted_view, xv, p as int),
                decreases sorted@.len() - p,
            {
                p += 1;
            }
            sorted.insert(p, x);
            proof {
                assert(insertion_point_from(sorted_view, xv, p as int) == p);
                let old_view = sorted_view;
                sorted_view = insert_stable(sorted_view, xv);
                assert(all_locs.subrange(0, i + 1).drop_last() =~= all_locs.subrange(0, i as int));
                assert(sorted_view.len() == old_view.len() + 1);
                assert forall|j: int| 0 <= j < sorted_view.len() implies (#[trigger] sorted@[j]).0 == sorted_view[j].0
                    && sorted@[j].1@ == sorted_view[j].1 by {
                    if j < p {
                        assert(sorted_view[j] == old_view[j]);
                    } else if j == p {
                    } else {
                        assert(sorted_view[j] == old_view[j - 1]);
                    }
                }
            }
            i += 1;
        }
        assert(all_locs.subrange(0, m as int) =~= all_locs);
        assert(sorted_view == input_locations(s));
        // The component count of each located input, in location order.
        let mut attributes: Vec<usize> = Vec::new();
        let k = sorted.len();
        proof {
            lemma_sort_len(all_locs);
        }
        let mut t: usize = 0;
        while t < k
            invariant
                n == s.len(),
                s == insts@,
                k == sorted@.len(),
                k == sorted_view.len(),
                sorted_view == input_locations(s),
                forall|j: int| 0 <= j < sorted_view.len() ==> (#[trigger] sorted@[j]).0 == sorted_view[j].0,
                forall|j: int| 0 <= j < k ==> all_locs.contains(#[trigger] sorted_view[j]),
                forall|j: int| 0 <= j < all_locs.len() ==> attribute_size(s, (#[trigger] all_locs[j]).0) is Some,
                0 <= t <= k,
                attributes@ == Seq::new(t as nat, |j: int| attribute_size(s, sorted_view[j].0).unwrap() as usize),
            decreases k - t,
        {
            let target = sorted[t].0;
            proof {
                let q = choose|q: int| 0 <= q < all_locs.len() && all_locs[q] == sorted_view[t as int];
                assert(attribute_size(s, all_locs[q].0) is Some);
            }
            let vt = find_variable_type(insts, target);
            let pt = find_pointee(insts, vt);
            let cc = find_components(insts, pt);
            attributes.push(cc as usize);
            t += 1;
            assert(attributes@ =~= Seq::new(t as nat, |j: int| attribute_size(s, sorted_view[j].0).unwrap() as usize));
        }
        attributes
    }
}

fn find_variable_type(insts: &Vec<Instruction>, id: u32) -> (r: u32)
    requires
        variable_type_from(insts@, id, 0) is Some,
    ensures
        variable_type_from(insts@, id, 0) == Some(r),
{
    let mut i: usize = 0;
    while i < insts.len()
        invariant
            0 <= i <= insts@.len(),
            variable_type_from(insts@, id, 0) == variable_type_from(insts@, id, i as int),
        decreases insts@.len() - i,
    {
        match &insts[i] {
            Instruction::OpVariable { result, result_type, .. } => {
                if *result == id {
                    return *result_type;
                }
            },
            _ => {},
        }
        i += 1;
    }
    vstd::pervasive::unreached()
}

fn find_pointee(insts: &Vec<Instruction>, id: u32) -> (r: u32)
    requires
        pointee_from(insts@, id, 0) is Some,
    ensures
        pointee_from(insts@, id, 0) == Some(r),
{
    let mut i: usize = 0;
    while i < insts.len()
        invariant
            0 <= i <= insts@.len(),
            pointee_from(insts@, id, 0) == pointee_from(insts@, id, i as int),
        decreases insts@.len() - i,
    {
        match &insts[i] {
            Instruction::OpTypePointer { result, ttype, .. } => {
                if *result == id {
                    return *ttype;
                }
            },
            _ => {},
        }
        i += 1;
    }
    vstd::pervasive::unreached()
}

fn find_components(insts: &Vec<Instruction>, id: u32) -> (r: u32)
    requires
        components_from(insts@, id, 0) is Some,
    ensures
        components_from(insts@, id, 0) == Some(r),
{
    let mut i: usize = 0;
    while i < insts.len()
        invariant
            0 <= i <= insts@.len(),
            components_from(insts@, id, 0) == components_from(insts@, id, i as int),
        decreases insts@.len() - i,
    {
        match &insts[i] {
            Instruction::OpTypeVector { result, component_count, .. } => {
                if *result == id {
                    return *component_count;
                }
            },
            _ => {},
        }
        i += 1;
    }
    vstd::pervasive::unreached()
}

} // verus!