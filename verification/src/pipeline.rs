//! The one render pipeline: what its stages read and how it turns triangles
//! into pixels.
//!
//! Everything here is fixed but the pixel format of the colour target, which
//! is the format of the surface that is drawn to.

use crate::geometry::{POSITION_COMPONENTS, POSITION_STRIDE};
use crate::shader::ENTRY_POINT;
use vstd::prelude::*;

verus! {

/// Makes `wgpu::TextureFormat` known: the pixel format of a surface or a
/// texture. Nothing is said of its values. The pipeline does not look inside
/// one: it draws to a target of whatever format it is given.
#[verifier::external_type_specification]
#[verifier::external_body]
pub struct ExTextureFormat(wgpu::TextureFormat);

/// How consecutive vertices are assembled into primitives.
#[derive(Debug, Clone, Copy, PartialEq, Eq, Structural)]
pub enum Topology {
    PointList,
    LineList,
    LineStrip,
    TriangleList,
    TriangleStrip,
}

/// The winding that marks the front of a triangle.
#[derive(Debug, Clone, Copy, PartialEq, Eq, Structural)]
pub enum FrontFace {
    /// Counter-clockwise.
    Ccw,
    /// Clockwise.
    Cw,
}

/// One side of a triangle.
#[derive(Debug, Clone, Copy, PartialEq, Eq, Structural)]
pub enum Face {
    Front,
    Back,
}

/// How the inside of a triangle is rasterised.
#[derive(Debug, Clone, Copy, PartialEq, Eq, Structural)]
pub enum PolygonMode {
    Fill,
    Line,
    Point,
}

/// The width of an index in an index buffer.
#[derive(Debug, Clone, Copy, PartialEq, Eq, Structural)]
pub enum IndexFormat {
    Uint16,
    Uint32,
}

/// How often the vertex stage moves on to the next element of a buffer.
#[derive(Debug, Clone, Copy, PartialEq, Eq, Structural)]
pub enum StepMode {
    /// Once per vertex.
    Vertex,
    /// Once per instance.
    Instance,
}

/// The shape of one vertex attribute in memory.
#[derive(Debug, Clone, Copy, PartialEq, Eq, Structural)]
pub enum VertexFormat {
    Float32,
    Float32x2,
    Float32x3,
    Float32x4,
}

impl VertexFormat {
    /// How many single-precision numbers the attribute holds.
    pub open spec fn components(self) -> nat {
        match self {
            VertexFormat::Float32 => 1,
            VertexFormat::Float32x2 => 2,
            VertexFormat::Float32x3 => 3,
            VertexFormat::Float32x4 => 4,
        }
    }

    /// Bytes that the attribute occupies: four per component.
    pub fn size(self) -> (bytes: u64)
        ensures
            bytes == 4 * self.components(),
    {
        match self {
            VertexFormat::Float32 => 4,
            VertexFormat::Float32x2 => 8,
            VertexFormat::Float32x3 => 12,
            VertexFormat::Float32x4 => 16,
        }
    }
}

/// How a fragment's colour is combined with what the target already holds.
#[derive(Debug, Clone, Copy, PartialEq, Eq, Structural)]
pub enum BlendMode {
    /// The fragment's colour takes the place of the old one.
    Replace,
    /// Blending by the fragment's alpha.
    AlphaBlending,
    /// Blending by alpha that the colour has already been multiplied with.
    PremultipliedAlphaBlending,
}

/// The channels of the target that a draw may write.
#[derive(Debug, Clone, Copy, PartialEq, Eq, Structural)]
pub struct ColorWrites {
    pub red: bool,
    pub green: bool,
    pub blue: bool,
    pub alpha: bool,
}

/// One input of the vertex stage.
#[derive(Debug, Clone, Copy, PartialEq, Eq, Structural)]
pub struct VertexAttribute {
    pub format: VertexFormat,
    /// Bytes from the start of a vertex to the attribute.
    pub offset: u64,
    /// The input of the shader that receives the attribute.
    pub shader_location: u32,
}

/// The layout of the one vertex buffer, which holds one attribute.
#[derive(Debug, Clone, Copy, PartialEq, Eq, Structural)]
pub struct VertexLayout {
    /// Bytes from one vertex to the next.
    pub array_stride: u64,
    pub step_mode: StepMode,
    pub attribute: VertexAttribute,
}

impl VertexLayout {
    /// The attribute lies within one vertex.
    pub open spec fn wf(self) -> bool {
        self.attribute.offset + 4 * self.attribute.format.components() <= self.array_stride
    }
}

/// What the shaders may bind. This pipeline's shaders read nothing but the
/// vertex position, so both lists are empty.
#[derive(Debug, Clone, Copy, PartialEq, Eq, Structural)]
pub struct PipelineLayout {
    /// Number of bind group layouts.
    pub bind_group_layouts: u32,
    /// Number of push constant ranges.
    pub push_constant_ranges: u32,
}

/// Assembly and rasterisation of primitives.
#[derive(Debug, Clone, Copy, PartialEq, Eq, Structural)]
pub struct PrimitiveState {
    pub topology: Topology,
    /// The index width of strips; `None` for lists.
    pub strip_index_format: Option<IndexFormat>,
    pub front_face: FrontFace,
    /// The side of a triangle that is not drawn, if any.
    pub cull_mode: Option<Face>,
    pub unclipped_depth: bool,
    pub polygon_mode: PolygonMode,
    pub conservative: bool,
}

/// Multisampling.
#[derive(Debug, Clone, Copy, PartialEq, Eq, Structural)]
pub struct MultisampleState {
    /// Samples per pixel.
    pub count: u32,
    /// One bit per sample that may be written.
    pub mask: u64,
    pub alpha_to_coverage_enabled: bool,
}

/// The colour target of the fragment stage.
#[derive(Debug, Clone, Copy, PartialEq, Eq)]
pub struct ColorTarget {
    pub format: wgpu::TextureFormat,
    pub blend: BlendMode,
    pub write_mask: ColorWrites,
}

/// The whole state of the render pipeline.
#[derive(Debug, Clone, Copy, PartialEq, Eq)]
pub struct PipelineState {
    pub layout: PipelineLayout,
    /// The function of the vertex module at which the vertex stage starts.
    pub vertex_entry_point: &'static str,
    pub vertex_buffer: VertexLayout,
    pub primitive: PrimitiveState,
    /// Whether a depth and stencil test takes part.
    pub depth_stencil: bool,
    pub multisample: MultisampleState,
    /// The function of the fragment module at which the fragment stage
    /// starts.
    pub fragment_entry_point: &'static str,
    pub target: ColorTarget,
}

/// The layout of a buffer of positions: three single-precision coordinates
/// per vertex and nothing between them, handed to input 0 of the shader.
pub open spec fn position_layout() -> VertexLayout {
    VertexLayout {
        array_stride: POSITION_STRIDE,
        step_mode: StepMode::Vertex,
        attribute: VertexAttribute {
            format: VertexFormat::Float32x3,
            offset: 0,
            shader_location: 0,
        },
    }
}

/// How every triangle is treated: a list of filled triangles, front faces
/// counter-clockwise, back faces left out.
pub open spec fn fixed_primitive() -> PrimitiveState {
    PrimitiveState {
        topology: Topology::TriangleList,
        strip_index_format: None,
        front_face: FrontFace::Ccw,
        cull_mode: Some(Face::Back),
        unclipped_depth: false,
        polygon_mode: PolygonMode::Fill,
        conservative: false,
    }
}

/// The state of the pipeline that draws to a target of the given format.
pub open spec fn fixed_pipeline(format: wgpu::TextureFormat) -> PipelineState {
    PipelineState {
        layout: PipelineLayout { bind_group_layouts: 0, push_constant_ranges: 0 },
        vertex_entry_point: ENTRY_POINT,
        vertex_buffer: position_layout(),
        primitive: fixed_primitive(),
        depth_stencil: false,
        multisample: MultisampleState {
            count: 1,
            mask: u64::MAX,
            alpha_to_coverage_enabled: false,
        },
        fragment_entry_point: ENTRY_POINT,
        target: ColorTarget {
            format,
            blend: BlendMode::Replace,
            write_mask: ColorWrites { red: true, green: true, blue: true, alpha: true },
        },
    }
}

impl PipelineState {
    /// Builds the pipeline state for a target of the given format.
    pub fn fixed(format: wgpu::TextureFormat) -> (state: PipelineState)
        ensures
            state == fixed_pipeline(format),
            state.vertex_buffer.wf(),
            state.vertex_buffer.array_stride == 4 * POSITION_COMPONENTS,
    {
        let attribute = VertexAttribute {
            format: VertexFormat::Float32x3,
            offset: 0,
            shader_location: 0,
        };
        let vertex_buffer = VertexLayout {
            array_stride: attribute.format.size(),
            step_mode: StepMode::Vertex,
            attribute,
        };
        PipelineState {
            layout: PipelineLayout { bind_group_layouts: 0, push_constant_ranges: 0 },
            vertex_entry_point: ENTRY_POINT,
            vertex_buffer,
            primitive: PrimitiveState {
                topology: Topology::TriangleList,
                strip_index_format: None,
                front_face: FrontFace::Ccw,
                cull_mode: Some(Face::Back),
                unclipped_depth: false,
                polygon_mode: PolygonMode::Fill,
                conservative: false,
            },
            depth_stencil: false,
            multisample: MultisampleState {
                count: 1,
                mask: 0xFFFF_FFFF_FFFF_FFFF,
                alpha_to_coverage_enabled: false,
            },
            fragment_entry_point: ENTRY_POINT,
            target: ColorTarget {
                format,
                blend: BlendMode::Replace,
                write_mask: ColorWrites { red: true, green: true, blue: true, alpha: true },
            },
        }
    }
}

} // verus!
