//! Vertex data and GPU vertex-buffer layouts.
//!
//! A tessellated mesh is a vertex list plus a triangle index list. Vertex
//! positions and texture coordinates are fixed-point integers inside the
//! verified core; on the GPU side each such scalar occupies a 32-bit float
//! slot, so the byte layout below speaks of float formats. The unverified
//! shell converts values when uploading.

use vstd::prelude::*;

use crate::color::Color;

verus! {

/// A vertex of a filled polygon or contour: a 3d position, a color, local
/// texture coordinates and one extra scalar (used for stroke widths).
#[derive(Clone, Copy, Debug, PartialEq, Eq, Structural)]
pub struct PolyVertex {
    pub x: i32,
    pub y: i32,
    pub z: i32,
    pub color: Color,
    pub u: i32,
    pub v: i32,
    pub extra: i32,
}

/// One point marker, drawn by GPU instancing rather than tessellation.
#[derive(Clone, Copy, Debug, PartialEq, Eq, Structural)]
pub struct PointInstance {
    pub x: i32,
    pub y: i32,
    pub z: i32,
    pub color: Color,
}

/// A triangle-list mesh: vertices and indices into them.
#[derive(Clone, Debug)]
pub struct PolyMesh {
    pub vertices: Vec<PolyVertex>,
    pub indices: Vec<u32>,
}

impl PolyMesh {
    /// Every index references a vertex of this mesh, and both lists fit the
    /// 32-bit counts GPU draw calls take.
    pub open spec fn wf(&self) -> bool {
        &&& forall|i: int|
            0 <= i < self.indices@.len() ==> (self.indices@[i] as int) < self.vertices@.len()
        &&& self.vertices@.len() <= u32::MAX
        &&& self.indices@.len() <= u32::MAX
    }

    /// An empty mesh.
    pub fn new() -> (m: PolyMesh)
        ensures
            m.vertices@.len() == 0,
            m.indices@.len() == 0,
            m.wf(),
    {
        PolyMesh { vertices: Vec::new(), indices: Vec::new() }
    }
}

/// The data format of one vertex attribute, as the GPU reads it.
#[derive(Clone, Copy, Debug, PartialEq, Eq, Structural)]
pub enum VertexFormat {
    Float32,
    Float32x2,
    Float32x3,
    Float32x4,
    Uint8x4,
}

impl VertexFormat {
    /// The size in bytes of one attribute of this format.
    pub open spec fn byte_size_spec(&self) -> int {
        match self {
            VertexFormat::Float32 => 4,
            VertexFormat::Float32x2 => 8,
            VertexFormat::Float32x3 => 12,
            VertexFormat::Float32x4 => 16,
            VertexFormat::Uint8x4 => 4,
        }
    }

    /// Returns the size in bytes of one attribute of this format.
    pub fn byte_size(&self) -> (n: u64)
        ensures
            n == self.byte_size_spec(),
    {
        match self {
            VertexFormat::Float32 => 4,
            VertexFormat::Float32x2 => 8,
            VertexFormat::Float32x3 => 12,
            VertexFormat::Float32x4 => 16,
            VertexFormat::Uint8x4 => 4,
        }
    }
}

/// Whether a buffer advances per vertex or per instance.
#[derive(Clone, Copy, Debug, PartialEq, Eq, Structural)]
pub enum VertexStepMode {
    Vertex,
    Instance,
}

/// One attribute of a vertex-buffer layout.
#[derive(Clone, Copy, Debug, PartialEq, Eq, Structural)]
pub struct VertexAttribute {
    pub offset: u64,
    pub shader_location: u32,
    pub format: VertexFormat,
}

/// The layout of one vertex buffer: stride, step mode and attributes.
#[derive(Clone, Debug)]
pub struct VertexLayout {
    pub array_stride: u64,
    pub step_mode: VertexStepMode,
    pub attributes: Vec<VertexAttribute>,
}

impl PolyVertex {
    /// The GPU-side layout of a polygon vertex: position as three floats,
    /// color as four bytes widened to four floats, local uv as two floats
    /// and the extra scalar as one float, packed without padding.
    pub fn wgpu_desc() -> (l: VertexLayout)
        ensures
            l.step_mode == VertexStepMode::Vertex,
            l.attributes@.len() == 4,
            l.attributes@[0] == (VertexAttribute {
                offset: 0u64,
                shader_location: 0u32,
                format: VertexFormat::Float32x3,
            }),
            l.attributes@[1] == (VertexAttribute {
                offset: 12u64,
                shader_location: 1u32,
                format: VertexFormat::Float32x4,
            }),
            l.attributes@[2] == (VertexAttribute {
                offset: 28u64,
                shader_location: 2u32,
                format: VertexFormat::Float32x2,
            }),
            l.attributes@[3] == (VertexAttribute {
                offset: 36u64,
                shader_location: 3u32,
                format: VertexFormat::Float32,
            }),
            l.attributes@[1].offset == l.attributes@[0].offset
                + l.attributes@[0].format.byte_size_spec(),
            l.attributes@[2].offset == l.attributes@[1].offset
                + l.attributes@[1].format.byte_size_spec(),
            l.attributes@[3].offset == l.attributes@[2].offset
                + l.attributes@[2].format.byte_size_spec(),
            l.array_stride == l.attributes@[3].offset + l.attributes@[3].format.byte_size_spec(),
    {
        let mut attributes: Vec<VertexAttribute> = Vec::new();
        attributes.push(
            VertexAttribute { offset: 0, shader_location: 0, format: VertexFormat::Float32x3 },
        );
        attributes.push(
            VertexAttribute { offset: 12, shader_location: 1, format: VertexFormat::Float32x4 },
        );
        attributes.push(
            VertexAttribute { offset: 28, shader_location: 2, format: VertexFormat::Float32x2 },
        );
        attributes.push(
            VertexAttribute { offset: 36, shader_location: 3, format: VertexFormat::Float32 },
        );
        VertexLayout { array_stride: 40, step_mode: VertexStepMode::Vertex, attributes }
    }
}

impl PointInstance {
    /// The GPU-side layout of a point instance: position as three floats and
    /// color as four bytes, packed without padding.
    pub fn wgpu_desc() -> (l: VertexLayout)
        ensures
            l.step_mode == VertexStepMode::Instance,
            l.attributes@.len() == 2,
            l.attributes@[0] == (VertexAttribute {
                offset: 0u64,
                shader_location: 0u32,
                format: VertexFormat::Float32x3,
            }),
            l.attributes@[1] == (VertexAttribute {
                offset: 12u64,
                shader_location: 1u32,
                format: VertexFormat::Uint8x4,
            }),
            l.attributes@[1].offset == l.attributes@[0].offset
                + l.attributes@[0].format.byte_size_spec(),
            l.array_stride == l.attributes@[1].offset + l.attributes@[1].format.byte_size_spec(),
    {
        let mut attributes: Vec<VertexAttribute> = Vec::new();
        attributes.push(
            VertexAttribute { offset: 0, shader_location: 0, format: VertexFormat::Float32x3 },
        );
        attributes.push(
            VertexAttribute { offset: 12, shader_location: 1, format: VertexFormat::Uint8x4 },
        );
        VertexLayout { array_stride: 16, step_mode: VertexStepMode::Instance, attributes }
    }
}

} // verus!
