//! The textured quad drawable. It owns a decoded texture image and one of two
//! geometries: an explicit four-vertex buffer with a six-index buffer forming
//! two triangles, or no vertex buffer at all — a synthetic count of six
//! vertices whose positions the vertex shader derives from the vertex index.
//! The quad is static: its update is a no-op. Its draw call binds the texture
//! to the fragment shader's sampler and applies the caller's draw parameters.

use vstd::prelude::*;

use crate::frame::DrawCall;
use crate::frame::DrawCallModel;
use crate::frame::Frame;
use crate::frame::FrameModel;
use crate::frame::UniformSet;
use crate::frame::VertexSource;
use crate::frame::VertexSourceModel;
use crate::image_load::DecodedImage;
use crate::image_load::DecodedImageModel;
use crate::params::DrawParams;
use crate::params::default_params;
use crate::vertex::Vertex;
use crate::vertex::clone_indices;
use crate::vertex::clone_vertices;
use crate::vertex::make_quad_indices;
use crate::vertex::make_quad_vertices;
use crate::vertex::quad_indices;
use crate::vertex::quad_vertices;

verus! {

/// The number of vertices the procedural variant asks the vertex shader to
/// synthesize: six, two triangles' worth of quad corners.
pub const PROCEDURAL_QUAD_VERTEX_COUNT: u32 = 6;

/// How the quad sources its geometry.
#[derive(Clone, Debug, PartialEq, Eq)]
pub enum QuadGeometry {
    /// An explicit vertex buffer and index buffer.
    Buffered { vertices: Vec<Vertex>, indices: Vec<u32> },
    /// No buffers: a fixed vertex count, positions derived in the shader.
    Procedural { vertex_count: u32 },
}

/// The textured quad: its geometry and its decoded texture image.
#[derive(Clone, Debug, PartialEq, Eq)]
pub struct Quad {
    pub geometry: QuadGeometry,
    pub texture: DecodedImage,
}

/// The mathematical value of a [`QuadGeometry`].
pub enum QuadGeometryModel {
    Buffered { vertices: Seq<Vertex>, indices: Seq<u32> },
    Procedural { vertex_count: u32 },
}

/// The mathematical value of a [`Quad`].
pub struct QuadModel {
    pub geometry: QuadGeometryModel,
    pub texture: DecodedImageModel,
}

impl View for QuadGeometry {
    type V = QuadGeometryModel;

    open spec fn view(&self) -> QuadGeometryModel {
        match *self {
            QuadGeometry::Buffered { ref vertices, ref indices } => QuadGeometryModel::Buffered {
                vertices: vertices@,
                indices: indices@,
            },
            QuadGeometry::Procedural { vertex_count } => QuadGeometryModel::Procedural {
                vertex_count,
            },
        }
    }
}

impl View for Quad {
    type V = QuadModel;

    open spec fn view(&self) -> QuadModel {
        QuadModel { geometry: self.geometry@, texture: self.texture@ }
    }
}

impl QuadModel {
    /// A quad is well formed when its texture is, and its geometry is either
    /// the demo's four-vertex, six-index buffered form or the procedural form
    /// with a synthetic count of six.
    pub open spec fn wf(self) -> bool {
        &&& self.texture.wf()
        &&& match self.geometry {
            QuadGeometryModel::Buffered { vertices, indices } => {
                &&& vertices == quad_vertices()
                &&& indices == quad_indices()
            },
            QuadGeometryModel::Procedural { vertex_count } => vertex_count
                == PROCEDURAL_QUAD_VERTEX_COUNT,
        }
    }
}

/// The draw call the quad issues: its geometry as a triangle list, the
/// texture bound to the fragment shader's sampler, and the given rasterizer
/// parameters. The buffered variant draws through its index buffer; the
/// procedural variant binds no buffers at all.
pub open spec fn quad_call(q: QuadModel, params: DrawParams) -> DrawCallModel {
    match q.geometry {
        QuadGeometryModel::Buffered { vertices, indices } => DrawCallModel {
            source: VertexSourceModel::Buffer { vertices },
            indices: Some(indices),
            uniforms: UniformSet::ImageSampler,
            params,
        },
        QuadGeometryModel::Procedural { vertex_count } => DrawCallModel {
            source: VertexSourceModel::Synthetic { count: vertex_count },
            indices: None,
            uniforms: UniformSet::ImageSampler,
            params,
        },
    }
}

/// The frame after the quad custom-renders into `f` with `params`.
pub open spec fn quad_after_custom_render(
    q: QuadModel,
    params: DrawParams,
    f: FrameModel,
) -> FrameModel {
    FrameModel { clear: f.clear, calls: f.calls.push(quad_call(q, params)) }
}

/// The frame after the quad renders into `f` with default parameters.
pub open spec fn quad_after_render(q: QuadModel, f: FrameModel) -> FrameModel {
    quad_after_custom_render(q, default_params(), f)
}

impl Quad {
    /// Whether the quad is well formed.
    pub open spec fn wf(&self) -> bool {
        self@.wf()
    }

    /// A quad over the given texture with an explicit vertex buffer and the
    /// two-triangle index buffer.
    pub fn new_buffered(texture: DecodedImage) -> (q: Quad)
        requires
            texture.wf(),
        ensures
            q.wf(),
            q@.geometry == (QuadGeometryModel::Buffered {
                vertices: quad_vertices(),
                indices: quad_indices(),
            }),
            q@.texture == texture@,
    {
        Quad {
            geometry: QuadGeometry::Buffered {
                vertices: make_quad_vertices(),
                indices: make_quad_indices(),
            },
            texture,
        }
    }

    /// A quad over the given texture with no vertex buffer: the vertex shader
    /// synthesizes six corner positions from the vertex index.
    pub fn new_procedural(texture: DecodedImage) -> (q: Quad)
        requires
            texture.wf(),
        ensures
            q.wf(),
            q@.geometry == (QuadGeometryModel::Procedural {
                vertex_count: PROCEDURAL_QUAD_VERTEX_COUNT,
            }),
            q@.texture == texture@,
    {
        Quad {
            geometry: QuadGeometry::Procedural { vertex_count: PROCEDURAL_QUAD_VERTEX_COUNT },
            texture,
        }
    }

    /// The quad is static: advancing its animation changes nothing.
    pub fn update(&mut self, _delta_ns: u128)
        ensures
            *final(self) == *old(self),
    {
    }

    /// Issues the quad's draw call with the given rasterizer parameters.
    pub fn custom_render(&self, frame: &mut Frame, params: &DrawParams)
        ensures
            final(frame)@ == quad_after_custom_render(self@, *params, old(frame)@),
    {
        let call = match &self.geometry {
            QuadGeometry::Buffered { vertices, indices } => DrawCall {
                source: VertexSource::Buffer(clone_vertices(vertices)),
                indices: Some(clone_indices(indices)),
                uniforms: UniformSet::ImageSampler,
                params: *params,
            },
            QuadGeometry::Procedural { vertex_count } => DrawCall {
                source: VertexSource::Synthetic { count: *vertex_count },
                indices: None,
                uniforms: UniformSet::ImageSampler,
                params: *params,
            },
        };
        frame.push_call(call);
    }

    /// Renders with default draw parameters; defined as [`Self::custom_render`]
    /// with a default-constructed parameter set.
    pub fn render(&self, frame: &mut Frame)
        ensures
            final(frame)@ == quad_after_render(self@, old(frame)@),
    {
        self.custom_render(frame, &DrawParams::default());
    }
}

/// Custom-rendering the procedural quad issues a draw call with exactly six
/// synthesized vertices, no bound index buffer, and the caller's draw
/// parameters.
pub proof fn lemma_procedural_quad_draw_call(q: QuadModel, params: DrawParams)
    requires
        q.wf(),
        q.geometry is Procedural,
    ensures
        quad_call(q, params).source == (VertexSourceModel::Synthetic { count: 6u32 }),
        quad_call(q, params).indices is None,
        quad_call(q, params).params == params,
{
}

/// Rendering with default parameters issues the same draw call as
/// custom-rendering with a default-constructed parameter set.
pub proof fn lemma_quad_render_is_default_custom_render(q: QuadModel, f: FrameModel)
    ensures
        quad_after_render(q, f) == quad_after_custom_render(q, default_params(), f),
{
}

} // verus!
