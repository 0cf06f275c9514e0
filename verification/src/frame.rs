//! The frame and draw-call model. A [`Frame`] stands for one back buffer
//! being prepared: the clear color it was given and the ordered draw calls
//! issued against it. A [`DrawCall`] describes one draw completely — vertex
//! source, optional index buffer, uniform bindings and rasterizer parameters —
//! as plain data. The unverified front end replays a finished frame against
//! the real graphics backend and presents it.

use vstd::prelude::*;

use crate::params::DrawParams;
use crate::vertex::Vertex;

verus! {

/// A clear color; each field holds the IEEE 754 bit pattern of one
/// single-precision channel (red, green, blue, alpha).
#[derive(Clone, Copy, Debug, PartialEq, Eq, Structural)]
pub struct Color {
    pub r: u32,
    pub g: u32,
    pub b: u32,
    pub a: u32,
}

/// Where a draw call takes its vertices from: an explicit vertex buffer, or a
/// synthetic vertex count with no buffer bound (the vertex shader derives each
/// position from the vertex index alone).
#[derive(Clone, Debug, PartialEq, Eq)]
pub enum VertexSource {
    Buffer(Vec<Vertex>),
    Synthetic { count: u32 },
}

/// The uniform bindings of a draw call: none, or the drawable's texture bound
/// to the sampler the fragment shader declares.
#[derive(Clone, Copy, Debug, PartialEq, Eq, Structural)]
pub enum UniformSet {
    Empty,
    ImageSampler,
}

/// One draw call, described as plain data. Every draw in this library is a
/// triangle list.
#[derive(Clone, Debug, PartialEq, Eq)]
pub struct DrawCall {
    pub source: VertexSource,
    pub indices: Option<Vec<u32>>,
    pub uniforms: UniformSet,
    pub params: DrawParams,
}

/// One back buffer being prepared: its clear color, if any was set, and the
/// draw calls issued so far, in order.
#[derive(Clone, Debug, PartialEq, Eq)]
pub struct Frame {
    pub clear: Option<Color>,
    pub calls: Vec<DrawCall>,
}

/// The mathematical value of a [`VertexSource`].
pub enum VertexSourceModel {
    Buffer { vertices: Seq<Vertex> },
    Synthetic { count: u32 },
}

/// The mathematical value of a [`DrawCall`].
pub struct DrawCallModel {
    pub source: VertexSourceModel,
    pub indices: Option<Seq<u32>>,
    pub uniforms: UniformSet,
    pub params: DrawParams,
}

/// The mathematical value of a [`Frame`].
pub struct FrameModel {
    pub clear: Option<Color>,
    pub calls: Seq<DrawCallModel>,
}

impl View for VertexSource {
    type V = VertexSourceModel;

    open spec fn view(&self) -> VertexSourceModel {
        match *self {
            VertexSource::Buffer(ref v) => VertexSourceModel::Buffer { vertices: v@ },
            VertexSource::Synthetic { count } => VertexSourceModel::Synthetic { count },
        }
    }
}

impl View for DrawCall {
    type V = DrawCallModel;

    open spec fn view(&self) -> DrawCallModel {
        DrawCallModel {
            source: self.source@,
            indices: match self.indices {
                Some(ref v) => Some(v@),
                None => None,
            },
            uniforms: self.uniforms,
            params: self.params,
        }
    }
}

impl View for Frame {
    type V = FrameModel;

    open spec fn view(&self) -> FrameModel {
        FrameModel { clear: self.clear, calls: self.calls@.map_values(|c: DrawCall| c@) }
    }
}

impl Frame {
    /// A fresh frame: nothing cleared, nothing drawn.
    pub fn new() -> (f: Frame)
        ensures
            f@.clear is None,
            f@.calls == Seq::<DrawCallModel>::empty(),
    {
        let f = Frame { clear: None, calls: Vec::new() };
        proof {
            assert(f@.calls =~= Seq::<DrawCallModel>::empty());
        }
        f
    }

    /// Sets the frame's clear color, leaving the issued draw calls as they
    /// were.
    pub fn clear_color(&mut self, c: Color)
        ensures
            final(self)@.clear == Some(c),
            final(self)@.calls == old(self)@.calls,
    {
        self.clear = Some(c);
    }

    /// Appends one draw call to the frame.
    pub fn push_call(&mut self, call: DrawCall)
        ensures
            final(self)@.clear == old(self)@.clear,
            final(self)@.calls == old(self)@.calls.push(call@),
    {
        let ghost c = call@;
        self.calls.push(call);
        proof {
            assert(self@.calls =~= old(self)@.calls.push(c));
        }
    }
}

} // verus!
