//! The animated triangle drawable. It owns a three-vertex buffer and
//! accumulates the elapsed time handed to [`Triangle::update`]; each update
//! performs the demo's read-modify-write animation step: vertex 0's X
//! coordinate is replaced by a new oscillation sample while every other
//! coordinate keeps its value.
//!
//! The oscillation sample itself is the cosine of the total elapsed
//! nanoseconds, a single-precision computation the caller performs (this
//! library holds no floating point); the contracts here pin down everything
//! else: how elapsed time accumulates, that only vertex 0's X coordinate
//! moves, and that the vertex state after a run of updates depends on the
//! total elapsed time alone.

use vstd::prelude::*;

use crate::frame::DrawCall;
use crate::frame::DrawCallModel;
use crate::frame::Frame;
use crate::frame::FrameModel;
use crate::frame::UniformSet;
use crate::frame::VertexSource;
use crate::frame::VertexSourceModel;
use crate::params::DrawParams;
use crate::params::default_params;
use crate::vertex::Vertex;
use crate::vertex::clone_vertices;
use crate::vertex::make_triangle_vertices;
use crate::vertex::triangle_vertices;

verus! {

/// The animated triangle: its three vertices and the total animation time it
/// has been advanced by, in nanoseconds.
#[derive(Clone, Debug, PartialEq, Eq)]
pub struct Triangle {
    pub vertices: Vec<Vertex>,
    pub elapsed_ns: u128,
}

/// The mathematical value of a [`Triangle`].
pub struct TriangleModel {
    pub vertices: Seq<Vertex>,
    pub elapsed_ns: int,
}

impl View for Triangle {
    type V = TriangleModel;

    open spec fn view(&self) -> TriangleModel {
        TriangleModel { vertices: self.vertices@, elapsed_ns: self.elapsed_ns as int }
    }
}

impl TriangleModel {
    /// A triangle is well formed when it has exactly three vertices and a
    /// non-negative elapsed time.
    pub open spec fn wf(self) -> bool {
        &&& self.vertices.len() == 3
        &&& self.elapsed_ns >= 0
    }
}

/// One animation step: the elapsed time grows by `delta_ns` and vertex 0's X
/// coordinate becomes the caller's oscillation sample `x_bits`; every other
/// coordinate is read back and written out unchanged.
pub open spec fn step_update(t: TriangleModel, delta_ns: u128, x_bits: u32) -> TriangleModel {
    TriangleModel {
        vertices: t.vertices.update(0, Vertex { x: x_bits, y: t.vertices[0].y }),
        elapsed_ns: t.elapsed_ns + delta_ns,
    }
}

/// The draw call the triangle issues: its vertex buffer as a triangle list,
/// no index buffer, no uniforms, and the given rasterizer parameters.
pub open spec fn triangle_call(t: TriangleModel, params: DrawParams) -> DrawCallModel {
    DrawCallModel {
        source: VertexSourceModel::Buffer { vertices: t.vertices },
        indices: None,
        uniforms: UniformSet::Empty,
        params,
    }
}

/// The frame after the triangle custom-renders into `f` with `params`.
pub open spec fn triangle_after_custom_render(
    t: TriangleModel,
    params: DrawParams,
    f: FrameModel,
) -> FrameModel {
    FrameModel { clear: f.clear, calls: f.calls.push(triangle_call(t, params)) }
}

/// The frame after the triangle renders into `f` with default parameters.
pub open spec fn triangle_after_render(t: TriangleModel, f: FrameModel) -> FrameModel {
    triangle_after_custom_render(t, default_params(), f)
}

impl Triangle {
    /// Whether the triangle is well formed.
    pub open spec fn wf(&self) -> bool {
        self@.wf()
    }

    /// A fresh triangle: the demo's initial three-vertex shape, no elapsed
    /// time.
    pub fn new() -> (t: Triangle)
        ensures
            t.wf(),
            t@.vertices == triangle_vertices(),
            t@.elapsed_ns == 0,
    {
        Triangle { vertices: make_triangle_vertices(), elapsed_ns: 0 }
    }

    /// Advances the animation by `delta_ns` nanoseconds. `x_bits` is the new
    /// oscillation sample for vertex 0's X coordinate: the bit pattern of the
    /// cosine, in single precision, of the total elapsed nanoseconds after
    /// this update. The current vertex data is read back first, so every
    /// other coordinate keeps its value.
    pub fn update(&mut self, delta_ns: u128, x_bits: u32)
        requires
            old(self).wf(),
            old(self)@.elapsed_ns + delta_ns <= u128::MAX,
        ensures
            final(self).wf(),
            final(self)@ == step_update(old(self)@, delta_ns, x_bits),
    {
        let y0 = self.vertices[0].y;
        self.vertices.set(0, Vertex { x: x_bits, y: y0 });
        self.elapsed_ns = self.elapsed_ns + delta_ns;
    }

    /// Issues the triangle's draw call with the given rasterizer parameters.
    pub fn custom_render(&self, frame: &mut Frame, params: &DrawParams)
        ensures
            final(frame)@ == triangle_after_custom_render(self@, *params, old(frame)@),
    {
        frame.push_call(
            DrawCall {
                source: VertexSource::Buffer(clone_vertices(&self.vertices)),
                indices: None,
                uniforms: UniformSet::Empty,
                params: *params,
            },
        );
    }

    /// Renders with default draw parameters; defined as [`Self::custom_render`]
    /// with a default-constructed parameter set.
    pub fn render(&self, frame: &mut Frame)
        ensures
            final(frame)@ == triangle_after_render(self@, old(frame)@),
    {
        self.custom_render(frame, &DrawParams::default());
    }
}

/// The triangle state after a run of update steps, applied in order; each
/// step is a pair of the delta time and the oscillation sample passed.
pub open spec fn apply_updates(t: TriangleModel, steps: Seq<(u128, u32)>) -> TriangleModel
    decreases steps.len(),
{
    if steps.len() == 0 {
        t
    } else {
        apply_updates(step_update(t, steps[0].0, steps[0].1), steps.drop_first())
    }
}

/// The total of the delta times of a run of update steps.
pub open spec fn sum_deltas(steps: Seq<(u128, u32)>) -> int
    decreases steps.len(),
{
    if steps.len() == 0 {
        0
    } else {
        steps[0].0 + sum_deltas(steps.drop_first())
    }
}

/// Elapsed time accumulates: after any run of updates the triangle's elapsed
/// time is the initial elapsed time plus the total of the deltas.
pub proof fn lemma_elapsed_accumulates(t: TriangleModel, steps: Seq<(u128, u32)>)
    ensures
        apply_updates(t, steps).elapsed_ns == t.elapsed_ns + sum_deltas(steps),
    decreases steps.len(),
{
    if steps.len() > 0 {
        lemma_elapsed_accumulates(step_update(t, steps[0].0, steps[0].1), steps.drop_first());
    }
}

/// Vertex 1 and vertex 2 are invariant across any number of updates, and so
/// is vertex 0's Y coordinate: an update moves vertex 0's X coordinate only.
pub proof fn lemma_fixed_vertices(t: TriangleModel, steps: Seq<(u128, u32)>)
    requires
        t.vertices.len() == 3,
    ensures
        apply_updates(t, steps).vertices.len() == 3,
        apply_updates(t, steps).vertices[1] == t.vertices[1],
        apply_updates(t, steps).vertices[2] == t.vertices[2],
        apply_updates(t, steps).vertices[0].y == t.vertices[0].y,
    decreases steps.len(),
{
    if steps.len() > 0 {
        lemma_fixed_vertices(step_update(t, steps[0].0, steps[0].1), steps.drop_first());
    }
}

/// After a non-empty run of updates, vertex 0's X coordinate is the sample
/// passed at the last step.
pub proof fn lemma_last_sample_wins(t: TriangleModel, steps: Seq<(u128, u32)>)
    requires
        t.vertices.len() == 3,
        steps.len() > 0,
    ensures
        apply_updates(t, steps).vertices[0].x == steps.last().1,
    decreases steps.len(),
{
    if steps.len() == 1 {
        assert(steps.drop_first().len() == 0);
        assert(apply_updates(t, steps) == apply_updates(
            step_update(t, steps[0].0, steps[0].1),
            steps.drop_first(),
        ));
        assert(apply_updates(t, steps) == step_update(t, steps[0].0, steps[0].1));
        assert(steps.last() == steps[0]);
    } else {
        lemma_last_sample_wins(step_update(t, steps[0].0, steps[0].1), steps.drop_first());
        assert(steps.drop_first().last() == steps.last());
    }
}

/// The vertex state after a run of updates is a pure function of the total
/// elapsed time, independent of how the run is split into calls: two runs
/// whose samples follow one oscillation function `f` of the accumulated
/// elapsed time, and whose delta times total the same amount, leave the
/// triangle in the same state.
pub proof fn lemma_state_depends_on_total_elapsed(
    t: TriangleModel,
    s1: Seq<(u128, u32)>,
    s2: Seq<(u128, u32)>,
    f: spec_fn(int) -> u32,
)
    requires
        t.wf(),
        s1.len() > 0,
        s2.len() > 0,
        sum_deltas(s1) == sum_deltas(s2),
        forall|i: int|
            0 <= i < s1.len() ==> #[trigger] s1[i].1 == f(t.elapsed_ns + sum_deltas(s1.take(i + 1))),
        forall|i: int|
            0 <= i < s2.len() ==> #[trigger] s2[i].1 == f(t.elapsed_ns + sum_deltas(s2.take(i + 1))),
    ensures
        apply_updates(t, s1) == apply_updates(t, s2),
{
    lemma_elapsed_accumulates(t, s1);
    lemma_elapsed_accumulates(t, s2);
    lemma_fixed_vertices(t, s1);
    lemma_fixed_vertices(t, s2);
    lemma_last_sample_wins(t, s1);
    lemma_last_sample_wins(t, s2);
    assert(s1.take(s1.len() as int) =~= s1);
    assert(s2.take(s2.len() as int) =~= s2);
    assert(s1.last().1 == f(t.elapsed_ns + sum_deltas(s1)));
    assert(s2.last().1 == f(t.elapsed_ns + sum_deltas(s2)));
    assert(apply_updates(t, s1).vertices =~= apply_updates(t, s2).vertices);
}

/// Rendering with default parameters issues the same draw call as
/// custom-rendering with a default-constructed parameter set.
pub proof fn lemma_render_is_default_custom_render(t: TriangleModel, f: FrameModel)
    ensures
        triangle_after_render(t, f) == triangle_after_custom_render(t, default_params(), f),
{
}

} // verus!
