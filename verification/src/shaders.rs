//! The shader source text each drawable's program is compiled from. The
//! sources are the library's data: each function returns exactly the text its
//! specification names, so that the pairing of a drawable with its program is
//! part of the verified model. The invariant that a drawable's vertex layout
//! and its program stay compatible is carried by the names: every vertex
//! buffer's one attribute is [`vertex_attribute_name`], every buffered vertex
//! shader declares that attribute, and the quad's fragment shaders sample the
//! uniform named [`image_sampler_name`].

use vstd::prelude::*;

verus! {

/// The one vertex attribute of every vertex buffer in this library.
pub open spec fn vertex_attribute_name_spec() -> Seq<char> {
    "position"@
}

/// The name of the vertex attribute carrying each vertex's position.
pub fn vertex_attribute_name() -> (r: &'static str)
    ensures
        r@ == vertex_attribute_name_spec(),
{
    "position"
}

/// The name of the sampler uniform the quad's fragment shader reads.
pub open spec fn image_sampler_name_spec() -> Seq<char> {
    "image"@
}

/// The name under which the quad's texture is bound for its fragment shader.
pub fn image_sampler_name() -> (r: &'static str)
    ensures
        r@ == image_sampler_name_spec(),
{
    "image"
}

/// The triangle's vertex shader: position to clip space, unchanged.
pub open spec fn triangle_vertex_shader_spec() -> Seq<char> {
    r#"
    #version 140

    in vec2 position;

    void main() {
        gl_Position = vec4(position, 0.0, 1.0);
    }
"#@
}

/// Source text of the triangle's vertex shader.
pub fn triangle_vertex_shader() -> (r: &'static str)
    ensures
        r@ == triangle_vertex_shader_spec(),
{
    r#"
    #version 140

    in vec2 position;

    void main() {
        gl_Position = vec4(position, 0.0, 1.0);
    }
"#
}

/// The triangle's fragment shader: constant red output.
pub open spec fn triangle_fragment_shader_spec() -> Seq<char> {
    r#"
    #version 140

    out vec4 color;

    void main() {
        color = vec4(1.0, 0.0, 0.0, 1.0);
    }
"#@
}

/// Source text of the triangle's fragment shader.
pub fn triangle_fragment_shader() -> (r: &'static str)
    ensures
        r@ == triangle_fragment_shader_spec(),
{
    r#"
    #version 140

    out vec4 color;

    void main() {
        color = vec4(1.0, 0.0, 0.0, 1.0);
    }
"#
}

/// The buffered quad's vertex shader: position to clip space, and the
/// position interpolated out as the texture coordinates.
pub open spec fn quad_vertex_shader_spec() -> Seq<char> {
    r#"
    #version 430

    in vec2 position;

    smooth out vec2 coords;

    void main() {
        gl_Position = vec4(position, 0.0, 1.0);
        coords = position;
    }
"#@
}

/// Source text of the buffered quad's vertex shader.
pub fn quad_vertex_shader() -> (r: &'static str)
    ensures
        r@ == quad_vertex_shader_spec(),
{
    r#"
    #version 430

    in vec2 position;

    smooth out vec2 coords;

    void main() {
        gl_Position = vec4(position, 0.0, 1.0);
        coords = position;
    }
"#
}

/// The procedural quad's vertex shader: no vertex buffer is bound, so the
/// six corner positions are looked up by the built-in vertex index.
pub open spec fn procedural_quad_vertex_shader_spec() -> Seq<char> {
    r#"
    #version 430

    smooth out vec2 coords;

    const vec2 corners[6] = vec2[6](
        vec2(0.0, 0.0), vec2(0.0, 1.0), vec2(0.1, 1.0),
        vec2(0.0, 0.0), vec2(0.1, 1.0), vec2(0.1, 0.0)
    );

    void main() {
        vec2 position = corners[gl_VertexID];
        gl_Position = vec4(position, 0.0, 1.0);
        coords = position;
    }
"#@
}

/// Source text of the procedural quad's vertex shader.
pub fn procedural_quad_vertex_shader() -> (r: &'static str)
    ensures
        r@ == procedural_quad_vertex_shader_spec(),
{
    r#"
    #version 430

    smooth out vec2 coords;

    const vec2 corners[6] = vec2[6](
        vec2(0.0, 0.0), vec2(0.0, 1.0), vec2(0.1, 1.0),
        vec2(0.0, 0.0), vec2(0.1, 1.0), vec2(0.1, 0.0)
    );

    void main() {
        vec2 position = corners[gl_VertexID];
        gl_Position = vec4(position, 0.0, 1.0);
        coords = position;
    }
"#
}

/// The quad's fragment shader: sample the bound texture at the interpolated
/// coordinates.
pub open spec fn quad_fragment_shader_spec() -> Seq<char> {
    r#"
    #version 430

    uniform sampler2D image;

    smooth in vec2 coords;
    out vec4 frag_color;

    void main() {
        frag_color = texture(image, coords);
    }
"#@
}

/// Source text of the quad's fragment shader.
pub fn quad_fragment_shader() -> (r: &'static str)
    ensures
        r@ == quad_fragment_shader_spec(),
{
    r#"
    #version 430

    uniform sampler2D image;

    smooth in vec2 coords;
    out vec4 frag_color;

    void main() {
        frag_color = texture(image, coords);
    }
"#
}

/// The demo's compute shader, compiled once at startup to show the backend
/// accepts it; it raises a block of values to a power.
pub open spec fn power_compute_shader_spec() -> Seq<char> {
    r#"
    #version 430
    layout(local_size_x = 1, local_size_y = 1, local_size_z = 1) in;
    layout(std140) buffer MyBlock {
        float power;
        vec4 values[4096/4];
    };
    void main() {
        vec4 val = values[gl_GlobalInvocationID.x];
        values[gl_GlobalInvocationID.x] = pow(val, vec4(power));
    }
"#@
}

/// Source text of the demo's compute shader.
pub fn power_compute_shader() -> (r: &'static str)
    ensures
        r@ == power_compute_shader_spec(),
{
    r#"
    #version 430
    layout(local_size_x = 1, local_size_y = 1, local_size_z = 1) in;
    layout(std140) buffer MyBlock {
        float power;
        vec4 values[4096/4];
    };
    void main() {
        vec4 val = values[gl_GlobalInvocationID.x];
        values[gl_GlobalInvocationID.x] = pow(val, vec4(power));
    }
"#
}

} // verus!
