//! Tests that the shader sources and the vertex layout stay compatible: the
//! attribute and sampler names the shaders declare are the ones the library
//! names.

use glimmer::shaders::{
    image_sampler_name, power_compute_shader, procedural_quad_vertex_shader,
    quad_fragment_shader, quad_vertex_shader, triangle_fragment_shader, triangle_vertex_shader,
    vertex_attribute_name,
};

#[test]
fn names_match_the_shader_declarations() {
    assert_eq!(vertex_attribute_name(), "position");
    assert_eq!(image_sampler_name(), "image");
    let attribute_decl = format!("in vec2 {};", vertex_attribute_name());
    assert!(triangle_vertex_shader().contains(&attribute_decl));
    assert!(quad_vertex_shader().contains(&attribute_decl));
    let sampler_decl = format!("uniform sampler2D {};", image_sampler_name());
    assert!(quad_fragment_shader().contains(&sampler_decl));
}

#[test]
fn procedural_vertex_shader_binds_no_attribute() {
    let src = procedural_quad_vertex_shader();
    assert!(!src.contains("in vec2 position"));
    assert!(src.contains("gl_VertexID"));
    assert!(src.contains("corners[6]"));
}

#[test]
fn shader_versions() {
    assert!(triangle_vertex_shader().contains("#version 140"));
    assert!(triangle_fragment_shader().contains("#version 140"));
    assert!(quad_vertex_shader().contains("#version 430"));
    assert!(quad_fragment_shader().contains("#version 430"));
    assert!(procedural_quad_vertex_shader().contains("#version 430"));
    assert!(power_compute_shader().contains("#version 430"));
    assert!(power_compute_shader().contains("local_size_x = 1"));
}
