//! Vertex data for the two drawables. A vertex is a two-dimensional position
//! whose components are single-precision values; the library stores each
//! component as its IEEE 754 bit pattern, so that the geometry is plain data
//! and the contracts can speak of it exactly. The unverified front end turns
//! the bit patterns back into hardware floats when it uploads a buffer.

use vstd::prelude::*;

verus! {

/// Bit pattern of the single-precision value zero.
pub const F32_ZERO_BITS: u32 = 0x0000_0000;
/// Bit pattern of the single-precision value one.
pub const F32_ONE_BITS: u32 = 0x3F80_0000;
/// Bit pattern of the single-precision value one half.
pub const F32_HALF_BITS: u32 = 0x3F00_0000;
/// Bit pattern of the single-precision value minus one half.
pub const F32_NEG_HALF_BITS: u32 = 0xBF00_0000;
/// Bit pattern of the single-precision value minus one quarter.
pub const F32_NEG_QUARTER_BITS: u32 = 0xBE80_0000;
/// Bit pattern of the single-precision value one tenth (nearest representable).
pub const F32_TENTH_BITS: u32 = 0x3DCC_CCCD;

/// A two-dimensional vertex position; each field holds the IEEE 754 bit
/// pattern of one single-precision coordinate.
#[derive(Clone, Copy, Debug, PartialEq, Eq, Structural)]
pub struct Vertex {
    pub x: u32,
    pub y: u32,
}

/// The triangle's initial shape: three vertices, drawn as one triangle.
pub open spec fn triangle_vertices() -> Seq<Vertex> {
    seq![
        Vertex { x: F32_NEG_HALF_BITS, y: F32_NEG_HALF_BITS },
        Vertex { x: F32_ZERO_BITS, y: F32_HALF_BITS },
        Vertex { x: F32_HALF_BITS, y: F32_NEG_QUARTER_BITS },
    ]
}

/// The buffered quad's four corner vertices.
pub open spec fn quad_vertices() -> Seq<Vertex> {
    seq![
        Vertex { x: F32_ZERO_BITS, y: F32_ZERO_BITS },
        Vertex { x: F32_ZERO_BITS, y: F32_ONE_BITS },
        Vertex { x: F32_TENTH_BITS, y: F32_ONE_BITS },
        Vertex { x: F32_TENTH_BITS, y: F32_ZERO_BITS },
    ]
}

/// The buffered quad's index list: two triangles covering the quad.
pub open spec fn quad_indices() -> Seq<u32> {
    seq![0u32, 1u32, 2u32, 0u32, 2u32, 3u32]
}

/// Builds the triangle's initial vertex list.
pub fn make_triangle_vertices() -> (v: Vec<Vertex>)
    ensures
        v@ == triangle_vertices(),
{
    let mut v: Vec<Vertex> = Vec::new();
    v.push(Vertex { x: F32_NEG_HALF_BITS, y: F32_NEG_HALF_BITS });
    v.push(Vertex { x: F32_ZERO_BITS, y: F32_HALF_BITS });
    v.push(Vertex { x: F32_HALF_BITS, y: F32_NEG_QUARTER_BITS });
    proof {
        assert(v@ =~= triangle_vertices());
    }
    v
}

/// Builds the buffered quad's vertex list.
pub fn make_quad_vertices() -> (v: Vec<Vertex>)
    ensures
        v@ == quad_vertices(),
{
    let mut v: Vec<Vertex> = Vec::new();
    v.push(Vertex { x: F32_ZERO_BITS, y: F32_ZERO_BITS });
    v.push(Vertex { x: F32_ZERO_BITS, y: F32_ONE_BITS });
    v.push(Vertex { x: F32_TENTH_BITS, y: F32_ONE_BITS });
    v.push(Vertex { x: F32_TENTH_BITS, y: F32_ZERO_BITS });
    proof {
        assert(v@ =~= quad_vertices());
    }
    v
}

/// Builds the buffered quad's index list.
pub fn make_quad_indices() -> (v: Vec<u32>)
    ensures
        v@ == quad_indices(),
{
    let mut v: Vec<u32> = Vec::new();
    v.push(0);
    v.push(1);
    v.push(2);
    v.push(0);
    v.push(2);
    v.push(3);
    proof {
        assert(v@ =~= quad_indices());
    }
    v
}

/// Copies a vertex list element by element.
pub fn clone_vertices(v: &Vec<Vertex>) -> (r: Vec<Vertex>)
    ensures
        r@ == v@,
{
    let mut r: Vec<Vertex> = Vec::new();
    let mut i: usize = 0;
    proof {
        assert(r@ =~= v@.take(0));
    }
    while i < v.len()
        invariant
            i <= v.len(),
            r@ == v@.take(i as int),
        decreases v.len() - i,
    {
        r.push(v[i]);
        proof {
            assert(r@ =~= v@.take(i as int + 1));
        }
        i = i + 1;
    }
    proof {
        assert(r@ =~= v@);
    }
    r
}

/// Copies an index list element by element.
pub fn clone_indices(v: &Vec<u32>) -> (r: Vec<u32>)
    ensures
        r@ == v@,
{
    let mut r: Vec<u32> = Vec::new();
    let mut i: usize = 0;
    proof {
        assert(r@ =~= v@.take(0));
    }
    while i < v.len()
        invariant
            i <= v.len(),
            r@ == v@.take(i as int),
        decreases v.len() - i,
    {
        r.push(v[i]);
        proof {
            assert(r@ =~= v@.take(i as int + 1));
        }
        i = i + 1;
    }
    proof {
        assert(r@ =~= v@);
    }
    r
}

/// The buffered quad's index list references only the quad's four vertices and
/// describes exactly the two triangles (0, 1, 2) and (0, 2, 3).
pub proof fn lemma_quad_indices_valid()
    ensures
        quad_indices().len() == 6,
        forall|i: int| 0 <= i < quad_indices().len() ==> quad_indices()[i] < quad_vertices().len(),
        quad_indices()[0] == 0 && quad_indices()[1] == 1 && quad_indices()[2] == 2,
        quad_indices()[3] == 0 && quad_indices()[4] == 2 && quad_indices()[5] == 3,
{
}

} // verus!
