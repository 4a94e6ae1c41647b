use vstd::prelude::*;

use crate::registry::{handle_in, TextureIdMap};
use crate::texture::TextureId;

verus! {

/// A point whose coordinates are IEEE-754 binary32 bit patterns.
#[derive(Clone, Copy, Debug, PartialEq, Eq, Structural)]
pub struct PointBits {
    pub x: u32,
    pub y: u32,
}

/// The sign bit of a binary32 value.
pub const SIGN_BIT: u32 = 0x8000_0000;

/// IEEE-754 negation of a binary32 value: the sign bit flips, nothing else
/// changes (also for zeros, infinities and NaNs).
pub open spec fn neg_bits(b: u32) -> u32 {
    b ^ SIGN_BIT
}

/// A mesh vertex: position in GUI points, texture coordinates, and an 8-bit
/// RGBA color.
#[derive(Clone, Copy, Debug, PartialEq)]
pub struct Vertex {
    pub pos: PointBits,
    pub uv: PointBits,
    pub color: [u8; 4],
}

/// Three vertex indices, in winding order.
#[derive(Clone, Copy, Debug, PartialEq, Eq, Structural)]
pub struct Triangle {
    pub a: u32,
    pub b: u32,
    pub c: u32,
}

/// A tessellated mesh: vertices, and index triples into them.
pub struct Mesh {
    pub texture_id: TextureId,
    pub vertices: Vec<Vertex>,
    pub indices: Vec<u32>,
}

/// A tessellated primitive of the GUI layer.
pub enum Primitive {
    Mesh(Mesh),
    /// A primitive kind this bridge does not draw (e.g. a paint callback).
    Other,
}

/// Why a primitive is not drawn.
#[derive(Clone, Copy, Debug, PartialEq, Eq, Structural)]
pub enum MeshSkip {
    /// The mesh's texture has not been created in the renderer.
    UnresolvedTexture,
    /// The index list is not made of whole triples within the vertex list.
    BadIndices,
    /// The primitive is not a mesh.
    Unsupported,
}

/// What the renderer has to do for one primitive.
pub enum MeshPaint {
    /// Bind `texture` to channel 0, add `vertices` in order (each addition
    /// returns the renderer's index for that vertex), then add `triangles`
    /// after mapping their mesh indices through those renderer indices
    /// (see [`remap_triangles`]).
    Draw { texture: u16, vertices: Vec<Vertex>, triangles: Vec<Triangle> },
    /// Draw nothing for this primitive (and report why).
    Skip(MeshSkip),
}

/// A vertex as the renderer receives it: the vertical axis flipped, texture
/// coordinates and color unchanged.
pub open spec fn device_vertex(v: Vertex) -> Vertex {
    Vertex { pos: PointBits { x: v.pos.x, y: neg_bits(v.pos.y) }, uv: v.uv, color: v.color }
}

/// The index list is whole triples of indices into `n` vertices.
pub open spec fn indices_valid(indices: Seq<u32>, n: nat) -> bool {
    &&& indices.len() % 3 == 0
    &&& forall|i: int| 0 <= i < indices.len() ==> #[trigger] indices[i] < n
}

/// The index list grouped into triangles.
pub open spec fn triangles_of(indices: Seq<u32>) -> Seq<Triangle> {
    Seq::new(
        indices.len() / 3,
        |k: int| Triangle { a: indices[3 * k], b: indices[3 * k + 1], c: indices[3 * k + 2] },
    )
}

/// `p` is how a mesh is painted against the texture map `m`.
pub open spec fn is_mesh_paint(m: Map<u64, u16>, mesh: &Mesh, p: &MeshPaint) -> bool {
    match handle_in(m, mesh.texture_id) {
        None => *p == MeshPaint::Skip(MeshSkip::UnresolvedTexture),
        Some(h) => if indices_valid(mesh.indices@, mesh.vertices@.len()) {
            match p {
                MeshPaint::Draw { texture, vertices, triangles } => {
                    &&& *texture == h
                    &&& vertices@ == mesh.vertices@.map_values(|v: Vertex| device_vertex(v))
                    &&& triangles@ == triangles_of(mesh.indices@)
                },
                _ => false,
            }
        } else {
            *p == MeshPaint::Skip(MeshSkip::BadIndices)
        },
    }
}

/// `p` is how a primitive is painted against the texture map `m`.
pub open spec fn is_primitive_paint(m: Map<u64, u16>, prim: &Primitive, p: &MeshPaint) -> bool {
    match prim {
        Primitive::Mesh(mesh) => is_mesh_paint(m, mesh, p),
        Primitive::Other => *p == MeshPaint::Skip(MeshSkip::Unsupported),
    }
}

fn check_indices(indices: &Vec<u32>, n: usize) -> (r: bool)
    ensures
        r == indices_valid(indices@, n as nat),
{
    if indices.len() % 3 != 0 {
        return false;
    }
    let mut i: usize = 0;
    while i < indices.len()
        invariant
            i <= indices@.len(),
            forall|j: int| 0 <= j < i ==> #[trigger] indices@[j] < n,
        decreases indices@.len() - i,
    {
        if indices[i] as usize >= n {
            return false;
        }
        i = i + 1;
    }
    true
}

fn device_vertices(vertices: &Vec<Vertex>) -> (r: Vec<Vertex>)
    ensures
        r@ == vertices@.map_values(|v: Vertex| device_vertex(v)),
{
    let mut r: Vec<Vertex> = Vec::new();
    let mut i: usize = 0;
    while i < vertices.len()
        invariant
            i <= vertices@.len(),
            r@ == vertices@.take(i as int).map_values(|v: Vertex| device_vertex(v)),
        decreases vertices@.len() - i,
    {
        let v = vertices[i];
        r.push(
            Vertex { pos: PointBits { x: v.pos.x, y: v.pos.y ^ SIGN_BIT }, uv: v.uv, color: v.color },
        );
        assert(vertices@.take(i + 1) == vertices@.take(i as int).push(v));
        i = i + 1;
    }
    assert(vertices@.take(vertices@.len() as int) == vertices@);
    r
}

fn group_triangles(indices: &Vec<u32>) -> (r: Vec<Triangle>)
    requires
        indices@.len() % 3 == 0,
    ensures
        r@ == triangles_of(indices@),
{
    let mut r: Vec<Triangle> = Vec::new();
    let mut k: usize = 0;
    let mut j: usize = 0;
    let len = indices.len();
    let n = len / 3;
    while k < n
        invariant
            len == indices@.len(),
            n == indices@.len() / 3,
            indices@.len() % 3 == 0,
            k <= n,
            j == 3 * k,
            r@.len() == k,
            forall|q: int| 0 <= q < k ==> #[trigger] r@[q] == triangles_of(indices@)[q],
        decreases n - k,
    {
        assert(j + 2 < indices@.len()) by (nonlinear_arith)
            requires
                k < n,
                j == 3 * k,
                n == indices@.len() / 3,
        ;
        let t = Triangle { a: indices[j], b: indices[j + 1], c: indices[j + 2] };
        r.push(t);
        k = k + 1;
        j = j + 3;
    }
    assert(r@ =~= triangles_of(indices@));
    r
}

/// Converts one mesh for the renderer: skipped when its texture is not in
/// the map or its indices are malformed; otherwise its vertices with the
/// vertical axis flipped, and its indices grouped into triangles.
pub fn paint_mesh(textures: &TextureIdMap, mesh: &Mesh) -> (r: MeshPaint)
    ensures
        is_mesh_paint(textures@, mesh, &r),
{
    let texture = match textures.get_or_skip(mesh.texture_id) {
        Some(h) => h,
        None => return MeshPaint::Skip(MeshSkip::UnresolvedTexture),
    };
    if !check_indices(&mesh.indices, mesh.vertices.len()) {
        return MeshPaint::Skip(MeshSkip::BadIndices);
    }
    MeshPaint::Draw {
        texture,
        vertices: device_vertices(&mesh.vertices),
        triangles: group_triangles(&mesh.indices),
    }
}

/// Converts each primitive of a frame, independently of the others.
pub fn paint(textures: &TextureIdMap, primitives: &Vec<Primitive>) -> (r: Vec<MeshPaint>)
    ensures
        r@.len() == primitives@.len(),
        forall|i: int|
            0 <= i < r@.len() ==> is_primitive_paint(textures@, &primitives@[i], &#[trigger] r@[i]),
{
    let mut r: Vec<MeshPaint> = Vec::new();
    let mut i: usize = 0;
    while i < primitives.len()
        invariant
            i <= primitives@.len(),
            r@.len() == i,
            forall|j: int|
                0 <= j < i ==> is_primitive_paint(textures@, &primitives@[j], &#[trigger] r@[j]),
        decreases primitives@.len() - i,
    {
        let p = match &primitives[i] {
            Primitive::Mesh(mesh) => paint_mesh(textures, mesh),
            Primitive::Other => MeshPaint::Skip(MeshSkip::Unsupported),
        };
        r.push(p);
        i = i + 1;
    }
    r
}

/// Each vertex of a drawn mesh reaches the renderer at its GUI position with
/// the vertical coordinate negated: (x, y) becomes (x, -y).
pub proof fn lemma_vertical_flip(m: Map<u64, u16>, mesh: &Mesh, p: &MeshPaint, i: int)
    requires
        is_mesh_paint(m, mesh, p),
        p is Draw,
        0 <= i < mesh.vertices@.len(),
    ensures
        p->vertices@[i].pos.x == mesh.vertices@[i].pos.x,
        p->vertices@[i].pos.y == neg_bits(mesh.vertices@[i].pos.y),
        neg_bits(p->vertices@[i].pos.y) == mesh.vertices@[i].pos.y,
{
    let y = mesh.vertices@[i].pos.y;
    assert((y ^ 0x8000_0000u32) ^ 0x8000_0000u32 == y) by (bit_vector);
}

/// Each vertex of a drawn mesh keeps its texture coordinates and its 8-bit
/// color exactly.
pub proof fn lemma_uv_and_color_kept(m: Map<u64, u16>, mesh: &Mesh, p: &MeshPaint, i: int)
    requires
        is_mesh_paint(m, mesh, p),
        p is Draw,
        0 <= i < mesh.vertices@.len(),
    ensures
        p->vertices@[i].uv == mesh.vertices@[i].uv,
        p->vertices@[i].color == mesh.vertices@[i].color,
{
}

/// A mesh whose texture is not in the map is skipped, and the other
/// primitives of the frame are painted exactly as they would be without it.
pub proof fn lemma_unresolved_mesh_isolated(
    m: Map<u64, u16>,
    primitives: Seq<Primitive>,
    paints: Seq<MeshPaint>,
    j: int,
)
    requires
        paints.len() == primitives.len(),
        forall|i: int|
            0 <= i < paints.len() ==> is_primitive_paint(m, &primitives[i], &#[trigger] paints[i]),
        0 <= j < primitives.len(),
        primitives[j] matches Primitive::Mesh(mesh) && handle_in(m, mesh.texture_id) is None,
    ensures
        paints[j] == MeshPaint::Skip(MeshSkip::UnresolvedTexture),
        forall|i: int|
            0 <= i < paints.len() - 1 ==> is_primitive_paint(
                m,
                &primitives.remove(j)[i],
                &#[trigger] paints.remove(j)[i],
            ),
{
    assert(is_primitive_paint(m, &primitives[j], &paints[j]));
    assert forall|i: int| 0 <= i < paints.len() - 1 implies is_primitive_paint(
        m,
        &primitives.remove(j)[i],
        &#[trigger] paints.remove(j)[i],
    ) by {
        if i < j {
            assert(is_primitive_paint(m, &primitives[i], &paints[i]));
        } else {
            assert(is_primitive_paint(m, &primitives[i + 1], &paints[i + 1]));
        }
    }
}

/// Every index of the triangles is below `n`.
pub open spec fn triangles_within(triangles: Seq<Triangle>, n: nat) -> bool {
    forall|k: int|
        #![trigger triangles[k]]
        0 <= k < triangles.len() ==> triangles[k].a < n && triangles[k].b < n && triangles[k].c < n
}

/// A triangle with its mesh indices replaced through `remap`.
pub open spec fn remapped(t: Triangle, remap: Seq<u32>) -> Triangle {
    Triangle { a: remap[t.a as int], b: remap[t.b as int], c: remap[t.c as int] }
}

/// Maps mesh-local triangle indices to renderer vertex indices, where
/// `remap[i]` is the index the renderer returned for the mesh's `i`-th
/// vertex. Winding order is kept.
pub fn remap_triangles(triangles: &Vec<Triangle>, remap: &Vec<u32>) -> (r: Vec<Triangle>)
    requires
        triangles_within(triangles@, remap@.len()),
    ensures
        r@ == triangles@.map_values(|t: Triangle| remapped(t, remap@)),
{
    let mut r: Vec<Triangle> = Vec::new();
    let mut k: usize = 0;
    while k < triangles.len()
        invariant
            triangles_within(triangles@, remap@.len()),
            k <= triangles@.len(),
            r@ == triangles@.take(k as int).map_values(|t: Triangle| remapped(t, remap@)),
        decreases triangles@.len() - k,
    {
        let t = triangles[k];
        assert(t.a < remap@.len() && t.b < remap@.len() && t.c < remap@.len()) by {
            assert(triangles@[k as int] == t);
        }
        r.push(Triangle { a: remap[t.a as usize], b: remap[t.b as usize], c: remap[t.c as usize] });
        assert(triangles@.take(k + 1) == triangles@.take(k as int).push(t));
        k = k + 1;
    }
    assert(triangles@.take(triangles@.len() as int) == triangles@);
    r
}

} // verus!
