//! Assembling a loaded OBJ mesh into per-vertex records and choosing the
//! material each mesh is drawn with.

use vstd::prelude::*;

verus! {

/// The attributes of one vertex as found in a mesh's flat arrays: its
/// position, and its texture coordinates and normal where the mesh has
/// them.
pub struct VertexAttributes<T> {
    pub position: [T; 3],
    pub tex_coords: Option<[T; 2]>,
    pub normal: Option<[T; 3]>,
}

/// The number of whole vertices in a flat position array.
pub open spec fn vertex_count(positions_len: int) -> int {
    positions_len / 3
}

/// The flat arrays hold every attribute of every vertex: texture
/// coordinates (two per vertex) and normals (three per vertex) are either
/// absent or cover all vertices.
pub open spec fn attributes_cover(positions_len: int, texcoords_len: int, normals_len: int) -> bool {
    &&& (texcoords_len == 0 || texcoords_len >= 2 * vertex_count(positions_len))
    &&& (normals_len == 0 || normals_len >= 3 * vertex_count(positions_len))
}

/// Vertex `i` of the flat arrays.
pub open spec fn spec_vertex<T>(positions: Seq<T>, texcoords: Seq<T>, normals: Seq<T>, i: int) -> (
    Seq<T>,
    Option<Seq<T>>,
    Option<Seq<T>>,
) {
    (
        seq![positions[3 * i], positions[3 * i + 1], positions[3 * i + 2]],
        if texcoords.len() == 0 {
            None
        } else {
            Some(seq![texcoords[2 * i], texcoords[2 * i + 1]])
        },
        if normals.len() == 0 {
            None
        } else {
            Some(seq![normals[3 * i], normals[3 * i + 1], normals[3 * i + 2]])
        },
    )
}

/// The view of a vertex record as sequences.
pub open spec fn vertex_view<T>(v: VertexAttributes<T>) -> (Seq<T>, Option<Seq<T>>, Option<Seq<T>>) {
    (
        v.position@,
        match v.tex_coords {
            Some(t) => Some(t@),
            None => None,
        },
        match v.normal {
            Some(n) => Some(n@),
            None => None,
        },
    )
}

/// Splits a mesh's flat arrays into one record per vertex: vertex `i` has
/// position `positions[3i..3i+3]`, texture coordinates `texcoords[2i..2i+2]`
/// unless the mesh has none, and normal `normals[3i..3i+3]` unless the mesh
/// has none. Trailing positions that do not make a whole vertex are left
/// out. Arrays that are present must cover every vertex.
pub fn gather_vertices<T: Copy>(positions: &[T], texcoords: &[T], normals: &[T]) -> (vertices: Vec<
    VertexAttributes<T>,
>)
    requires
        attributes_cover(positions@.len() as int, texcoords@.len() as int, normals@.len() as int),
    ensures
        vertices.len() == vertex_count(positions@.len() as int),
        forall|i: int|
            0 <= i < vertices.len() ==> vertex_view(#[trigger] vertices@[i]) == spec_vertex(
                positions@,
                texcoords@,
                normals@,
                i,
            ),
        3 * vertices.len() <= positions@.len() < 3 * vertices.len() + 3,
        forall|i: int|
            0 <= i < vertices.len() ==> (#[trigger] vertices@[i]).position@ == seq![
                positions@[3 * i],
                positions@[3 * i + 1],
                positions@[3 * i + 2],
            ],
        forall|i: int|
            0 <= i < vertices.len() ==> {
                &&& (texcoords@.len() == 0 <==> (#[trigger] vertices@[i]).tex_coords is None)
                &&& texcoords@.len() > 0 ==> vertices@[i].tex_coords.unwrap()@ == seq![
                    texcoords@[2 * i],
                    texcoords@[2 * i + 1],
                ]
            },
        forall|i: int|
            0 <= i < vertices.len() ==> {
                &&& (normals@.len() == 0 <==> (#[trigger] vertices@[i]).normal is None)
                &&& normals@.len() > 0 ==> vertices@[i].normal.unwrap()@ == seq![
                    normals@[3 * i],
                    normals@[3 * i + 1],
                    normals@[3 * i + 2],
                ]
            },
{
    let count = positions.len() / 3;
    let mut vertices: Vec<VertexAttributes<T>> = Vec::new();
    let mut i: usize = 0;
    while i < count
        invariant
            count == vertex_count(positions@.len() as int),
            attributes_cover(positions@.len() as int, texcoords@.len() as int, normals@.len() as int),
            i <= count,
            vertices.len() == i,
            forall|j: int|
                0 <= j < i ==> vertex_view(#[trigger] vertices@[j]) == spec_vertex(
                    positions@,
                    texcoords@,
                    normals@,
                    j,
                ),
        decreases count - i,
    {
        let len = positions.len();
        assert(3 * i + 2 < len) by (nonlinear_arith)
            requires
                i < count,
                count == len / 3,
        ;
        let position = [positions[3 * i], positions[3 * i + 1], positions[3 * i + 2]];
        let tex_coords = if texcoords.len() == 0 {
            None
        } else {
            Some([texcoords[2 * i], texcoords[2 * i + 1]])
        };
        let normal = if normals.len() == 0 {
            None
        } else {
            Some([normals[3 * i], normals[3 * i + 1], normals[3 * i + 2]])
        };
        let vertex = VertexAttributes { position, tex_coords, normal };
        assert(vertex_view(vertex) == spec_vertex(positions@, texcoords@, normals@, i as int));
        vertices.push(vertex);
        i = i + 1;
    }
    assert forall|i: int| 0 <= i < vertices.len() implies {
        &&& (texcoords@.len() == 0 <==> (#[trigger] vertices@[i]).tex_coords is None)
        &&& texcoords@.len() > 0 ==> vertices@[i].tex_coords.unwrap()@ == seq![
            texcoords@[2 * i],
            texcoords@[2 * i + 1],
        ]
        &&& (normals@.len() == 0 <==> vertices@[i].normal is None)
        &&& normals@.len() > 0 ==> vertices@[i].normal.unwrap()@ == seq![
            normals@[3 * i],
            normals@[3 * i + 1],
            normals@[3 * i + 2],
        ]
        &&& vertices@[i].position@ == seq![positions@[3 * i], positions@[3 * i + 1], positions@[3 * i + 2]]
    } by {
        lemma_vertex_attributes_independent(positions@, texcoords@, normals@, i);
        assert(vertex_view(vertices@[i]) == spec_vertex(positions@, texcoords@, normals@, i));
    }
    vertices
}

/// Each attribute of a vertex comes from its own array alone: the position
/// from `positions`, the texture coordinates from `texcoords` whenever that
/// array is non-empty, and the normal from `normals` whenever that array is
/// non-empty, whatever the other arrays hold.
pub proof fn lemma_vertex_attributes_independent<T>(
    positions: Seq<T>,
    texcoords: Seq<T>,
    normals: Seq<T>,
    i: int,
)
    ensures
        spec_vertex(positions, texcoords, normals, i).0 == seq![
            positions[3 * i],
            positions[3 * i + 1],
            positions[3 * i + 2],
        ],
        texcoords.len() > 0 ==> spec_vertex(positions, texcoords, normals, i).1 == Some(
            seq![texcoords[2 * i], texcoords[2 * i + 1]],
        ),
        texcoords.len() == 0 ==> spec_vertex(positions, texcoords, normals, i).1 is None,
        normals.len() > 0 ==> spec_vertex(positions, texcoords, normals, i).2 == Some(
            seq![normals[3 * i], normals[3 * i + 1], normals[3 * i + 2]],
        ),
        normals.len() == 0 ==> spec_vertex(positions, texcoords, normals, i).2 is None,
{
}

/// The material of a mesh: its own material id (the first material when
/// it names none), limited to the last material that was loaded.
pub open spec fn spec_material_slot(material_id: Option<usize>, material_count: usize) -> int {
    let id: int = match material_id {
        Some(id) => id as int,
        None => 0,
    };
    let last: int = if material_count == 0 {
        0
    } else {
        material_count - 1
    };
    if id < last {
        id
    } else {
        last
    }
}

/// The index of the material a mesh is drawn with, out of
/// `material_count` loaded materials.
pub fn material_slot(material_id: Option<usize>, material_count: usize) -> (slot: usize)
    ensures
        slot == spec_material_slot(material_id, material_count),
{
    let id = match material_id {
        Some(id) => id,
        None => 0,
    };
    let last = if material_count == 0 {
        0
    } else {
        material_count - 1
    };
    if id < last {
        id
    } else {
        last
    }
}

/// Whenever a material was loaded, every mesh names one of them; a mesh
/// whose own id is valid keeps it.
pub proof fn lemma_material_slot_valid(material_id: Option<usize>, material_count: usize)
    requires
        material_count > 0,
    ensures
        0 <= spec_material_slot(material_id, material_count) < material_count,
        forall|id: usize|
            material_id == Some(id) && id < material_count ==> spec_material_slot(
                material_id,
                material_count,
            ) == id,
{
}

/// The number of indices a mesh draws, as the `u32` the draw call takes:
/// the index count modulo 2^32 (`as u32`).
pub fn element_count(index_count: usize) -> (count: u32)
    ensures
        count == (index_count as int) % 0x1_0000_0000int,
{
    let count = index_count as u32;
    assert(count as u64 == (index_count as u64) % 0x1_0000_0000u64) by (bit_vector)
        requires
            count == index_count as u32,
    ;
    count
}

} // verus!
