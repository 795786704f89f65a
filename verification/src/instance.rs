//! Layout of the per-instance vertex buffer: each instance carries its
//! model matrix, a 4x4 matrix of `f32`, which the vertex shader reads as
//! four consecutive vec4 attributes.

use vstd::prelude::*;

verus! {

/// Bytes in one matrix column: four 4-byte floats.
pub const COLUMN_BYTES: u64 = 16;

/// Columns in a model matrix.
pub const MATRIX_COLUMNS: u32 = 4;

/// Bytes from one instance to the next: the whole matrix.
pub const INSTANCE_STRIDE: u64 = 64;

/// The first shader location of the instance attributes; locations below
/// it belong to the model's own vertices.
pub const FIRST_INSTANCE_LOCATION: u32 = 5;

/// One vec4 attribute of the instance buffer: where it starts within an
/// instance, and the shader location it feeds.
pub struct InstanceAttribute {
    pub offset: u64,
    pub shader_location: u32,
}

/// The attributes of the instance buffer, one per matrix column, in column
/// order: column `k` starts `k` columns into the instance and feeds shader
/// location `5 + k`.
pub fn instance_attributes() -> (attributes: Vec<InstanceAttribute>)
    ensures
        attributes.len() == MATRIX_COLUMNS,
        forall|k: int|
            0 <= k < attributes.len() ==> {
                &&& (#[trigger] attributes@[k]).offset == k * COLUMN_BYTES
                &&& attributes@[k].shader_location == FIRST_INSTANCE_LOCATION + k
            },
{
    let mut attributes: Vec<InstanceAttribute> = Vec::new();
    let mut k: u32 = 0;
    while k < MATRIX_COLUMNS
        invariant
            k <= MATRIX_COLUMNS,
            attributes.len() == k,
            forall|j: int|
                0 <= j < k ==> {
                    &&& (#[trigger] attributes@[j]).offset == j * COLUMN_BYTES
                    &&& attributes@[j].shader_location == FIRST_INSTANCE_LOCATION + j
                },
        decreases MATRIX_COLUMNS - k,
    {
        attributes.push(
            InstanceAttribute {
                offset: (k as u64) * COLUMN_BYTES,
                shader_location: FIRST_INSTANCE_LOCATION + k,
            },
        );
        k = k + 1;
    }
    attributes
}

/// The instance attributes tile the instance exactly: each begins where
/// the previous ends, none reaches past the stride, the last ends at it, and
/// their shader locations are consecutive.
pub proof fn lemma_instance_attributes_tile(attributes: Seq<InstanceAttribute>)
    requires
        attributes.len() == MATRIX_COLUMNS,
        forall|k: int|
            0 <= k < attributes.len() ==> {
                &&& (#[trigger] attributes[k]).offset == k * COLUMN_BYTES
                &&& attributes[k].shader_location == FIRST_INSTANCE_LOCATION + k
            },
    ensures
        attributes[0].offset == 0,
        forall|k: int|
            0 <= k < attributes.len() ==> #[trigger] attributes[k].offset + COLUMN_BYTES <= INSTANCE_STRIDE,
        attributes[attributes.len() - 1].offset + COLUMN_BYTES == INSTANCE_STRIDE,
        forall|k: int|
            0 <= k < attributes.len() - 1 ==> {
                &&& #[trigger] attributes[k + 1].offset == attributes[k].offset + COLUMN_BYTES
                &&& attributes[k + 1].shader_location == attributes[k].shader_location + 1
            },
{
    assert(attributes[0].offset == 0);
    assert(attributes[3].offset == 3 * COLUMN_BYTES);
    assert forall|k: int| 0 <= k < attributes.len() - 1 implies {
        &&& #[trigger] attributes[k + 1].offset == attributes[k].offset + COLUMN_BYTES
        &&& attributes[k + 1].shader_location == attributes[k].shader_location + 1
    } by {
        assert(attributes[k].offset == k * COLUMN_BYTES);
        assert(attributes[k + 1].offset == (k + 1) * COLUMN_BYTES);
    }
}

} // verus!
