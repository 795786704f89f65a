use ball_demo::mesh::{element_count, gather_vertices, material_slot};

#[test]
fn gather_full_vertices() {
    let positions = [0.0f32, 1.0, 2.0, 3.0, 4.0, 5.0];
    let texcoords = [0.1f32, 0.2, 0.3, 0.4];
    let normals = [0.0f32, 0.0, 1.0, 0.0, 1.0, 0.0];
    let v = gather_vertices(&positions, &texcoords, &normals);
    assert_eq!(v.len(), 2);
    assert_eq!(v[0].position, [0.0, 1.0, 2.0]);
    assert_eq!(v[1].position, [3.0, 4.0, 5.0]);
    assert_eq!(v[0].tex_coords, Some([0.1, 0.2]));
    assert_eq!(v[1].tex_coords, Some([0.3, 0.4]));
    assert_eq!(v[0].normal, Some([0.0, 0.0, 1.0]));
    assert_eq!(v[1].normal, Some([0.0, 1.0, 0.0]));
}

#[test]
fn gather_without_optional_attributes() {
    let positions = [1u32, 2, 3, 4, 5, 6, 7];
    let v = gather_vertices(&positions, &[], &[]);
    assert_eq!(v.len(), 2);
    assert_eq!(v[1].position, [4, 5, 6]);
    assert_eq!(v[0].tex_coords, None);
    assert_eq!(v[1].normal, None);
}

#[test]
fn gather_empty_mesh() {
    let empty: [f32; 0] = [];
    assert!(gather_vertices(&empty, &empty, &empty).is_empty());
}

#[test]
fn material_slot_limits_to_loaded() {
    assert_eq!(material_slot(Some(2), 5), 2);
    assert_eq!(material_slot(Some(7), 5), 4);
    assert_eq!(material_slot(None, 5), 0);
    assert_eq!(material_slot(Some(3), 0), 0);
    assert_eq!(material_slot(None, 0), 0);
}

#[test]
fn element_count_truncates() {
    assert_eq!(element_count(0), 0);
    assert_eq!(element_count(36), 36);
    assert_eq!(element_count(u32::MAX as usize), u32::MAX);
    if let Ok(n) = usize::try_from(0x1_0000_0005u64) {
        assert_eq!(element_count(n), 5);
    }
}
