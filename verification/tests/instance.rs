use ball_demo::instance::{instance_attributes, INSTANCE_STRIDE};

#[test]
fn instance_attributes_cover_the_matrix() {
    let attributes = instance_attributes();
    let got: Vec<(u64, u32)> = attributes.iter().map(|a| (a.offset, a.shader_location)).collect();
    assert_eq!(got, vec![(0, 5), (16, 6), (32, 7), (48, 8)]);
    assert_eq!(INSTANCE_STRIDE, 64);
    assert_eq!(INSTANCE_STRIDE as usize, std::mem::size_of::<[[f32; 4]; 4]>());
}
