use static_mesh::geometry::{
    Mesh, MeshError, Position, HALF_BITS, MINUS_HALF_BITS, POSITION_COMPONENTS, POSITION_STRIDE,
    ZERO_BITS,
};

fn position(x: f32, y: f32, z: f32) -> Position {
    Position { x: x.to_bits(), y: y.to_bits(), z: z.to_bits() }
}

fn native_bytes_of_words(words: &[u32]) -> Vec<u8> {
    let mut bytes = Vec::new();
    for word in words {
        bytes.extend_from_slice(&word.to_ne_bytes());
    }
    bytes
}

#[test]
fn coordinate_constants_are_the_bits_of_the_numbers() {
    assert_eq!(f32::from_bits(ZERO_BITS), 0.0);
    assert_eq!(f32::from_bits(HALF_BITS), 0.5);
    assert_eq!(f32::from_bits(MINUS_HALF_BITS), -0.5);
}

#[test]
fn stride_is_three_coordinates_of_four_bytes() {
    assert_eq!(POSITION_COMPONENTS, 3);
    assert_eq!(POSITION_STRIDE, 12);
}

#[test]
fn built_in_mesh_is_one_triangle() {
    let mesh = Mesh::triangle();
    assert_eq!(mesh.vertex_count(), 3);
    assert_eq!(mesh.index_count(), 3);
    assert_eq!(
        mesh.coordinates(),
        vec![
            0.0f32.to_bits(),
            0.5f32.to_bits(),
            0.0f32.to_bits(),
            (-0.5f32).to_bits(),
            (-0.5f32).to_bits(),
            0.0f32.to_bits(),
            0.5f32.to_bits(),
            (-0.5f32).to_bits(),
            0.0f32.to_bits(),
        ]
    );
    assert_eq!(mesh.index_bytes(), native_bytes_of_words(&[0, 1, 2]));
}

#[test]
fn built_in_triangle_winds_counter_clockwise() {
    let words = Mesh::triangle().coordinates();
    let at = |i: usize| (f32::from_bits(words[3 * i]), f32::from_bits(words[3 * i + 1]));
    let (ax, ay) = at(0);
    let (bx, by) = at(1);
    let (cx, cy) = at(2);
    let doubled_area = (bx - ax) * (cy - ay) - (cx - ax) * (by - ay);
    assert!(doubled_area > 0.0);
}

#[test]
fn vertex_bytes_are_the_memory_of_the_floats() {
    let corners = [[0.0f32, 0.5, 0.0], [-0.5, -0.5, 0.0], [0.5, -0.5, 0.0]];
    let expected: &[u8] = bytemuck::cast_slice(&corners);
    let bytes = Mesh::triangle().vertex_bytes();
    assert_eq!(bytes.len(), 36);
    assert_eq!(bytes.as_slice(), expected);
}

#[test]
fn vertex_bytes_keep_every_bit_pattern() {
    let mesh = Mesh::new(
        vec![
            Position { x: 0x0102_0304, y: 0xFFFF_FFFF, z: 0x8000_0000 },
            position(1.0, -2.5, 1.0e-3),
        ],
        vec![],
    )
    .unwrap();
    let mut expected = native_bytes_of_words(&[0x0102_0304, 0xFFFF_FFFF, 0x8000_0000]);
    expected.extend_from_slice(&1.0f32.to_ne_bytes());
    expected.extend_from_slice(&(-2.5f32).to_ne_bytes());
    expected.extend_from_slice(&1.0e-3f32.to_ne_bytes());
    assert_eq!(mesh.vertex_bytes(), expected);
}

#[test]
fn index_bytes_are_four_per_index() {
    let mesh = Mesh::new(
        vec![position(0.0, 0.0, 0.0); 300],
        vec![0, 1, 2, 2, 1, 299, 0x0000_0101],
    )
    .unwrap();
    let bytes = mesh.index_bytes();
    assert_eq!(bytes.len(), 28);
    assert_eq!(bytes, native_bytes_of_words(&[0, 1, 2, 2, 1, 299, 0x0101]));
    assert_eq!(u32::from_ne_bytes([bytes[20], bytes[21], bytes[22], bytes[23]]), 299);
}

#[test]
fn mesh_keeps_its_parts() {
    let positions = vec![
        position(-1.0, -1.0, 0.0),
        position(1.0, -1.0, 0.0),
        position(1.0, 1.0, 0.0),
        position(-1.0, 1.0, 0.0),
    ];
    let mesh = Mesh::new(positions, vec![0, 1, 2, 0, 2, 3]).unwrap();
    assert_eq!(mesh.vertex_count(), 4);
    assert_eq!(mesh.index_count(), 6);
    assert_eq!(mesh.coordinates().len(), 12);
    assert_eq!(mesh.vertex_bytes().len(), 48);
    assert_eq!(mesh.coordinates()[3], 1.0f32.to_bits());
    assert_eq!(mesh.coordinates()[11], 0.0f32.to_bits());
}

#[test]
fn empty_mesh_is_a_mesh() {
    let mesh = Mesh::new(vec![], vec![]).unwrap();
    assert_eq!(mesh.vertex_count(), 0);
    assert_eq!(mesh.index_count(), 0);
    assert!(mesh.coordinates().is_empty());
    assert!(mesh.vertex_bytes().is_empty());
    assert!(mesh.index_bytes().is_empty());
}

#[test]
fn positions_without_indices_are_a_mesh() {
    let mesh = Mesh::new(vec![position(0.0, 0.0, 0.0)], vec![]).unwrap();
    assert_eq!(mesh.vertex_count(), 1);
    assert_eq!(mesh.index_count(), 0);
    assert_eq!(mesh.vertex_bytes().len(), 12);
}

#[test]
fn stray_index_is_reported_at_its_place() {
    let positions = vec![position(0.0, 0.0, 0.0), position(1.0, 0.0, 0.0)];
    assert_eq!(
        Mesh::new(positions.clone(), vec![0, 1, 2]),
        Err(MeshError::IndexOutOfRange { at: 2 })
    );
    assert_eq!(
        Mesh::new(positions.clone(), vec![0, 7, 1, 9]),
        Err(MeshError::IndexOutOfRange { at: 1 })
    );
    assert_eq!(Mesh::new(positions, vec![2]), Err(MeshError::IndexOutOfRange { at: 0 }));
}

#[test]
fn any_index_strays_where_there_are_no_positions() {
    assert_eq!(Mesh::new(vec![], vec![0]), Err(MeshError::IndexOutOfRange { at: 0 }));
}
